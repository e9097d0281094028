use rs_usbtmc::bulk::{decode_msg_in, encode_msg_out, encode_request_in};
use rs_usbtmc::caps::{parse_capabilities, Capabilities};
use rs_usbtmc::client::{ReadStep, Response, TransferFailure};
use rs_usbtmc::connect::{ConnectStage, ConnectStep, Connecting};
use rs_usbtmc::control::{
    clear_feature_request, on_check_clear_status, on_initiate_clear, ClearProgress,
};
use rs_usbtmc::init::{
    get_endpoints, get_usbtmc_mode, DeviceMode, EndpointInfo, InterfaceInfo, UsbtmcEndpoints,
};
use rs_usbtmc::tag::BTag;
use rs_usbtmc::text::decode_text;
use rs_usbtmc::{Error, UsbtmcClient};
use std::time::Duration;

fn caps(term_char: bool) -> Capabilities {
    Capabilities {
        bcd_usbtmc: 0x0100,
        indicator_pulse: false,
        talk_only: false,
        listen_only: false,
        term_char,
        bcd_usb488: 0,
        usb488_interface: 0,
        usb488_device: 0,
    }
}

fn mode(kernel: bool) -> DeviceMode {
    DeviceMode { config_number: 1, interface_number: 0, setting_number: 0, has_kernel_driver: kernel }
}

fn endpoints() -> UsbtmcEndpoints {
    UsbtmcEndpoints { bulk_in_ep: 0x82, bulk_out_ep: 0x01 }
}

fn client(term_char: bool) -> UsbtmcClient {
    UsbtmcClient::new(mode(false), endpoints(), caps(term_char), Duration::from_secs(1))
}

/// A DEV_DEP_MSG_IN frame with the given tag, payload and EOM bit.
fn data_frame(tag: u8, payload: &[u8], eom: bool) -> Vec<u8> {
    let n = payload.len() as u32;
    let mut f = vec![2, tag, 255 - tag, 0];
    f.extend_from_slice(&n.to_le_bytes());
    f.extend_from_slice(&[if eom { 1 } else { 0 }, 0, 0, 0]);
    f.extend_from_slice(payload);
    while f.len() % 4 != 0 {
        f.push(0);
    }
    f
}

#[test]
fn tags_wrap_from_255_to_1() {
    let mut t = BTag::new();
    for expected in 1..=255u32 {
        assert_eq!(t.next() as u32, expected);
    }
    assert_eq!(t.next(), 1);
    assert_eq!(t.next(), 2);
}

#[test]
fn tags_never_zero_over_many_calls() {
    let mut t = BTag::new();
    for n in 0..1000u32 {
        let v = t.next();
        assert_ne!(v, 0);
        assert_eq!(v as u32, n % 255 + 1);
    }
}

#[test]
fn command_frame_exact_bytes() {
    let mut c = client(false);
    let f = c.command("*IDN?").unwrap();
    assert_eq!(
        f,
        vec![1, 1, 254, 0, 5, 0, 0, 0, 1, 0, 0, 0, b'*', b'I', b'D', b'N', b'?', 0, 0, 0]
    );
    let g = c.command("*RST").unwrap();
    assert_eq!(&g[..4], &[1, 2, 253, 0]);
    assert_eq!(g.len(), 16);
}

#[test]
fn msg_out_frame_size_eom_and_alignment() {
    for len in 0..40usize {
        let payload: Vec<u8> = (0..len).map(|i| i as u8 + 1).collect();
        let f = encode_msg_out(7, &payload).unwrap();
        assert_eq!(u32::from_le_bytes([f[4], f[5], f[6], f[7]]) as usize, len);
        assert_eq!(f[8] & 1, 1);
        assert_eq!(f.len() % 4, 0);
        assert_eq!(&f[12..12 + len], &payload[..]);
        assert!(f[12 + len..].iter().all(|b| *b == 0));
        assert_eq!(f.len(), 12 + len + (4 - len % 4) % 4);
    }
}

#[test]
fn msg_out_frame_transfer_size_little_endian() {
    let payload = vec![0xAAu8; 0x1234];
    let f = encode_msg_out(3, &payload).unwrap();
    assert_eq!(&f[..12], &[1, 3, 252, 0, 0x34, 0x12, 0, 0, 1, 0, 0, 0]);
}

#[test]
fn request_frame_without_term_char_support() {
    let mut c = client(false);
    c.set_term_char(Some(b'\n'));
    let x = c.query_raw("X").unwrap();
    assert_eq!(x.request, vec![2, 2, 253, 0, 0, 16, 0, 0, 0, 0, 0, 0]);
    assert_eq!(encode_request_in(9, 64, &caps(false), Some(b'\n'))[8] & 1, 0);
}

#[test]
fn request_frame_with_term_char_support() {
    let mut c = client(true);
    let x = c.query_raw("X").unwrap();
    assert_eq!(x.request[8], 0);
    c.set_term_char(Some(b'\n'));
    let y = c.query_raw("X").unwrap();
    assert_eq!(y.request, vec![2, 4, 251, 0, 0, 16, 0, 0, 1, b'\n', 0, 0]);
}

#[test]
fn reassembly_of_three_frames() {
    let mut c = client(false);
    let x = c.query_raw("CURVE?").unwrap();
    assert_eq!(x.command[1], 1);
    assert_eq!(x.request[1], 2);
    let s1 = c.receive(&data_frame(2, b"abc", false)).unwrap();
    let r2 = match s1 {
        ReadStep::Continue(r) => r,
        other => panic!("unexpected {:?}", other),
    };
    assert_eq!(r2[1], 3);
    let s2 = c.receive(&data_frame(3, b"defg", false)).unwrap();
    let r3 = match s2 {
        ReadStep::Continue(r) => r,
        other => panic!("unexpected {:?}", other),
    };
    assert_eq!(r3[1], 4);
    let s3 = c.receive(&data_frame(4, b"hi", true)).unwrap();
    assert_eq!(s3, ReadStep::Complete(Response::Raw(b"abcdefghi".to_vec())));
    assert_eq!(c.receive(&data_frame(5, b"x", true)), Err(Error::ProtocolError));
}

#[test]
fn mismatched_tag_is_refused() {
    let mut c = client(false);
    c.query_raw("*IDN?").unwrap();
    assert_eq!(c.receive(&data_frame(1, b"stale", true)), Err(Error::TagMismatch));
    assert_eq!(c.receive(&data_frame(2, b"late", true)), Err(Error::ProtocolError));
}

#[test]
fn idn_query_round_trip() {
    let mut c = client(false);
    c.query("*IDN?").unwrap();
    let r = c.receive(&data_frame(2, b"  ACME,Scope 100,SN42,1.0\r\n", true)).unwrap();
    assert_eq!(r, ReadStep::Complete(Response::Text("ACME,Scope 100,SN42,1.0".to_string())));
}

#[test]
fn invalid_utf8_is_an_encoding_error() {
    let mut c = client(false);
    c.query("*IDN?").unwrap();
    assert_eq!(c.receive(&data_frame(2, &[0x41, 0xFF, 0x42], true)), Err(Error::EncodingError));
}

#[test]
fn decode_text_trims_white_space() {
    assert_eq!(decode_text(b"\t 1.25E+00 \n").unwrap(), "1.25E+00");
    assert_eq!(decode_text(b" \n").unwrap(), "");
    assert_eq!(decode_text(&[0xC3, 0xA9, b' ']).unwrap(), "\u{e9}");
    assert_eq!(decode_text(&[0xC3]), Err(Error::EncodingError));
}

#[test]
fn decode_msg_in_errors() {
    assert_eq!(decode_msg_in(&[2, 1, 254], 1).unwrap_err(), Error::ProtocolError);
    let mut f = data_frame(1, b"ab", true);
    f[0] = 1;
    assert_eq!(decode_msg_in(&f, 1).unwrap_err(), Error::ProtocolError);
    let mut g = data_frame(1, b"ab", true);
    g[2] = 0;
    assert_eq!(decode_msg_in(&g, 1).unwrap_err(), Error::ProtocolError);
    let mut h = data_frame(1, b"ab", true);
    h[4] = 9;
    assert_eq!(decode_msg_in(&h, 1).unwrap_err(), Error::ProtocolError);
    assert_eq!(decode_msg_in(&data_frame(1, b"ab", true), 2).unwrap_err(), Error::TagMismatch);
    let m = decode_msg_in(&data_frame(1, b"abc", false), 1).unwrap();
    assert_eq!(m.payload, b"abc".to_vec());
    assert!(!m.eom);
}

#[test]
fn transfer_failures_map_to_errors() {
    let mut c = client(false);
    c.set_timeout(Duration::from_millis(5));
    assert_eq!(*c.timeout(), Duration::from_millis(5));
    c.query("*IDN?").unwrap();
    assert_eq!(c.fail(TransferFailure::TimedOut), Error::Timeout);
    assert_eq!(c.receive(&data_frame(2, b"x", true)), Err(Error::ProtocolError));
    assert_eq!(c.fail(TransferFailure::Failed), Error::TransportError);
}

#[test]
fn capabilities_parse() {
    let mut b = vec![0u8; 24];
    b[0] = 1;
    b[2] = 0x00;
    b[3] = 0x01;
    b[4] = 0b101;
    b[5] = 1;
    b[12] = 0x00;
    b[13] = 0x01;
    b[14] = 0x07;
    b[15] = 0x0F;
    let c = parse_capabilities(&b).unwrap();
    assert_eq!(c.bcd_usbtmc, 0x0100);
    assert!(c.indicator_pulse && !c.talk_only && c.listen_only && c.term_char);
    assert_eq!((c.bcd_usb488, c.usb488_interface, c.usb488_device), (0x0100, 7, 15));
    assert_eq!(parse_capabilities(&b[..23]), Err(Error::ProtocolError));
    b[0] = 0x80;
    assert_eq!(parse_capabilities(&b), Err(Error::ProtocolError));
}

#[test]
fn clear_status_replies() {
    assert_eq!(on_initiate_clear(&[1]), Ok(ClearProgress::Done));
    assert_eq!(on_initiate_clear(&[2]), Ok(ClearProgress::Poll));
    assert_eq!(on_initiate_clear(&[0x80]), Err(Error::ProtocolError));
    assert_eq!(on_initiate_clear(&[]), Err(Error::ProtocolError));
    assert_eq!(on_check_clear_status(&[2, 0], false), Ok(ClearProgress::Poll));
    assert_eq!(on_check_clear_status(&[2, 0], true), Err(Error::DeviceBusy));
    assert_eq!(on_check_clear_status(&[1, 0], true), Ok(ClearProgress::Done));
    assert_eq!(on_check_clear_status(&[1], false), Err(Error::ProtocolError));
    let r = clear_feature_request(0x82);
    assert_eq!((r.request_type, r.request, r.value, r.index, r.length), (2, 1, 0, 0x82, 0));
}

fn good_caps_reply() -> Vec<u8> {
    let mut b = vec![0u8; 24];
    b[0] = 1;
    b[5] = 1;
    b
}

#[test]
fn connect_releases_interface_when_capabilities_fail() {
    let (c, req) = Connecting::start(mode(true), endpoints(), Duration::from_secs(1));
    assert_eq!((req.request_type, req.request, req.length), (0xA1, 7, 24));
    match c.step(Err(TransferFailure::Failed), false) {
        ConnectStep::Abort(td, e) => {
            assert_eq!(e, Error::TransportError);
            assert_eq!(td.release_interface, Some(0));
            assert_eq!(td.reattach_driver, Some(0));
        }
        other => panic!("unexpected {:?}", other),
    }
    let (c, _) = Connecting::start(mode(false), endpoints(), Duration::from_secs(1));
    match c.step(Ok(vec![0x80; 24]), false) {
        ConnectStep::Abort(td, e) => {
            assert_eq!(e, Error::ProtocolError);
            assert_eq!(td.release_interface, Some(0));
            assert_eq!(td.reattach_driver, None);
        }
        other => panic!("unexpected {:?}", other),
    }
}

fn expect_control(s: ConnectStep) -> (Connecting, u8, u16) {
    match s {
        ConnectStep::Control(c, r) => (c, r.request, r.index),
        other => panic!("unexpected {:?}", other),
    }
}

#[test]
fn connect_runs_every_step() {
    let (c, _) = Connecting::start(mode(false), endpoints(), Duration::from_secs(1));
    let (c, req, _) = expect_control(c.step(Ok(good_caps_reply()), false));
    assert_eq!(req, 5);
    let (c, req, _) = expect_control(c.step(Ok(vec![2]), false));
    assert_eq!(req, 6);
    let (c, req, _) = expect_control(c.step(Ok(vec![2, 0]), false));
    assert_eq!(req, 6);
    let (c, req, idx) = expect_control(c.step(Ok(vec![1, 0]), false));
    assert_eq!((req, idx), (1, 0x01));
    let (c, req, idx) = expect_control(c.step(Ok(vec![]), false));
    assert_eq!((req, idx), (1, 0x82));
    match c.step(Ok(vec![]), false) {
        ConnectStep::Ready(client) => {
            assert!(client.capabilities().term_char);
            assert_eq!(client.endpoints(), endpoints());
            let td = client.close();
            assert_eq!(td.release_interface, Some(0));
            assert_eq!(td.reattach_driver, None);
        }
        other => panic!("unexpected {:?}", other),
    }
}

#[test]
fn connect_clear_never_completing_is_device_busy() {
    let (c, _) = Connecting::start(mode(false), endpoints(), Duration::from_secs(1));
    let (c, _, _) = expect_control(c.step(Ok(good_caps_reply()), false));
    let (c, _, _) = expect_control(c.step(Ok(vec![2]), false));
    assert_eq!(c.stage, ConnectStage::CheckClear(parse_capabilities(&good_caps_reply()).unwrap()));
    match c.step(Ok(vec![2, 0]), true) {
        ConnectStep::Abort(td, e) => {
            assert_eq!(e, Error::DeviceBusy);
            assert_eq!(td.release_interface, Some(0));
        }
        other => panic!("unexpected {:?}", other),
    }
}

#[test]
fn usbtmc_interface_and_endpoints_are_found() {
    let ifaces = [
        InterfaceInfo { config_number: 1, interface_number: 0, setting_number: 0, class_code: 3, sub_class_code: 0 },
        InterfaceInfo { config_number: 1, interface_number: 1, setting_number: 2, class_code: 0xFE, sub_class_code: 3 },
        InterfaceInfo { config_number: 1, interface_number: 2, setting_number: 0, class_code: 0xFE, sub_class_code: 3 },
    ];
    let m = get_usbtmc_mode(&ifaces).unwrap();
    assert_eq!((m.config_number, m.interface_number, m.setting_number), (1, 1, 2));
    assert!(!m.has_kernel_driver);
    assert_eq!(get_usbtmc_mode(&ifaces[..1]), Err(Error::UnsupportedDevice));
    let eps = [
        EndpointInfo { address: 0x83, attributes: 3 },
        EndpointInfo { address: 0x81, attributes: 2 },
        EndpointInfo { address: 0x02, attributes: 2 },
        EndpointInfo { address: 0x84, attributes: 2 },
    ];
    assert_eq!(get_endpoints(&eps), Ok(UsbtmcEndpoints { bulk_in_ep: 0x81, bulk_out_ep: 0x02 }));
    assert_eq!(get_endpoints(&eps[..2]), Err(Error::UnsupportedDevice));
}
