use vstd::prelude::*;

verus! {

/// The tag that follows `t` in the round-robin order 1, 2, ..., 255, 1, ...
pub open spec fn next_tag(t: u8) -> u8 {
    if t >= 255 {
        1
    } else {
        (t + 1) as u8
    }
}

/// The tag handed out after `n` further calls, starting from `t`.
pub open spec fn tag_after(t: u8, n: nat) -> u8
    decreases n,
{
    if n == 0 {
        t
    } else {
        tag_after(next_tag(t), (n - 1) as nat)
    }
}

/// Sequence-tag generator: hands out 1, 2, ..., 255 and then starts over at 1.
#[derive(Debug)]
pub struct BTag {
    value: u8,
}

impl BTag {
    /// The tag that the next call of `next` returns.
    pub closed spec fn current(&self) -> u8 {
        self.value
    }

    pub closed spec fn wf(&self) -> bool {
        1 <= self.value
    }

    pub fn new() -> (r: BTag)
        ensures
            r.wf(),
            r.current() == 1,
    {
        BTag { value: 1 }
    }

    /// Returns the current tag and advances to the next one.
    pub fn next(&mut self) -> (t: u8)
        requires
            old(self).wf(),
        ensures
            final(self).wf(),
            t == old(self).current(),
            1 <= t,
            final(self).current() == next_tag(t),
    {
        let t = self.value;
        self.value = if t == 255 { 1 } else { t + 1 };
        t
    }
}

/// Every tag handed out lies in 1..=255; starting from 1, the `n`-th tag is
/// `n % 255 + 1`, so tags are sequential, 255 is followed by 1 and 0 never
/// appears.
pub proof fn lemma_tag_sequence(n: nat)
    ensures
        tag_after(1, n) == n % 255 + 1,
        1 <= tag_after(1, n) <= 255,
        n % 255 == 254 ==> tag_after(1, n + 1) == 1,
    decreases n,
{
    if n > 0 {
        lemma_tag_after_step(1, (n - 1) as nat);
        lemma_tag_sequence((n - 1) as nat);
    }
    lemma_tag_after_step(1, n);
}

proof fn lemma_tag_after_step(t: u8, n: nat)
    ensures
        tag_after(t, n + 1) == next_tag(tag_after(t, n)),
    decreases n,
{
    reveal_with_fuel(tag_after, 2);
    if n > 0 {
        lemma_tag_after_step(next_tag(t), (n - 1) as nat);
    }
}

} // verus!
