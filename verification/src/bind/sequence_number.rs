//! A wrap-around change counter.

use vstd::prelude::*;

verus! {

/// The counter value that follows `s`: counting starts at zero, each step
/// adds one, and a step past the maximum wraps to one, never back to zero.
pub open spec fn next_sequence(s: u32) -> u32 {
    if s < 0xFFFF_FFFFu32 {
        (s + 1) as u32
    } else {
        1u32
    }
}

/// The counter value reached after `n` steps from `s`.  Every mutation of a
/// cell ([`set`](crate::bind::port_value::PortValue::set),
/// [`replace`](crate::bind::port_value::PortValue::replace),
/// [`take`](crate::bind::port_value::PortValue::take)) advances its counter
/// by one step, so this is the counter of a cell that started at `s` and was
/// mutated `n` times.
pub open spec fn sequence_after(s: u32, n: nat) -> u32
    decreases n,
{
    if n == 0 {
        s
    } else {
        next_sequence(sequence_after(s, (n - 1) as nat))
    }
}

/// A step past the maximum wraps to one, not to zero.
pub proof fn lemma_sequence_wraps()
    ensures
        next_sequence(0xFFFF_FFFFu32) == 1u32,
{
}

/// A step never lands on zero, so zero always means "never changed".
pub proof fn lemma_next_sequence_nonzero(s: u32)
    ensures
        next_sequence(s) != 0,
{
}

/// A cell that has been mutated at least once never shows counter zero
/// again, whatever the counter started at: zero always means "never
/// changed".
pub proof fn lemma_sequence_after_nonzero(s: u32, n: nat)
    requires
        n > 0,
    ensures
        sequence_after(s, n) != 0,
    decreases n,
{
    if n > 1 {
        lemma_sequence_after_nonzero(s, (n - 1) as nat);
    }
}

/// As long as no wrap-around occurs, `n` steps from `s` add exactly `n`: a
/// cell constructed with a value (counter one) shows `1 + n` after `n`
/// mutations.
pub proof fn lemma_sequence_after_no_wrap(s: u32, n: nat)
    requires
        s + n <= 0xFFFF_FFFFu32,
    ensures
        sequence_after(s, n) == s + n,
    decreases n,
{
    if n > 0 {
        lemma_sequence_after_no_wrap(s, (n - 1) as nat);
    }
}

/// A change counter for one cell: starts at zero, increments by one, and
/// wraps past the maximum back to one, so zero means "never changed".
#[derive(Clone, Copy, Debug, PartialEq, Eq, Structural)]
pub struct SequenceNumber(u32);

impl View for SequenceNumber {
    type V = u32;

    closed spec fn view(&self) -> u32 {
        self.0
    }
}

impl SequenceNumber {
    /// A counter standing at `value`.
    pub fn new(value: u32) -> (r: Self)
        ensures
            r@ == value,
    {
        SequenceNumber(value)
    }

    /// The current count.
    pub fn value(&self) -> (r: u32)
        ensures
            r == self@,
    {
        self.0
    }

    /// Advances the counter by one step, wrapping past the maximum to one.
    pub fn increment(&mut self)
        ensures
            final(self)@ == next_sequence(old(self)@),
    {
        if self.0 < u32::MAX {
            self.0 = self.0 + 1;
        } else {
            self.0 = 1;
        }
    }
}

impl Default for SequenceNumber {
    /// A counter that has never been advanced.
    fn default() -> (r: Self)
        ensures
            r@ == 0,
    {
        SequenceNumber(0)
    }
}

} // verus!
