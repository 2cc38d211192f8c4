//! Two-bit visibility toggle for the pair of latency squares.
//!
//! One square is moved directly on the client, the other mirrors the
//! server's view of the same input. A single key cycles a counter whose two
//! low bits hide one square each, so four presses walk through all four
//! show/hide combinations and return to the start.

use vstd::prelude::*;

verus! {

/// Whether the locally controlled square is hidden in state `v`.
pub open spec fn local_hidden(v: u32) -> bool {
    v & 0b01 == 0b01
}

/// Whether the server-mirrored square is hidden in state `v`.
pub open spec fn remote_hidden(v: u32) -> bool {
    v & 0b10 == 0b10
}

/// The pair (local hidden, remote hidden) shown in state `v`.
pub open spec fn hidden_state(v: u32) -> (bool, bool) {
    (local_hidden(v), remote_hidden(v))
}

/// The toggle counter. Each key press advances it by one, wrapping on
/// overflow; only the two low bits are ever read.
pub struct VisibilityToggle {
    pub counter: u32,
}

impl VisibilityToggle {
    pub fn new() -> (v: VisibilityToggle)
        ensures
            v.counter == 0,
    {
        VisibilityToggle { counter: 0 }
    }

    /// Advance to the next of the four visibility states.
    pub fn toggle(&mut self)
        ensures
            final(self).counter == old(self).counter.wrapping_add(1),
    {
        self.counter = self.counter.wrapping_add(1);
    }

    /// Whether the locally controlled square is currently hidden.
    pub fn local_is_hidden(&self) -> (r: bool)
        ensures
            r == local_hidden(self.counter),
    {
        self.counter & 0b01 == 0b01
    }

    /// Whether the server-mirrored square is currently hidden.
    pub fn remote_is_hidden(&self) -> (r: bool)
        ensures
            r == remote_hidden(self.counter),
    {
        self.counter & 0b10 == 0b10
    }
}

/// The toggle cycles through the four visibility states by alternating two
/// independent bits: the local bit flips on every press, the remote bit on
/// every second press, the four successive states are pairwise distinct, and
/// four presses return to the starting state.
pub proof fn lemma_visibility_cycle(v: u32)
    ensures
        local_hidden(v.wrapping_add(1)) == !local_hidden(v),
        remote_hidden(v.wrapping_add(2)) == !remote_hidden(v),
        hidden_state(v.wrapping_add(1)) != hidden_state(v),
        hidden_state(v.wrapping_add(2)) != hidden_state(v),
        hidden_state(v.wrapping_add(3)) != hidden_state(v),
        hidden_state(v.wrapping_add(2)) != hidden_state(v.wrapping_add(1)),
        hidden_state(v.wrapping_add(3)) != hidden_state(v.wrapping_add(1)),
        hidden_state(v.wrapping_add(3)) != hidden_state(v.wrapping_add(2)),
        hidden_state(v.wrapping_add(4)) == hidden_state(v),
{
    assert(v.wrapping_add(1) & 0b01 == 0b01 <==> !(v & 0b01 == 0b01)) by (bit_vector);
    assert(v.wrapping_add(2) & 0b10 == 0b10 <==> !(v & 0b10 == 0b10)) by (bit_vector);
    assert(v.wrapping_add(2) & 0b01 == 0b01 <==> v & 0b01 == 0b01) by (bit_vector);
    assert(v.wrapping_add(3) & 0b01 == 0b01 <==> !(v & 0b01 == 0b01)) by (bit_vector);
    assert(v.wrapping_add(3) & 0b10 == 0b10 <==> !(v.wrapping_add(1) & 0b10 == 0b10))
        by (bit_vector);
    assert(v.wrapping_add(4) & 0b01 == 0b01 <==> v & 0b01 == 0b01) by (bit_vector);
    assert(v.wrapping_add(4) & 0b10 == 0b10 <==> v & 0b10 == 0b10) by (bit_vector);
}

} // verus!
