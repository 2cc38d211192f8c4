//! Key-to-movement mapping for the latency-visualisation squares.
//!
//! Every client frame maps the held movement keys to a direction, moves the
//! local square by it, and sends the direction to the server, which applies
//! it to its own copy of the position; comparing the two squares shows the
//! input latency. Further keys reset the positions, cycle the visibility
//! toggle, and adjust the artificial frame delay.

use vstd::prelude::*;

verus! {

use crate::delay::DELAY_MS_STEP;
use crate::delay::DelayControl;
use crate::visibility::VisibilityToggle;

/// The direction one frame of input asks for: `-1`, `0` or `1` unit steps
/// along the horizontal axis. A held left key wins over a held right key.
pub open spec fn direction_spec(held_left: bool, held_right: bool) -> int {
    if held_left {
        -1
    } else if held_right {
        1
    } else {
        0
    }
}

/// Map the held movement keys to a direction.
pub fn direction_from_keys(held_left: bool, held_right: bool) -> (d: i8)
    ensures
        d == direction_spec(held_left, held_right),
{
    if held_left {
        -1
    } else if held_right {
        1
    } else {
        0
    }
}

/// The key state one frame tick observes: which movement keys are held, and
/// which command keys went down this frame.
pub struct FrameKeys {
    pub held_left: bool,
    pub held_right: bool,
    pub pressed_reset: bool,
    pub pressed_toggle: bool,
    pub pressed_delay_up: bool,
    pub pressed_delay_down: bool,
}

/// The client-side state the frame tick reads and writes: the position of
/// the locally moved square, the artificial delay, and the visibility
/// toggle.
pub struct ClientState {
    pub local_x: i64,
    pub delay: DelayControl,
    pub visibility: VisibilityToggle,
}

/// What the host must do after one frame tick: send the direction to the
/// server (every frame), send a reset message when asked, repaint the
/// squares when the visibility changed, and stall the frame for the given
/// number of milliseconds.
pub struct FrameActions {
    pub direction: i8,
    pub send_reset: bool,
    pub repaint: bool,
    pub stall_ms: u32,
}

impl ClientState {
    pub fn new() -> (s: ClientState)
        ensures
            s.local_x == 0,
            s.delay.ms == 0,
            s.visibility.counter == 0,
    {
        ClientState { local_x: 0, delay: DelayControl::new(), visibility: VisibilityToggle::new() }
    }

    /// One frame tick of the latency-visualisation client. The held keys
    /// move the local square, a reset puts it back to the origin (after any
    /// movement of the same frame), the toggle key advances the visibility
    /// state, and the delay keys adjust the stall, raising winning over
    /// lowering. The returned actions carry what the host must send, paint
    /// and wait.
    pub fn frame_tick(&mut self, keys: FrameKeys) -> (a: FrameActions)
        requires
            i64::MIN + 1 <= old(self).local_x <= i64::MAX - 1,
            keys.pressed_delay_up ==> old(self).delay.ms + DELAY_MS_STEP <= u32::MAX,
        ensures
            a.direction == direction_spec(keys.held_left, keys.held_right),
            a.send_reset == keys.pressed_reset,
            a.repaint == keys.pressed_toggle,
            a.stall_ms == final(self).delay.ms,
            final(self).local_x == if keys.pressed_reset {
                0
            } else {
                old(self).local_x + direction_spec(keys.held_left, keys.held_right)
            },
            final(self).visibility.counter == if keys.pressed_toggle {
                old(self).visibility.counter.wrapping_add(1)
            } else {
                old(self).visibility.counter
            },
            final(self).delay.ms == if keys.pressed_delay_up {
                old(self).delay.ms + DELAY_MS_STEP
            } else if keys.pressed_delay_down && old(self).delay.ms >= DELAY_MS_STEP {
                (old(self).delay.ms - DELAY_MS_STEP) as int
            } else if keys.pressed_delay_down {
                0
            } else {
                old(self).delay.ms as int
            },
    {
        let direction = direction_from_keys(keys.held_left, keys.held_right);
        self.local_x = self.local_x + direction as i64;

        if keys.pressed_reset {
            self.local_x = 0;
        }

        if keys.pressed_toggle {
            self.visibility.toggle();
        }

        if keys.pressed_delay_up {
            self.delay.increase();
        } else if keys.pressed_delay_down {
            self.delay.decrease();
        }

        let stall_ms = self.delay.current_ms();
        FrameActions { direction, send_reset: keys.pressed_reset, repaint: keys.pressed_toggle, stall_ms }
    }
}

/// The server's view of one player's square: the horizontal position it
/// accumulates from the direction messages the player's client sends.
pub struct PlayerTrack {
    pub x: i64,
}

impl PlayerTrack {
    /// A player joins with its square at the origin.
    pub fn new() -> (p: PlayerTrack)
        ensures
            p.x == 0,
    {
        PlayerTrack { x: 0 }
    }

    /// Apply one direction message to the player's square.
    pub fn apply_input(&mut self, direction: i8)
        requires
            i64::MIN <= old(self).x + direction <= i64::MAX,
        ensures
            final(self).x == old(self).x + direction,
    {
        self.x = self.x + direction as i64;
    }
}

} // verus!
