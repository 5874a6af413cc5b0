//! Turning key states into per-tick controls.  Key presses are latched
//! between game ticks, so a press is never lost when several frames pass
//! between ticks, and never counted twice.

use vstd::prelude::*;

verus! {

/// What one player asks for on one game tick.
#[derive(Clone, Copy, Debug, PartialEq, Eq, Structural)]
pub struct Controls {
    /// Stick direction: -1 left, 1 right, 0 neither or both.
    pub horizontal: i8,
    /// Down is held.
    pub down: bool,
    pub jump: bool,
    pub punch: bool,
    pub kick: bool,
    pub special: bool,
    pub super_move: bool,
    /// Menu cursor move: -1 left, 1 right, 0 none.
    pub nav: i8,
}

/// The state of one player's keys on one frame.
#[derive(Clone, Copy, Debug, PartialEq, Eq, Structural)]
pub struct KeySample {
    pub left_down: bool,
    pub right_down: bool,
    pub down_down: bool,
    pub up_pressed: bool,
    pub punch_pressed: bool,
    pub kick_pressed: bool,
    pub special_pressed: bool,
    pub super_pressed: bool,
    pub left_pressed: bool,
    pub right_pressed: bool,
}

/// Controls gathered since the last game tick.
#[derive(Clone, Copy, Debug, PartialEq, Eq, Structural)]
pub struct InputBuffer {
    pub horizontal: i8,
    pub down: bool,
    pub jump: bool,
    pub punch: bool,
    pub kick: bool,
    pub special: bool,
    pub super_move: bool,
    pub nav: i8,
}

/// Stick direction from the two horizontal keys.
pub open spec fn stick(left_down: bool, right_down: bool) -> i8 {
    if left_down && !right_down {
        -1i8
    } else if right_down && !left_down {
        1i8
    } else {
        0i8
    }
}

/// Stick direction from the two horizontal keys: -1 or 1 when exactly one
/// of them is held, 0 otherwise.
pub fn axis(left_down: bool, right_down: bool) -> (direction: i8)
    ensures
        direction == stick(left_down, right_down),
{
    match (left_down, right_down) {
        (true, false) => -1,
        (false, true) => 1,
        _ => 0,
    }
}

impl InputBuffer {
    /// A buffer with nothing pressed.
    pub open spec fn empty() -> InputBuffer {
        InputBuffer {
            horizontal: 0,
            down: false,
            jump: false,
            punch: false,
            kick: false,
            special: false,
            super_move: false,
            nav: 0,
        }
    }

    /// A buffer with nothing pressed.
    pub fn new() -> (buffer: InputBuffer)
        ensures
            buffer == InputBuffer::empty(),
    {
        InputBuffer {
            horizontal: 0,
            down: false,
            jump: false,
            punch: false,
            kick: false,
            special: false,
            super_move: false,
            nav: 0,
        }
    }

    /// The buffer after recording one frame of key states.  Held keys (the
    /// stick and down) take their current state; presses are added to
    /// those already waiting; the menu cursor takes the last direction
    /// pressed, right winning over left on the same frame.
    pub open spec fn sampled(self, keys: KeySample) -> InputBuffer {
        InputBuffer {
            horizontal: stick(keys.left_down, keys.right_down),
            down: keys.down_down,
            jump: self.jump || keys.up_pressed,
            punch: self.punch || keys.punch_pressed,
            kick: self.kick || keys.kick_pressed,
            special: self.special || keys.special_pressed,
            super_move: self.super_move || keys.super_pressed,
            nav: if keys.right_pressed {
                1i8
            } else if keys.left_pressed {
                -1i8
            } else {
                self.nav
            },
        }
    }

    /// The controls a tick receives from this buffer.
    pub open spec fn pending(self) -> Controls {
        Controls {
            horizontal: self.horizontal,
            down: self.down,
            jump: self.jump,
            punch: self.punch,
            kick: self.kick,
            special: self.special,
            super_move: self.super_move,
            nav: self.nav,
        }
    }

    /// The buffer after a tick took its controls: presses are cleared,
    /// held keys stay.
    pub open spec fn drained(self) -> InputBuffer {
        InputBuffer {
            jump: false,
            punch: false,
            kick: false,
            special: false,
            super_move: false,
            nav: 0,
            ..self
        }
    }

    /// Records one frame of key states.
    pub fn sample(&mut self, keys: KeySample)
        ensures
            *final(self) == old(self).sampled(keys),
    {
        self.horizontal = axis(keys.left_down, keys.right_down);
        self.down = keys.down_down;
        self.jump = self.jump || keys.up_pressed;
        self.punch = self.punch || keys.punch_pressed;
        self.kick = self.kick || keys.kick_pressed;
        self.special = self.special || keys.special_pressed;
        self.super_move = self.super_move || keys.super_pressed;
        if keys.left_pressed {
            self.nav = -1;
        }
        if keys.right_pressed {
            self.nav = 1;
        }
    }

    /// Hands the gathered controls to a game tick and clears the presses,
    /// so that each press acts on exactly one tick.
    pub fn consume(&mut self) -> (controls: Controls)
        ensures
            controls == old(self).pending(),
            *final(self) == old(self).drained(),
    {
        let controls = Controls {
            horizontal: self.horizontal,
            down: self.down,
            jump: self.jump,
            punch: self.punch,
            kick: self.kick,
            special: self.special,
            super_move: self.super_move,
            nav: self.nav,
        };
        self.jump = false;
        self.punch = false;
        self.kick = false;
        self.special = false;
        self.super_move = false;
        self.nav = 0;
        controls
    }
}

impl Default for InputBuffer {
    fn default() -> (buffer: InputBuffer)
        ensures
            buffer == InputBuffer::empty(),
    {
        InputBuffer::new()
    }
}

/// A press is latched until a tick consumes it, and acts on that tick
/// only: a press sampled on one frame is still seen by the tick that
/// follows a later frame without it, the tick after that does not see it
/// unless it is pressed again, and the stick always reflects the latest
/// frame.
pub proof fn lemma_presses_are_latched_until_consumed(
    buffer: InputBuffer,
    pressed: KeySample,
    quiet: KeySample,
    later: KeySample,
)
    requires
        pressed.punch_pressed,
        !later.punch_pressed,
    ensures
        buffer.sampled(pressed).sampled(quiet).pending().punch,
        buffer.sampled(pressed).sampled(quiet).pending().horizontal == stick(
            quiet.left_down,
            quiet.right_down,
        ),
        !buffer.sampled(pressed).sampled(quiet).drained().sampled(later).pending().punch,
        buffer.drained().drained() == buffer.drained(),
{
}

} // verus!
