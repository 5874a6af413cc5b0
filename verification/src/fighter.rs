//! A fighter's combat state: health, super meter, the move in progress,
//! its frame counters, and the standing combo chain.  Positions and
//! velocities are continuous quantities kept by the caller; the operations
//! here say, through [`Motion`], how they change.

use vstd::prelude::*;
use crate::moves::{attack_table, attack_spec, combo_stage_state, combo_state, ComboKind, State};
use crate::roster::Character;

verus! {

/// Health a fighter starts each round with.
pub const MAX_HEALTH: i32 = 100;

/// A full super meter.
pub const MAX_METER: i32 = 100;

/// Ticks after a combo stage during which the next stage can be started.
pub const COMBO_LINK_FRAMES: u16 = 30;

/// First tick of an attack from which a press is buffered for the next
/// combo stage.
pub const COMBO_BUFFER_OPEN: u16 = 1;

/// Meter gained by a fighter that takes a hit.
pub const METER_ON_HIT_TAKEN: i32 = 8;

/// How a fighter's velocity changes when an action starts or a tick is run.
#[derive(Clone, Copy, Debug, PartialEq, Eq, Structural)]
pub enum Motion {
    /// Velocity is left as it is.
    Keep,
    /// A rising special: vertical speed becomes 470 upward and horizontal
    /// speed 105 toward the facing direction.
    Leap,
    /// Horizontal speed becomes the given speed toward the facing direction.
    Dash(u16),
    /// Horizontal speed becomes zero.
    Halt,
    /// Horizontal speed drops to a quarter.
    Slow,
    /// Hit-stun recoil: horizontal speed drops to 88 percent.
    Recoil,
    /// A jump: vertical speed becomes the jump speed upward, horizontal
    /// speed 185 times the given stick direction.
    Jump(i8),
    /// Walking: horizontal speed becomes 255 times the stick direction.
    Walk(i8),
    /// Steering in the air: horizontal speed becomes 150 times the stick
    /// direction.
    Steer(i8),
}

/// The velocity change that starting `state` gives `character`.
pub open spec fn start_motion(character: Character, state: State) -> Motion {
    match state {
        State::Special(1) => Motion::Leap,
        State::Special(0) => match character {
            Character::Cammy => Motion::Dash(430),
            Character::FeiLong => Motion::Dash(315),
            _ => Motion::Slow,
        },
        State::Special(2) => match character {
            Character::DeeJay => Motion::Dash(285),
            Character::Rose => Motion::Dash(350),
            _ => Motion::Dash(410),
        },
        State::Super => match character {
            Character::Rose => Motion::Halt,
            _ => Motion::Dash(465),
        },
        _ => Motion::Slow,
    }
}

/// Length in ticks of the action `state`: its frame data, or one tick for
/// a state that is not an attack.
pub open spec fn action_length(character: Character, state: State) -> u16 {
    match attack_table(character, state) {
        Some(spec) => spec.total,
        None => 1,
    }
}

/// States whose length is counted by the action frame counter.
pub open spec fn timed(state: State) -> bool {
    state.attacking() || state == State::Hit
}

/// The combat state of one fighter.
#[derive(Clone, Copy, Debug)]
pub struct Fighter {
    pub character: Character,
    /// 1 when facing right, -1 when facing left.
    pub facing: i8,
    pub health: i32,
    pub meter: i32,
    /// Standing on the floor.
    pub grounded: bool,
    pub state: State,
    /// Ticks since the current action started.
    pub action_frame: u16,
    /// Length of the current action in ticks.
    pub action_total: u16,
    /// Hit windows of the current attack that have already connected.
    pub hit_mask: u8,
    /// The current attack has already thrown its projectile.
    pub projectile_spawned: bool,
    /// Ticks since the current animation started.
    pub animation_tick: u32,
    /// The combo chain in progress, if any.
    pub combo_kind: Option<ComboKind>,
    /// Stage of the combo chain in progress.
    pub combo_step: u8,
    /// Ticks left to start the next combo stage.
    pub combo_timer: u16,
    /// The next combo stage has been requested during the current one.
    pub combo_queued: bool,
}

/// Sides of a fighter's hurtbox relative to its feet: the box spans from
/// `left` pixels left of the fighter to `width` pixels right of that, and
/// from `top` pixels above the feet down `height` pixels.
#[derive(Clone, Copy, Debug, PartialEq, Eq, Structural)]
pub struct BodyBox {
    pub left: u16,
    pub top: u16,
    pub width: u16,
    pub height: u16,
}

/// The hurtbox of a fighter in `state`, on the floor or not.
pub open spec fn body_box(state: State, grounded: bool) -> BodyBox {
    if state == State::KnockedOut {
        BodyBox { left: 78, top: 58, width: 156, height: 52 }
    } else if !grounded {
        BodyBox { left: 35, top: 166, width: 70, height: 132 }
    } else if state.crouching() {
        BodyBox { left: 42, top: 126, width: 84, height: 120 }
    } else {
        BodyBox { left: 37, top: 202, width: 74, height: 196 }
    }
}

/// The fighter's hurtbox, relative to its feet.
pub fn hurtbox(fighter: &Fighter) -> (body: BodyBox)
    ensures
        body == body_box(fighter.state, fighter.grounded),
{
    if fighter.state == State::KnockedOut {
        BodyBox { left: 78, top: 58, width: 156, height: 52 }
    } else if !fighter.grounded {
        // Ignore empty space below compact air poses.
        BodyBox { left: 35, top: 166, width: 70, height: 132 }
    } else if fighter.state.is_crouching() {
        BodyBox { left: 42, top: 126, width: 84, height: 120 }
    } else {
        BodyBox { left: 37, top: 202, width: 74, height: 196 }
    }
}

/// A crouching fighter's hurtbox is at most three quarters as tall as a
/// standing one's, and no taller box sits lower: crouching ducks under
/// attacks aimed at a standing body.
pub proof fn lemma_crouching_is_shorter(crouch: State, stand: State)
    requires
        crouch.crouching(),
        !stand.crouching(),
        stand != State::KnockedOut,
    ensures
        4 * body_box(crouch, true).height <= 3 * body_box(stand, true).height,
        body_box(crouch, true).top < body_box(stand, true).top,
{
}

impl Fighter {
    /// Health and meter lie in their ranges, a combo never passes its third
    /// stage, and a timed action's frame counter has not run past its
    /// length (it may equal the length only at tick 0, for a zero-tick
    /// stun).
    pub open spec fn wf(self) -> bool {
        &&& 0 <= self.health <= MAX_HEALTH
        &&& 0 <= self.meter <= MAX_METER
        &&& self.combo_step <= 2
        &&& timed(self.state) ==> (self.action_frame < self.action_total || self.action_frame
            == 0)
    }

    /// A fresh fighter standing idle on the floor at full health with an
    /// empty meter.
    pub fn new(character: Character, facing: i8) -> (fighter: Fighter)
        ensures
            fighter == fresh(character, facing),
            fighter.wf(),
    {
        Fighter {
            character,
            facing,
            health: MAX_HEALTH,
            meter: 0,
            grounded: true,
            state: State::Idle,
            action_frame: 0,
            action_total: 0,
            hit_mask: 0,
            projectile_spawned: false,
            animation_tick: 0,
            combo_kind: None,
            combo_step: 0,
            combo_timer: 0,
            combo_queued: false,
        }
    }

    /// Drops any combo chain in progress.
    pub fn reset_combo(&mut self)
        ensures
            *final(self) == combo_dropped(*old(self)),
            old(self).wf() ==> final(self).wf(),
    {
        self.combo_kind = None;
        self.combo_step = 0;
        self.combo_timer = 0;
        self.combo_queued = false;
    }

    /// Starts the action `state` from its first tick, dropping any combo
    /// chain.  A rising special leaves the floor.  Returns how the
    /// fighter's velocity changes.
    pub fn start_action(&mut self, state: State) -> (motion: Motion)
        ensures
            motion == start_motion(old(self).character, state),
            *final(self) == started(*old(self), state),
            old(self).wf() ==> final(self).wf(),
    {
        self.reset_combo();
        self.state = state;
        self.action_frame = 0;
        self.animation_tick = 0;
        self.action_total = match attack_spec(self.character, state) {
            Some(spec) => spec.total,
            None => 1,
        };
        self.hit_mask = 0;
        self.projectile_spawned = false;
        proof {
            if timed(state) && state != State::Hit {
                crate::moves::lemma_frame_data_covers_exactly_the_attacks(self.character, state);
                crate::moves::lemma_active_window_inside_move(self.character, state);
            }
        }
        match state {
            State::Special(1) => {
                self.grounded = false;
                Motion::Leap
            },
            State::Special(0) => match self.character {
                Character::Cammy => Motion::Dash(430),
                Character::FeiLong => Motion::Dash(315),
                _ => Motion::Slow,
            },
            State::Special(2) => match self.character {
                Character::DeeJay => Motion::Dash(285),
                Character::Rose => Motion::Dash(350),
                _ => Motion::Dash(410),
            },
            State::Super => match self.character {
                Character::Rose => Motion::Halt,
                _ => Motion::Dash(465),
            },
            _ => Motion::Slow,
        }
    }

    /// Starts stage `step` of a `kind` combo chain (stages past 2 repeat
    /// the heavy stage).
    pub fn start_combo_stage(&mut self, kind: ComboKind, step: u8) -> (motion: Motion)
        ensures
            motion == Motion::Slow,
            *final(self) == combo_started(*old(self), kind, step),
            old(self).wf() ==> final(self).wf(),
    {
        let motion = self.start_action(combo_state(kind, step));
        self.combo_kind = Some(kind);
        self.combo_step = if step < 2 {
            step
        } else {
            2
        };
        motion
    }

    /// The combo stage a `kind` press starts now: the stage after the last
    /// one while its link window is open and the chain is not finished,
    /// otherwise the first stage.
    pub fn next_combo_step(&self, kind: ComboKind) -> (step: u8)
        ensures
            step == next_step(*self, kind),
            step <= 2,
    {
        let same_chain = match self.combo_kind {
            Some(k) => k == kind,
            None => false,
        };
        if same_chain && self.combo_timer > 0 && self.combo_step < 2 {
            self.combo_step + 1
        } else {
            0
        }
    }

    /// Ends a combo stage without a follow-up: the fighter returns to idle
    /// and the link window for the next stage opens.
    pub fn finish_combo_stage(&mut self)
        ensures
            *final(self) == stage_finished(*old(self)),
            old(self).wf() ==> final(self).wf(),
    {
        self.state = State::Idle;
        self.action_frame = 0;
        self.action_total = 0;
        self.animation_tick = 0;
        self.hit_mask = 0;
        self.projectile_spawned = false;
        self.combo_timer = COMBO_LINK_FRAMES;
        self.combo_queued = false;
    }

    /// Switches to `state`, restarting the animation only when the state
    /// actually changes.
    pub fn set_state(&mut self, state: State)
        ensures
            *final(self) == state_set(*old(self), state),
            old(self).wf() && (!timed(state) || old(self).action_frame == 0) ==> final(self).wf(),
    {
        if self.state != state {
            self.state = state;
            self.animation_tick = 0;
        }
    }

    /// Ends the current action: back to idle on the floor, or to a neutral
    /// jump in the air, with the combo chain dropped.
    pub fn finish_action(&mut self)
        ensures
            *final(self) == finished(*old(self)),
            old(self).wf() ==> final(self).wf(),
    {
        self.state = if self.grounded {
            State::Idle
        } else {
            State::Jump
        };
        self.action_frame = 0;
        self.action_total = 0;
        self.animation_tick = 0;
        self.hit_mask = 0;
        self.projectile_spawned = false;
        self.reset_combo();
    }

    /// Takes an unblocked hit of `damage` with `stun` ticks of hit stun.
    /// Health never drops below zero; the fighter gains a little meter and
    /// is knocked into the air by a heavy hit (20 damage or more), or stays
    /// airborne when it was already `rising`.  Returns whether the hit
    /// knocked the fighter out, which happens exactly when health reaches
    /// zero.
    pub fn receive_hit(&mut self, damage: i32, stun: u16, rising: bool) -> (knocked_out: bool)
        requires
            i32::MIN <= old(self).health - damage <= i32::MAX,
            old(self).meter + METER_ON_HIT_TAKEN <= i32::MAX,
        ensures
            knocked_out == (old(self).health - damage <= 0),
            *final(self) == hit_taken(*old(self), damage, stun, rising),
            final(self).health >= 0,
            old(self).health >= 0 && damage >= 0 ==> final(self).health <= old(self).health,
            old(self).wf() && damage >= 0 ==> final(self).wf(),
    {
        let remaining = self.health - damage;
        self.health = if remaining > 0 {
            remaining
        } else {
            0
        };
        let gained = self.meter + METER_ON_HIT_TAKEN;
        self.meter = if gained < MAX_METER {
            gained
        } else {
            MAX_METER
        };
        if damage >= 20 || rising {
            self.grounded = false;
        }
        self.action_frame = 0;
        self.action_total = stun;
        self.animation_tick = 0;
        self.hit_mask = 0;
        self.projectile_spawned = false;
        self.reset_combo();
        if self.health == 0 {
            self.state = State::KnockedOut;
            true
        } else {
            self.state = State::Hit;
            false
        }
    }

    /// Takes a blocked hit of `damage`: a fifth of the damage, at least one
    /// point, is chipped off, but a block never takes the last point of
    /// health.
    pub fn block_hit(&mut self, damage: i32)
        requires
            old(self).health - chip_damage(damage) >= i32::MIN,
        ensures
            *final(self) == blocked(*old(self), damage),
            final(self).health >= 1,
            old(self).wf() ==> final(self).wf(),
    {
        let chip = if damage >= 5 {
            damage / 5
        } else {
            1
        };
        let remaining = self.health - chip;
        self.health = if remaining > 1 {
            remaining
        } else {
            1
        };
        self.animation_tick = 0;
    }

    /// Touches down on the floor: an airborne action ends on landing.
    pub fn land(&mut self)
        ensures
            *final(self) == landed(*old(self)),
            old(self).wf() ==> final(self).wf(),
    {
        self.grounded = true;
        if self.state.is_airborne() {
            self.finish_action();
        }
    }
}

/// A fighter at the start of a round: standing idle on the floor at full
/// health with an empty meter and no combo.
pub open spec fn fresh(character: Character, facing: i8) -> Fighter {
    Fighter {
        character,
        facing,
        health: MAX_HEALTH,
        meter: 0,
        grounded: true,
        state: State::Idle,
        action_frame: 0,
        action_total: 0,
        hit_mask: 0,
        projectile_spawned: false,
        animation_tick: 0,
        combo_kind: None,
        combo_step: 0,
        combo_timer: 0,
        combo_queued: false,
    }
}

/// `f` with its combo chain dropped.
pub open spec fn combo_dropped(f: Fighter) -> Fighter {
    Fighter { combo_kind: None, combo_step: 0, combo_timer: 0, combo_queued: false, ..f }
}

/// `f` starting the action `state` from its first tick, with its combo
/// chain dropped; a rising special leaves the floor.
pub open spec fn started(f: Fighter, state: State) -> Fighter {
    Fighter {
        state,
        action_frame: 0,
        action_total: action_length(f.character, state),
        animation_tick: 0,
        hit_mask: 0,
        projectile_spawned: false,
        grounded: f.grounded && state != State::Special(1),
        ..combo_dropped(f)
    }
}

/// `f` starting stage `step` of a `kind` combo chain; stages past 2 repeat
/// the heavy stage.
pub open spec fn combo_started(f: Fighter, kind: ComboKind, step: u8) -> Fighter {
    Fighter {
        combo_kind: Some(kind),
        combo_step: if step < 2 {
            step
        } else {
            2
        },
        ..started(f, combo_stage_state(kind, step))
    }
}

/// The combo stage a `kind` press starts for `f`: the next stage while
/// the link window is open and the chain is not finished, otherwise the
/// first stage.
pub open spec fn next_step(f: Fighter, kind: ComboKind) -> u8 {
    if f.combo_kind == Some(kind) && f.combo_timer > 0 && f.combo_step < 2 {
        (f.combo_step + 1) as u8
    } else {
        0
    }
}

/// `f` back to idle after a combo stage, with the link window open.
pub open spec fn stage_finished(f: Fighter) -> Fighter {
    Fighter {
        state: State::Idle,
        action_frame: 0,
        action_total: 0,
        animation_tick: 0,
        hit_mask: 0,
        projectile_spawned: false,
        combo_timer: COMBO_LINK_FRAMES,
        combo_queued: false,
        ..f
    }
}

/// `f` switched to `state`; the animation restarts only on a change.
pub open spec fn state_set(f: Fighter, state: State) -> Fighter {
    if f.state == state {
        f
    } else {
        Fighter { state, animation_tick: 0, ..f }
    }
}

/// `f` at the end of its action: idle on the floor or in a neutral jump in
/// the air, with the combo chain dropped.
pub open spec fn finished(f: Fighter) -> Fighter {
    Fighter {
        state: if f.grounded {
            State::Idle
        } else {
            State::Jump
        },
        action_frame: 0,
        action_total: 0,
        animation_tick: 0,
        hit_mask: 0,
        projectile_spawned: false,
        ..combo_dropped(f)
    }
}

/// `f` touching down on the floor; an airborne action ends on landing.
pub open spec fn landed(f: Fighter) -> Fighter {
    if f.state.in_air() {
        finished(Fighter { grounded: true, ..f })
    } else {
        Fighter { grounded: true, ..f }
    }
}

/// `f` after taking an unblocked hit of `damage` with `stun` ticks of hit
/// stun, already `rising` or not: health floors at zero, meter grows, a
/// heavy hit lifts the fighter off the floor, and the fighter is knocked out
/// exactly when no health is left.
pub open spec fn hit_taken(f: Fighter, damage: i32, stun: u16, rising: bool) -> Fighter {
    Fighter {
        health: if f.health - damage > 0 {
            (f.health - damage) as i32
        } else {
            0i32
        },
        meter: if f.meter + METER_ON_HIT_TAKEN < MAX_METER {
            (f.meter + METER_ON_HIT_TAKEN) as i32
        } else {
            MAX_METER
        },
        grounded: f.grounded && damage < 20 && !rising,
        state: if f.health - damage <= 0 {
            State::KnockedOut
        } else {
            State::Hit
        },
        action_frame: 0,
        action_total: stun,
        animation_tick: 0,
        hit_mask: 0,
        projectile_spawned: false,
        ..combo_dropped(f)
    }
}

/// `f` after blocking a hit of `damage`: the chip is taken, but never the
/// last point of health.
pub open spec fn blocked(f: Fighter, damage: i32) -> Fighter {
    Fighter {
        health: if f.health - chip_damage(damage) > 1 {
            (f.health - chip_damage(damage)) as i32
        } else {
            1i32
        },
        animation_tick: 0,
        ..f
    }
}

/// Health a blocked hit of `damage` chips off: a fifth of the damage,
/// rounded down, and at least one point.
pub open spec fn chip_damage(damage: i32) -> int {
    if damage / 5 >= 1 && damage >= 0 {
        damage / 5
    } else {
        1
    }
}

} // verus!
