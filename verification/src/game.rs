//! A match between two fighters: character select, the rounds, and the
//! rules of one fighting tick.  Positions, velocities, projectiles in
//! flight and hit sparks are continuous quantities kept by the caller; the
//! caller measures the distances and overlaps the rules ask for and applies
//! the motions they report.

use vstd::prelude::*;
use crate::fighter::{
    blocked, combo_dropped, combo_started, finished, fresh, hit_taken, landed, next_step,
    stage_finished, start_motion, started, state_set, timed, Fighter, Motion, COMBO_BUFFER_OPEN,
    MAX_METER,
};
use crate::input::Controls;
use crate::moves::{attack_table, attack_spec, strike_window, AttackSpec, ComboKind, State};
use crate::roster::{cycle_pick, cycled, Character};

verus! {

/// Where the match is.
#[derive(Clone, Copy, Debug, PartialEq, Eq, Structural)]
pub enum Phase {
    /// Players pick their characters.
    Select,
    /// The round is announced; the count is the ticks left.
    Intro(u16),
    /// The round is being fought.
    Fight,
    /// A fighter was knocked out; the knock-out pose holds for `frames` ticks.
    Knockout { winner: usize, frames: u16 },
    /// The round's winner celebrates for `frames` ticks before the next round.
    RoundResult { winner: usize, frames: u16 },
    /// A player has won the match.
    MatchOver { winner: usize },
}

/// The text of an on-screen banner.
#[derive(Clone, Copy, Debug, PartialEq, Eq, Structural)]
pub enum BannerText {
    /// The name of the character's super.
    Super,
    /// The name of the character's special move with this variant.
    Special(u8),
}

/// A move name announced on screen in the character's colour.
#[derive(Clone, Copy, Debug, PartialEq, Eq, Structural)]
pub struct Banner {
    pub character: Character,
    pub text: BannerText,
    /// Ticks the banner stays on screen.
    pub frames: u16,
}

impl Banner {
    /// The text the banner shows.
    pub fn text(&self) -> (s: &'static str)
        ensures
            s@ == (match self.text {
                BannerText::Super => crate::roster::super_move_name(self.character),
                BannerText::Special(v) => crate::roster::special_move_name(self.character, v),
            }),
    {
        match self.text {
            BannerText::Super => self.character.super_name(),
            BannerText::Special(v) => self.character.special_name(v),
        }
    }
}

/// Ticks a super's banner stays up.
pub const SUPER_BANNER_FRAMES: u16 = 70;

/// Ticks a special move's banner stays up.
pub const SPECIAL_BANNER_FRAMES: u16 = 38;

/// Ticks the knock-out pose holds.
pub const KNOCKOUT_FRAMES: u16 = 120;

/// Ticks the round winner celebrates.
pub const ROUND_RESULT_FRAMES: u16 = 90;

/// Ticks of the announcement before the first round.
pub const FIRST_INTRO_FRAMES: u16 = 100;

/// Ticks of the announcement before a later round.
pub const NEXT_INTRO_FRAMES: u16 = 95;

/// Rounds a player must win to take the match.
pub const WINS_NEEDED: u8 = 2;

/// Ticks the game freezes for when a hit is blocked.
pub const BLOCK_HITSTOP: u8 = 3;

/// A projectile thrown on this tick.
#[derive(Clone, Copy, Debug, PartialEq, Eq, Structural)]
pub struct ProjectileLaunch {
    /// Index of the fighter that threw it.
    pub owner: usize,
    /// The thrower, whose colour the projectile has.
    pub character: Character,
    pub damage: i32,
    /// Thrown by a super.
    pub super_move: bool,
    /// Speed toward the thrower's facing direction.
    pub speed: u16,
    /// Drawn radius.
    pub radius: u16,
    /// Half the side of its square hitbox.
    pub hit_radius: u16,
    /// Distance ahead of the thrower, toward its facing, where it appears.
    pub reach: u16,
    /// Height above the thrower's feet where it appears and flies.
    pub height: u16,
}

/// The projectile that `character`, fighter `owner`, throws with a move of
/// `damage`, from its super or not.
pub open spec fn launch_of(owner: usize, character: Character, super_move: bool, damage: i32)
    -> ProjectileLaunch {
    ProjectileLaunch {
        owner,
        character,
        damage,
        super_move,
        speed: if super_move {
            560
        } else {
            365
        },
        radius: if super_move {
            34
        } else {
            20
        },
        hit_radius: if super_move {
            22
        } else {
            14
        },
        reach: 65,
        height: 103,
    }
}

impl ProjectileLaunch {
    /// The projectile that `character`, fighter `owner`, throws with a move
    /// of `damage`, from its super or not: a super's flies faster and is
    /// larger.
    pub fn new(owner: usize, character: Character, super_move: bool, damage: i32) -> (launch:
        ProjectileLaunch)
        ensures
            launch == launch_of(owner, character, super_move, damage),
    {
        ProjectileLaunch {
            owner,
            character,
            damage,
            super_move,
            speed: if super_move {
                560
            } else {
                365
            },
            radius: if super_move {
                34
            } else {
                20
            },
            hit_radius: if super_move {
                22
            } else {
                14
            },
            reach: 65,
            height: 103,
        }
    }
}

/// A sound cue of a fighter's tick.
#[derive(Clone, Copy, Debug, PartialEq, Eq, Structural)]
pub enum Cue {
    SuperStarted,
    SpecialStarted,
}

/// What a fighting tick did to one fighter, for the caller to apply to the
/// fighter's body, in this order: the drift, the launch, the motion, then,
/// when the fighter `moves`, its movement, wall clamping and gravity.
#[derive(Clone, Copy, Debug, PartialEq, Eq, Structural)]
pub struct FighterStep {
    /// A dashing special or super carried the fighter before anything else:
    /// its position advances by one tick of its velocity, then its
    /// horizontal speed drops to 95 percent.
    pub drift: bool,
    /// The projectile thrown this tick, from the fighter's position after
    /// the drift.
    pub launch: Option<ProjectileLaunch>,
    /// The velocity change.
    pub motion: Motion,
    pub cue: Option<Cue>,
    /// The fighter moves, is clamped between the walls and falls this
    /// tick.  Knocked-out and celebrating fighters and a fighter starting a
    /// standing combo stage do not.
    pub moves: bool,
    /// The horizontal position advances by one tick of velocity as part of
    /// the movement; dashing specials and supers advance by their drift
    /// instead.
    pub advance: bool,
}

/// What a fighter in neutral does with its controls.
#[derive(Clone, Copy, Debug, PartialEq, Eq, Structural)]
pub enum Choice {
    SuperMove,
    SpecialMove(u8),
    Throw,
    ComboStage(ComboKind),
    Normal(State),
    Jump(State),
    Guard(State),
    Crouch,
    Walk(State),
    AirDrift,
}

/// `forward`, `back` or `neutral` as the stick points toward the facing
/// direction, away from it, or nowhere.
pub open spec fn aimed(relative: int, forward: State, back: State, neutral: State) -> State {
    if relative > 0 {
        forward
    } else if relative < 0 {
        back
    } else {
        neutral
    }
}

/// The kicking normal for the stance and the stick.
pub open spec fn kick_normal(grounded: bool, down: bool, relative: int) -> State {
    if !grounded {
        aimed(relative, State::AirForwardKick, State::AirBackKick, State::AirKick)
    } else if down {
        aimed(relative, State::CrouchForwardKick, State::CrouchBackKick, State::CrouchKick)
    } else {
        aimed(relative, State::ForwardKick, State::BackKick, State::Kick)
    }
}

/// The punching normal for the stance and the stick.
pub open spec fn punch_normal(grounded: bool, down: bool, relative: int) -> State {
    if !grounded {
        aimed(relative, State::AirForwardPunch, State::AirBackPunch, State::AirPunch)
    } else if down {
        aimed(relative, State::CrouchForwardPunch, State::CrouchBackPunch, State::CrouchPunch)
    } else {
        aimed(relative, State::ForwardPunch, State::BackPunch, State::Punch)
    }
}

/// The stick direction relative to the fighter's facing: positive toward
/// the opponent side the fighter faces, negative away from it.
pub open spec fn relative_stick(controls: Controls, facing: i8) -> int {
    controls.horizontal as int * facing as int
}

/// The decision of a fighter in neutral, in order of priority: the super
/// (with a full meter, on the floor), a special (on the floor; down gives
/// variant 1, toward gives variant 2), a throw (punch and kick on the
/// floor), a kick, a punch (a neutral standing press starts or continues a
/// standing combo), a jump, a guard (holding away from a threatening
/// opponent), a crouch, walking or standing, and steering in the air.
pub open spec fn decide(f: Fighter, c: Controls, threatened: bool) -> Choice {
    let relative = relative_stick(c, f.facing);
    if c.super_move && f.meter >= MAX_METER && f.grounded {
        Choice::SuperMove
    } else if c.special && f.grounded {
        Choice::SpecialMove(
            if c.down {
                1
            } else if relative > 0 {
                2
            } else {
                0
            },
        )
    } else if c.punch && c.kick && f.grounded {
        Choice::Throw
    } else if c.kick {
        if f.grounded && !c.down && relative == 0 {
            Choice::ComboStage(ComboKind::Kick)
        } else {
            Choice::Normal(kick_normal(f.grounded, c.down, relative))
        }
    } else if c.punch {
        if f.grounded && !c.down && relative == 0 {
            Choice::ComboStage(ComboKind::Punch)
        } else {
            Choice::Normal(punch_normal(f.grounded, c.down, relative))
        }
    } else if f.grounded && c.jump {
        Choice::Jump(aimed(relative, State::JumpForward, State::JumpBackward, State::Jump))
    } else if f.grounded && threatened && relative < 0 {
        Choice::Guard(
            if c.down {
                State::CrouchBlock
            } else {
                State::Block
            },
        )
    } else if f.grounded && c.down {
        Choice::Crouch
    } else if f.grounded {
        Choice::Walk(
            if c.horizontal != 0 {
                if relative < 0 {
                    State::WalkBackward
                } else {
                    State::Walk
                }
            } else {
                State::Idle
            },
        )
    } else {
        Choice::AirDrift
    }
}

/// The fighter's animation clock advanced by one tick.
pub open spec fn clock_ticked(f: Fighter) -> Fighter {
    Fighter { animation_tick: f.animation_tick.wrapping_add(1), ..f }
}

/// Knocked-out and celebrating fighters do nothing but animate.
pub open spec fn frozen(state: State) -> bool {
    state == State::KnockedOut || state == State::Victory
}

/// The combo link window counted down outside attacks; the chain is
/// dropped when it closes.
pub open spec fn link_ticked(f: Fighter) -> Fighter {
    if !f.state.attacking() && f.combo_timer > 0 {
        if f.combo_timer == 1 {
            combo_dropped(f)
        } else {
            Fighter { combo_timer: (f.combo_timer - 1) as u16, ..f }
        }
    } else {
        f
    }
}

/// One tick of hit stun; the fighter recovers when the stun runs out.
pub open spec fn stun_ticked(f: Fighter) -> Fighter {
    let g = Fighter { action_frame: (f.action_frame + 1) as u16, ..f };
    if g.action_frame >= g.action_total {
        finished(g)
    } else {
        g
    }
}

/// The press that continues a `kind` chain: that button without the other.
pub open spec fn chain_press(kind: ComboKind, c: Controls) -> bool {
    match kind {
        ComboKind::Punch => c.punch && !c.kick,
        ComboKind::Kick => c.kick && !c.punch,
    }
}

/// The attack counter advanced by one tick, with a continuing press of
/// the chain buffered once the buffer window is open.
pub open spec fn attack_counted(f: Fighter, c: Controls) -> Fighter {
    let g = Fighter { action_frame: (f.action_frame + 1) as u16, ..f };
    match g.combo_kind {
        Some(kind) => if chain_press(kind, c) && g.combo_step < 2 && g.action_frame
            >= COMBO_BUFFER_OPEN {
            Fighter { combo_queued: true, ..g }
        } else {
            g
        },
        None => g,
    }
}

/// The attack throws its projectile on this tick: it is a projectile move,
/// has not thrown yet, and has reached its first active tick.
pub open spec fn throws_now(f: Fighter) -> bool {
    match attack_table(f.character, f.state) {
        Some(spec) => spec.projectile && !f.projectile_spawned && f.action_frame
            >= spec.active_start,
        None => false,
    }
}

/// The end of an attack's tick: when the move is over, the next combo stage
/// starts if one was buffered, the chain's link window opens if not, and a
/// move outside a chain simply ends.
pub open spec fn attack_ended(f: Fighter) -> (Fighter, Motion) {
    if f.action_frame >= f.action_total {
        match f.combo_kind {
            Some(kind) => if f.combo_queued && f.combo_step < 2 {
                (combo_started(f, kind, (f.combo_step + 1) as u8), Motion::Slow)
            } else {
                (stage_finished(f), Motion::Keep)
            },
            None => (finished(f), Motion::Keep),
        }
    } else {
        (f, Motion::Keep)
    }
}

/// The fighter after acting on a neutral decision, its velocity change,
/// and whether it moves this tick.
pub open spec fn acted(f: Fighter, c: Controls, choice: Choice) -> (Fighter, Motion, bool) {
    match choice {
        Choice::SuperMove => (
            started(Fighter { meter: 0, ..f }, State::Super),
            start_motion(f.character, State::Super),
            true,
        ),
        Choice::SpecialMove(v) => (
            started(f, State::Special(v)),
            start_motion(f.character, State::Special(v)),
            true,
        ),
        Choice::Throw => (started(f, State::Throw), Motion::Slow, true),
        Choice::ComboStage(kind) => (
            combo_started(f, kind, next_step(f, kind)),
            Motion::Slow,
            false,
        ),
        Choice::Normal(s) => (started(f, s), Motion::Slow, true),
        Choice::Jump(s) => (
            state_set(Fighter { grounded: false, action_frame: 0, ..combo_dropped(f) }, s),
            Motion::Jump(c.horizontal),
            true,
        ),
        Choice::Guard(s) => (state_set(combo_dropped(f), s), Motion::Halt, true),
        Choice::Crouch => (state_set(combo_dropped(f), State::Crouch), Motion::Halt, true),
        Choice::Walk(s) => (
            state_set(
                if c.horizontal != 0 {
                    combo_dropped(f)
                } else {
                    f
                },
                s,
            ),
            Motion::Walk(c.horizontal),
            true,
        ),
        Choice::AirDrift => (
            Fighter {
                action_frame: if f.action_frame < u16::MAX {
                    (f.action_frame + 1) as u16
                } else {
                    u16::MAX
                },
                ..f
            },
            Motion::Steer(c.horizontal),
            true,
        ),
    }
}

/// The dashing moves, which carry the fighter by their own drift.
pub open spec fn dashing(state: State) -> bool {
    state == State::Special(2) || state == State::Super
}

/// One fighting tick of fighter `index` in state `f`, with the controls
/// `c`, threatened by its opponent or not: the fighter afterwards and what
/// the tick reports.
pub open spec fn stepped(f: Fighter, index: usize, c: Controls, threatened: bool) -> (
    Fighter,
    FighterStep,
) {
    let f1 = clock_ticked(f);
    if frozen(f1.state) {
        (
            f1,
            FighterStep {
                drift: false,
                launch: None,
                motion: Motion::Keep,
                cue: None,
                moves: false,
                advance: !dashing(f1.state),
            },
        )
    } else {
        let f2 = link_ticked(f1);
        if f2.state == State::Hit {
            let f3 = stun_ticked(f2);
            (
                f3,
                FighterStep {
                    drift: false,
                    launch: None,
                    motion: Motion::Recoil,
                    cue: None,
                    moves: true,
                    advance: !dashing(f3.state),
                },
            )
        } else if f2.state.attacking() {
            let f3 = attack_counted(f2, c);
            let throws = throws_now(f3);
            let f4 = if throws {
                Fighter { projectile_spawned: true, ..f3 }
            } else {
                f3
            };
            let launch = if throws {
                Some(
                    launch_of(
                        index,
                        f3.character,
                        f3.state == State::Super,
                        attack_table(f3.character, f3.state)->0.damage,
                    ),
                )
            } else {
                None
            };
            let (f5, motion) = attack_ended(f4);
            (
                f5,
                FighterStep {
                    drift: dashing(f2.state),
                    launch,
                    motion,
                    cue: None,
                    moves: true,
                    advance: !dashing(f5.state),
                },
            )
        } else {
            let choice = decide(f2, c, threatened);
            let (f3, motion, moves) = acted(f2, c, choice);
            (
                f3,
                FighterStep {
                    drift: false,
                    launch: None,
                    motion,
                    cue: match choice {
                        Choice::SuperMove => Some(Cue::SuperStarted),
                        Choice::SpecialMove(_) => Some(Cue::SpecialStarted),
                        _ => None,
                    },
                    moves,
                    advance: !dashing(f3.state),
                },
            )
        }
    }
}

/// The banner after fighter `f` takes its fighting tick: starting the
/// super or a special announces it; otherwise the banner stays.
pub open spec fn stepped_banner(
    f: Fighter,
    c: Controls,
    threatened: bool,
    banner: Option<Banner>,
) -> Option<Banner> {
    let f2 = link_ticked(clock_ticked(f));
    if frozen(f2.state) || f2.state == State::Hit || f2.state.attacking() {
        banner
    } else {
        match decide(f2, c, threatened) {
            Choice::SuperMove => Some(
                Banner {
                    character: f.character,
                    text: BannerText::Super,
                    frames: SUPER_BANNER_FRAMES,
                },
            ),
            Choice::SpecialMove(v) => Some(
                Banner {
                    character: f.character,
                    text: BannerText::Special(v),
                    frames: SPECIAL_BANNER_FRAMES,
                },
            ),
            _ => banner,
        }
    }
}

/// The decision of a fighter in neutral.
pub fn choose_action(fighter: &Fighter, controls: Controls, threatened: bool) -> (choice: Choice)
    ensures
        choice == decide(*fighter, controls, threatened),
{
    let h = controls.horizontal as i16;
    let d = fighter.facing as i16;
    assert(-16384 <= h * d <= 16384) by (nonlinear_arith)
        requires
            -128 <= h <= 127,
            -128 <= d <= 127,
    ;
    let relative: i16 = h * d;
    if controls.super_move && fighter.meter >= MAX_METER && fighter.grounded {
        Choice::SuperMove
    } else if controls.special && fighter.grounded {
        let variant: u8 = if controls.down {
            1
        } else if relative > 0 {
            2
        } else {
            0
        };
        Choice::SpecialMove(variant)
    } else if controls.punch && controls.kick && fighter.grounded {
        Choice::Throw
    } else if controls.kick {
        if fighter.grounded && !controls.down && relative == 0 {
            Choice::ComboStage(ComboKind::Kick)
        } else {
            let state = if !fighter.grounded {
                if relative > 0 {
                    State::AirForwardKick
                } else if relative < 0 {
                    State::AirBackKick
                } else {
                    State::AirKick
                }
            } else if controls.down {
                if relative > 0 {
                    State::CrouchForwardKick
                } else if relative < 0 {
                    State::CrouchBackKick
                } else {
                    State::CrouchKick
                }
            } else if relative > 0 {
                State::ForwardKick
            } else if relative < 0 {
                State::BackKick
            } else {
                State::Kick
            };
            Choice::Normal(state)
        }
    } else if controls.punch {
        if fighter.grounded && !controls.down && relative == 0 {
            Choice::ComboStage(ComboKind::Punch)
        } else {
            let state = if !fighter.grounded {
                if relative > 0 {
                    State::AirForwardPunch
                } else if relative < 0 {
                    State::AirBackPunch
                } else {
                    State::AirPunch
                }
            } else if controls.down {
                if relative > 0 {
                    State::CrouchForwardPunch
                } else if relative < 0 {
                    State::CrouchBackPunch
                } else {
                    State::CrouchPunch
                }
            } else if relative > 0 {
                State::ForwardPunch
            } else if relative < 0 {
                State::BackPunch
            } else {
                State::Punch
            };
            Choice::Normal(state)
        }
    } else if fighter.grounded && controls.jump {
        Choice::Jump(
            if relative > 0 {
                State::JumpForward
            } else if relative < 0 {
                State::JumpBackward
            } else {
                State::Jump
            },
        )
    } else if fighter.grounded && threatened && relative < 0 {
        Choice::Guard(
            if controls.down {
                State::CrouchBlock
            } else {
                State::Block
            },
        )
    } else if fighter.grounded && controls.down {
        Choice::Crouch
    } else if fighter.grounded {
        Choice::Walk(
            if controls.horizontal != 0 {
                if relative < 0 {
                    State::WalkBackward
                } else {
                    State::Walk
                }
            } else {
                State::Idle
            },
        )
    } else {
        Choice::AirDrift
    }
}

/// One tick of hit stun.
fn run_stun(f: &mut Fighter)
    requires
        old(f).wf(),
        old(f).state == State::Hit,
    ensures
        *final(f) == stun_ticked(*old(f)),
        final(f).wf(),
{
    f.action_frame = f.action_frame + 1;
    if f.action_frame >= f.action_total {
        f.finish_action();
    }
}

/// One tick of an attack: the drift flag, the projectile thrown, and the
/// velocity change.
fn run_attack(f: &mut Fighter, index: usize, controls: Controls) -> (r: (
    bool,
    Option<ProjectileLaunch>,
    Motion,
))
    requires
        old(f).wf(),
        old(f).state.attacking(),
    ensures
        ({
            let f3 = attack_counted(*old(f), controls);
            let throws = throws_now(f3);
            let f4 = if throws {
                Fighter { projectile_spawned: true, ..f3 }
            } else {
                f3
            };
            &&& r.0 == dashing(old(f).state)
            &&& r.1 == (if throws {
                Some(
                    launch_of(
                        index,
                        f3.character,
                        f3.state == State::Super,
                        attack_table(f3.character, f3.state)->0.damage,
                    ),
                )
            } else {
                None
            })
            &&& (*final(f), r.2) == attack_ended(f4)
        }),
        final(f).wf(),
{
    f.action_frame = f.action_frame + 1;
    match f.combo_kind {
        Some(kind) => {
            let matching_press = match kind {
                ComboKind::Punch => controls.punch && !controls.kick,
                ComboKind::Kick => controls.kick && !controls.punch,
            };
            if matching_press && f.combo_step < 2 && f.action_frame >= COMBO_BUFFER_OPEN {
                f.combo_queued = true;
            }
        },
        None => {},
    }
    let drift = f.state == State::Special(2) || f.state == State::Super;
    let mut launch: Option<ProjectileLaunch> = None;
    match attack_spec(f.character, f.state) {
        Some(spec) => {
            if spec.projectile && !f.projectile_spawned && f.action_frame >= spec.active_start {
                f.projectile_spawned = true;
                launch = Some(
                    ProjectileLaunch::new(index, f.character, f.state == State::Super, spec.damage),
                );
            }
        },
        None => {},
    }
    let mut motion = Motion::Keep;
    if f.action_frame >= f.action_total {
        match f.combo_kind {
            Some(kind) => {
                if f.combo_queued && f.combo_step < 2 {
                    motion = f.start_combo_stage(kind, f.combo_step + 1);
                } else {
                    f.finish_combo_stage();
                }
            },
            None => {
                f.finish_action();
            },
        }
    }
    (drift, launch, motion)
}

/// Acts on a neutral decision: the velocity change and whether the fighter
/// moves this tick.
fn act(f: &mut Fighter, controls: Controls, threatened: bool, choice: Choice) -> (r: (Motion, bool))
    requires
        old(f).wf(),
        !timed(old(f).state),
        choice == decide(*old(f), controls, threatened),
    ensures
        (*final(f), r.0, r.1) == acted(*old(f), controls, choice),
        final(f).wf(),
{
    match choice {
        Choice::SuperMove => {
            f.meter = 0;
            (f.start_action(State::Super), true)
        },
        Choice::SpecialMove(variant) => (f.start_action(State::Special(variant)), true),
        Choice::Throw => (f.start_action(State::Throw), true),
        Choice::ComboStage(kind) => {
            let next = f.next_combo_step(kind);
            (f.start_combo_stage(kind, next), false)
        },
        Choice::Normal(state) => (f.start_action(state), true),
        Choice::Jump(state) => {
            f.reset_combo();
            f.grounded = false;
            f.action_frame = 0;
            f.set_state(state);
            (Motion::Jump(controls.horizontal), true)
        },
        Choice::Guard(state) => {
            f.reset_combo();
            f.set_state(state);
            (Motion::Halt, true)
        },
        Choice::Crouch => {
            f.reset_combo();
            f.set_state(State::Crouch);
            (Motion::Halt, true)
        },
        Choice::Walk(state) => {
            if controls.horizontal != 0 {
                f.reset_combo();
            }
            f.set_state(state);
            (Motion::Walk(controls.horizontal), true)
        },
        Choice::AirDrift => {
            f.action_frame = f.action_frame.saturating_add(1);
            (Motion::Steer(controls.horizontal), true)
        },
    }
}

/// The banner a fighting tick of `f` puts up, if any.
pub open spec fn announcement(f: Fighter, c: Controls, threatened: bool) -> Option<Banner> {
    stepped_banner(f, c, threatened, None)
}

/// One fighting tick of fighter `index`: the report, and the banner it puts
/// up, if any.
fn step_fighter(f: &mut Fighter, index: usize, controls: Controls, threatened: bool) -> (r: (
    FighterStep,
    Option<Banner>,
))
    requires
        old(f).wf(),
    ensures
        (*final(f), r.0) == stepped(*old(f), index, controls, threatened),
        r.1 == announcement(*old(f), controls, threatened),
        final(f).wf(),
{
    f.animation_tick = f.animation_tick.wrapping_add(1);
    if f.state == State::KnockedOut || f.state == State::Victory {
        return (
            FighterStep {
                drift: false,
                launch: None,
                motion: Motion::Keep,
                cue: None,
                moves: false,
                advance: true,
            },
            None,
        );
    }
    if !f.state.is_attack() && f.combo_timer > 0 {
        f.combo_timer = f.combo_timer - 1;
        if f.combo_timer == 0 {
            f.reset_combo();
        }
    }
    if f.state == State::Hit {
        run_stun(f);
        (
            FighterStep {
                drift: false,
                launch: None,
                motion: Motion::Recoil,
                cue: None,
                moves: true,
                advance: !(f.state == State::Special(2) || f.state == State::Super),
            },
            None,
        )
    } else if f.state.is_attack() {
        let (drift, launch, motion) = run_attack(f, index, controls);
        (
            FighterStep {
                drift,
                launch,
                motion,
                cue: None,
                moves: true,
                advance: !(f.state == State::Special(2) || f.state == State::Super),
            },
            None,
        )
    } else {
        let choice = choose_action(f, controls, threatened);
        let character = f.character;
        let (motion, moves) = act(f, controls, threatened, choice);
        let (cue, announced) = match choice {
            Choice::SuperMove => (
                Some(Cue::SuperStarted),
                Some(
                    Banner {
                        character,
                        text: BannerText::Super,
                        frames: SUPER_BANNER_FRAMES,
                    },
                ),
            ),
            Choice::SpecialMove(variant) => (
                Some(Cue::SpecialStarted),
                Some(
                    Banner {
                        character,
                        text: BannerText::Special(variant),
                        frames: SPECIAL_BANNER_FRAMES,
                    },
                ),
            ),
            _ => (None, None),
        };
        (
            FighterStep {
                drift: false,
                launch: None,
                motion,
                cue,
                moves,
                advance: !(f.state == State::Special(2) || f.state == State::Super),
            },
            announced,
        )
    }
}

/// A strike that connected.
#[derive(Clone, Copy, Debug, PartialEq, Eq, Structural)]
pub struct StrikeReport {
    pub attacker: usize,
    pub defender: usize,
    /// The defender was guarding.
    pub blocked: bool,
    pub knocked_out: bool,
    /// The strike deals 20 damage or more: large sparks, a loud impact,
    /// and an unblocked defender is thrown upward.
    pub heavy: bool,
    /// The attacker kicked; the impact sounds like a kick.
    pub kick: bool,
    /// Speed the strike pushes an unguarded defender away with.
    pub knockback: u16,
    /// Height of the strike's hitbox centre above the feet.
    pub hit_y: u16,
}

/// A projectile that hit its target.
#[derive(Clone, Copy, Debug, PartialEq, Eq, Structural)]
pub struct ProjectileImpact {
    /// Index of the fighter that was hit.
    pub target: usize,
    /// The target was guarding.
    pub blocked: bool,
    pub knocked_out: bool,
    /// Speed the projectile pushes an unguarded target away with.
    pub knockback: u16,
}

/// Meter an attacker gains when its strike connects.
pub open spec fn strike_meter_gain(damage: i32) -> int {
    if damage >= 20 {
        20
    } else {
        13
    }
}

/// Meter a projectile's thrower gains when it hits.
pub const METER_ON_PROJECTILE_HIT: i32 = 15;

/// `meter` plus `gain`, capped at a full meter.
pub open spec fn meter_gained(meter: i32, gain: int) -> i32 {
    if meter + gain < MAX_METER {
        (meter + gain) as i32
    } else {
        MAX_METER
    }
}

/// Fighter `f` can strike on this tick: it is in an attack's active
/// window, the attack hits with its own hitbox, and that window has not
/// connected yet.
pub open spec fn can_strike(f: Fighter) -> bool {
    match attack_table(f.character, f.state) {
        Some(spec) => {
            &&& spec.active_start <= f.action_frame <= spec.active_end
            &&& !spec.projectile
            &&& f.hit_mask & (1u8 << 0u8) == 0
        },
        None => false,
    }
}

/// `new` is `old` after fighter `attacker`'s strike with `spec`, in hit
/// window `window`, connected with the other fighter, who was `rising` or
/// not, and `report` describes it.  The attacker marks the window as spent
/// and gains meter; a guarding defender takes chip damage only, anyone
/// else takes the full hit; the game freezes briefly; a knock-out decides
/// the round for the attacker.
pub open spec fn strike_landed(
    old: Game,
    new: Game,
    attacker: usize,
    spec: AttackSpec,
    window: u8,
    rising: bool,
    report: StrikeReport,
) -> bool {
    let defender = (1 - attacker) as usize;
    let a = old.fighters[attacker as int];
    let d = old.fighters[defender as int];
    &&& report.attacker == attacker
    &&& report.defender == defender
    &&& report.blocked == d.state.guarding()
    &&& report.heavy == (spec.damage >= 20)
    &&& report.kick == a.state.kicking()
    &&& report.knockback == spec.knockback
    &&& report.hit_y == spec.hit_y
    &&& new.fighters[attacker as int] == (Fighter {
        hit_mask: a.hit_mask | (1u8 << window),
        meter: meter_gained(a.meter, strike_meter_gain(spec.damage)),
        ..a
    })
    &&& new.fighters[defender as int] == (if report.blocked {
        blocked(d, spec.damage)
    } else {
        hit_taken(d, spec.damage, spec.stun, rising)
    })
    &&& report.knocked_out == (!report.blocked && d.health - spec.damage <= 0)
    &&& new.hitstop == (if report.blocked {
        BLOCK_HITSTOP
    } else {
        spec.hitstop
    })
    &&& new.phase == (if report.knocked_out {
        Phase::Knockout { winner: attacker, frames: KNOCKOUT_FRAMES }
    } else {
        old.phase
    })
    &&& new.picks == old.picks
    &&& new.locked == old.locked
    &&& new.wins == old.wins
    &&& new.round == old.round
    &&& new.banner == old.banner
    &&& new.paused == old.paused
}

/// What the select screen did on a tick.
#[derive(Clone, Copy, Debug)]
pub struct SelectReport {
    /// The player's cursor moved.
    pub moved: [bool; 2],
    /// The player confirmed a pick on this tick.
    pub locked: [bool; 2],
    /// Both players are locked in and the first round starts.
    pub started: bool,
}

/// What a game tick asks of the caller.
#[derive(Clone, Copy, Debug)]
pub enum TickOutcome {
    /// The game is paused: nothing happened.
    Paused,
    /// The rules did all there was to do.
    Continue,
    /// The select screen ran.  When the match starts, the caller puts the
    /// fighters on their marks and clears the arena.
    Selecting(SelectReport),
    /// A fighting tick is due: the caller moves the arena through it.
    Fight,
    /// A new round starts: the caller puts the fighters on their marks and
    /// clears the arena.
    NewRound,
    /// The finished match was left for character select: the caller
    /// clears the arena.
    BackToSelect,
}

/// The banner one tick later: it disappears after its last tick.
pub open spec fn counted_down(banner: Option<Banner>) -> Option<Banner> {
    match banner {
        Some(b) => if b.frames <= 1 {
            None
        } else {
            Some(Banner { frames: (b.frames - 1) as u16, ..b })
        },
        None => None,
    }
}

/// Player `i`'s pick after a select tick: a locked player's pick is final,
/// anyone else's cursor moves by the menu press.
pub open spec fn pick_after(g: Game, controls: [Controls; 2], i: int) -> Character {
    if g.locked[i] || controls[i].nav == 0 {
        g.picks[i]
    } else {
        cycled(g.picks[i], controls[i].nav as int)
    }
}

/// Player `i` is locked in after a select tick: punch confirms the pick.
pub open spec fn lock_after(g: Game, controls: [Controls; 2], i: int) -> bool {
    g.locked[i] || controls[i].punch
}

/// `new` is `old` after a tick of the select screen with `controls`, as
/// `report` says.  Once both players are locked in, the first round is
/// announced with fresh fighters and empty meters.
pub open spec fn select_ticked(old: Game, new: Game, controls: [Controls; 2], report: SelectReport)
    -> bool {
    &&& forall|i: int|
        0 <= i < 2 ==> #[trigger] report.moved[i] == (!old.locked[i] && controls[i].nav != 0)
    &&& forall|i: int|
        0 <= i < 2 ==> #[trigger] report.locked[i] == (!old.locked[i] && controls[i].punch)
    &&& forall|i: int| 0 <= i < 2 ==> #[trigger] new.picks[i] == pick_after(old, controls, i)
    &&& forall|i: int| 0 <= i < 2 ==> #[trigger] new.locked[i] == lock_after(old, controls, i)
    &&& report.started == (lock_after(old, controls, 0) && lock_after(old, controls, 1))
    &&& report.started ==> {
        &&& forall|i: int|
            0 <= i < 2 ==> #[trigger] new.fighters[i] == (Fighter {
                meter: 0,
                ..fresh(pick_after(old, controls, i), start_facing(i))
            })
        &&& new.hitstop == 0
        &&& new.banner == None::<Banner>
        &&& new.phase == Phase::Intro(FIRST_INTRO_FRAMES)
    }
    &&& !report.started ==> {
        &&& new.fighters == old.fighters
        &&& new.hitstop == old.hitstop
        &&& new.banner == old.banner
        &&& new.phase == old.phase
    }
    &&& new.wins == old.wins
    &&& new.round == old.round
    &&& new.paused == old.paused
}

/// `new` is `old` after a tick of the knock-out pose won by `winner` with
/// `frames` ticks left: the loser's animation runs; when the pose ends the
/// winner scores the round and celebrates, and reaching two wins ends the
/// match.
pub open spec fn knockout_ticked(old: Game, new: Game, winner: usize, frames: u16) -> bool {
    let loser = 1 - winner;
    &&& new.fighters[loser] == clock_ticked(old.fighters[loser])
    &&& new.banner == old.banner
    &&& new.picks == old.picks
    &&& new.locked == old.locked
    &&& new.round == old.round
    &&& new.hitstop == old.hitstop
    &&& new.paused == old.paused
    &&& new.wins[loser] == old.wins[loser]
    &&& if frames <= 1 {
        &&& new.wins[winner as int] == old.wins[winner as int] + 1
        &&& new.fighters[winner as int] == state_set(old.fighters[winner as int], State::Victory)
        &&& new.phase == if new.wins[winner as int] >= WINS_NEEDED {
            Phase::MatchOver { winner }
        } else {
            Phase::RoundResult { winner, frames: ROUND_RESULT_FRAMES }
        }
    } else {
        &&& new.wins[winner as int] == old.wins[winner as int]
        &&& new.fighters[winner as int] == old.fighters[winner as int]
        &&& new.phase == Phase::Knockout { winner, frames: (frames - 1) as u16 }
    }
}

/// `new` is `old` after a tick of `winner`'s celebration with `frames`
/// ticks left: when it ends the next round is announced, with both
/// fighters back on their marks and both meters kept.
pub open spec fn round_result_ticked(
    old: Game,
    new: Game,
    winner: usize,
    frames: u16,
    outcome: TickOutcome,
) -> bool {
    if frames <= 1 {
        &&& outcome == TickOutcome::NewRound
        &&& forall|i: int|
            0 <= i < 2 ==> #[trigger] new.fighters[i] == (Fighter {
                meter: old.fighters[i].meter,
                ..fresh(old.picks[i], start_facing(i))
            })
        &&& new.round == old.round + 1
        &&& new.phase == Phase::Intro(NEXT_INTRO_FRAMES)
        &&& new.hitstop == 0
        &&& new.banner == None::<Banner>
        &&& new.picks == old.picks
        &&& new.locked == old.locked
        &&& new.wins == old.wins
        &&& new.paused == old.paused
    } else {
        &&& outcome == TickOutcome::Continue
        &&& new.fighters[winner as int] == clock_ticked(old.fighters[winner as int])
        &&& new.fighters[1 - winner] == old.fighters[1 - winner]
        &&& new.phase == Phase::RoundResult { winner, frames: (frames - 1) as u16 }
        &&& new.banner == old.banner
        &&& new.picks == old.picks
        &&& new.locked == old.locked
        &&& new.wins == old.wins
        &&& new.round == old.round
        &&& new.hitstop == old.hitstop
        &&& new.paused == old.paused
    }
}

/// `new` is `old` after a tick of the result of a match won by `winner`:
/// the winner's animation runs, and Enter leaves for character select.
pub open spec fn match_over_ticked(
    old: Game,
    new: Game,
    winner: usize,
    enter_pressed: bool,
    outcome: TickOutcome,
) -> bool {
    &&& new.fighters[winner as int] == clock_ticked(old.fighters[winner as int])
    &&& new.fighters[1 - winner] == old.fighters[1 - winner]
    &&& new.picks == old.picks
    &&& if enter_pressed {
        &&& outcome == TickOutcome::BackToSelect
        &&& new.phase == Phase::Select
        &&& new.wins[0] == 0 && new.wins[1] == 0
        &&& new.round == 1
        &&& !new.locked[0] && !new.locked[1]
        &&& new.hitstop == 0
        &&& new.banner == None::<Banner>
        &&& !new.paused
    } else {
        &&& outcome == TickOutcome::Continue
        &&& new.phase == old.phase
        &&& new.wins == old.wins
        &&& new.round == old.round
        &&& new.locked == old.locked
        &&& new.hitstop == old.hitstop
        &&& new.banner == old.banner
        &&& new.paused == old.paused
    }
}

/// `new` is `old` after a projectile thrown by fighter `owner`, dealing
/// `damage`, from a super or not, hit the other fighter, who was `rising`
/// or not, and `impact` describes it.  A guarding target takes chip damage
/// only, anyone else the full hit; the thrower gains meter; the game
/// freezes briefly; a knock-out decides the round for the thrower.
pub open spec fn projectile_landed(
    old: Game,
    new: Game,
    owner: usize,
    damage: i32,
    super_move: bool,
    rising: bool,
    impact: ProjectileImpact,
) -> bool {
    let target = (1 - owner) as usize;
    let t = old.fighters[target as int];
    let o = old.fighters[owner as int];
    &&& impact.target == target
    &&& impact.blocked == t.state.guarding()
    &&& impact.knockback == (if super_move {
        520u16
    } else {
        340u16
    })
    &&& new.fighters[target as int] == (if impact.blocked {
        blocked(t, damage)
    } else {
        hit_taken(
            t,
            damage,
            if super_move {
                42
            } else {
                27
            },
            rising,
        )
    })
    &&& impact.knocked_out == (!impact.blocked && t.health - damage <= 0)
    &&& new.fighters[owner as int] == (Fighter {
        meter: meter_gained(o.meter, METER_ON_PROJECTILE_HIT as int),
        ..o
    })
    &&& new.hitstop == (if impact.blocked {
        BLOCK_HITSTOP
    } else if super_move {
        11u8
    } else {
        7u8
    })
    &&& new.phase == (if impact.knocked_out {
        Phase::Knockout { winner: owner, frames: KNOCKOUT_FRAMES }
    } else {
        old.phase
    })
}

/// A match: the two fighters, the select screen, and the round flow.
pub struct Game {
    pub fighters: [Fighter; 2],
    /// Characters chosen on the select screen.
    pub picks: [Character; 2],
    /// Players who have confirmed their pick.
    pub locked: [bool; 2],
    /// Rounds won in this match.
    pub wins: [u8; 2],
    /// The round being played, from 1.
    pub round: u8,
    pub phase: Phase,
    /// Ticks the fight stays frozen after a hit.
    pub hitstop: u8,
    pub banner: Option<Banner>,
    pub paused: bool,
}

/// The facing of fighter `index` at the start of a round: player one on
/// the left facing right, player two on the right facing left.
pub open spec fn start_facing(index: int) -> i8 {
    if index == 0 {
        1i8
    } else {
        -1i8
    }
}

/// The match is best of three: while a round is undecided, or just won by
/// `winner`, nobody has two wins and the round number counts the rounds
/// played; once a player has two wins the match is over.
pub open spec fn score_consistent(phase: Phase, wins: [u8; 2], round: u8) -> bool {
    match phase {
        Phase::Select | Phase::Intro(_) | Phase::Fight | Phase::Knockout { .. } => {
            &&& wins[0] <= 1
            &&& wins[1] <= 1
            &&& round == wins[0] + wins[1] + 1
        },
        Phase::RoundResult { winner, .. } => {
            &&& wins[0] <= 1
            &&& wins[1] <= 1
            &&& wins[winner as int] >= 1
            &&& round == wins[0] + wins[1]
        },
        Phase::MatchOver { winner } => {
            &&& wins[winner as int] == WINS_NEEDED
            &&& wins[1 - winner] <= 1
            &&& round == wins[0] + wins[1]
        },
    }
}

/// The winner named by a phase, if any, is a player.
pub open spec fn winner_valid(phase: Phase) -> bool {
    match phase {
        Phase::Knockout { winner, .. } => winner < 2,
        Phase::RoundResult { winner, .. } => winner < 2,
        Phase::MatchOver { winner } => winner < 2,
        _ => true,
    }
}

/// The round has started and not been decided yet, or was just decided by
/// a knock-out this tick: hits may land.
pub open spec fn fighting(phase: Phase) -> bool {
    phase == Phase::Fight || phase is Knockout
}

impl Game {
    /// Both fighters are well formed, the phase names a real winner, and
    /// the score follows the best-of-three rules.
    pub open spec fn wf(self) -> bool {
        &&& self.fighters[0].wf()
        &&& self.fighters[1].wf()
        &&& winner_valid(self.phase)
        &&& score_consistent(self.phase, self.wins, self.round)
    }

    /// A match on the select screen, Dee Jay against Rose.
    pub fn new() -> (game: Game)
        ensures
            game.fighters[0] == fresh(Character::DeeJay, 1i8),
            game.fighters[1] == fresh(Character::Rose, -1i8),
            game.picks[0] == Character::DeeJay,
            game.picks[1] == Character::Rose,
            !game.locked[0] && !game.locked[1],
            game.wins[0] == 0 && game.wins[1] == 0,
            game.round == 1,
            game.phase == Phase::Select,
            game.hitstop == 0,
            game.banner == None::<Banner>,
            !game.paused,
            game.wf(),
    {
        Game {
            fighters: [Fighter::new(Character::DeeJay, 1), Fighter::new(Character::Rose, -1)],
            picks: [Character::DeeJay, Character::Rose],
            locked: [false, false],
            wins: [0, 0],
            round: 1,
            phase: Phase::Select,
            hitstop: 0,
            banner: None,
            paused: false,
        }
    }

    /// Abandons the match and goes back to character select: scores,
    /// round, lock-ins, freeze, banner and pause are cleared; the picks
    /// stay on the cursor.
    pub fn return_to_character_select(&mut self)
        requires
            old(self).wf(),
        ensures
            final(self).fighters == old(self).fighters,
            final(self).picks == old(self).picks,
            !final(self).locked[0] && !final(self).locked[1],
            final(self).wins[0] == 0 && final(self).wins[1] == 0,
            final(self).round == 1,
            final(self).phase == Phase::Select,
            final(self).hitstop == 0,
            final(self).banner == None::<Banner>,
            !final(self).paused,
            final(self).wf(),
    {
        self.wins = [0, 0];
        self.round = 1;
        self.locked = [false, false];
        self.hitstop = 0;
        self.banner = None;
        self.paused = false;
        self.phase = Phase::Select;
    }

    /// The pause menu: Escape pauses a match and resumes it, Enter in the
    /// pause menu abandons the match.  The select screen is never paused.
    /// Returns whether play went back to character select.
    pub fn handle_global_input(&mut self, enter_pressed: bool, escape_pressed: bool) -> (abandoned:
        bool)
        requires
            old(self).wf(),
        ensures
            abandoned == (old(self).phase != Phase::Select && old(self).paused && enter_pressed),
            abandoned ==> (final(self).phase == Phase::Select && !final(self).paused
                && final(self).wins[0] == 0 && final(self).wins[1] == 0 && final(self).round == 1
                && !final(self).locked[0] && !final(self).locked[1] && final(self).hitstop == 0
                && final(self).banner == None::<Banner> && final(self).fighters
                == old(self).fighters && final(self).picks == old(self).picks),
            !abandoned ==> *final(self) == (Game {
                paused: if old(self).phase == Phase::Select {
                    false
                } else if old(self).paused {
                    !escape_pressed
                } else {
                    escape_pressed
                },
                ..*old(self)
            }),
            final(self).wf(),
    {
        if self.phase == Phase::Select {
            self.paused = false;
            return false;
        }
        if self.paused {
            if enter_pressed {
                self.return_to_character_select();
                return true;
            } else if escape_pressed {
                self.paused = false;
            }
        } else if escape_pressed {
            self.paused = true;
        }
        false
    }

    /// Puts both picked characters back on their marks for a new round,
    /// keeping their super meters or emptying them, and clears the freeze
    /// and the banner.
    pub fn reset_round(&mut self, preserve_meter: bool)
        requires
            old(self).fighters[0].wf(),
            old(self).fighters[1].wf(),
        ensures
            forall|i: int|
                0 <= i < 2 ==> #[trigger] final(self).fighters[i] == (Fighter {
                    meter: if preserve_meter {
                        old(self).fighters[i].meter
                    } else {
                        0
                    },
                    ..fresh(old(self).picks[i], start_facing(i))
                }),
            final(self).picks == old(self).picks,
            final(self).locked == old(self).locked,
            final(self).wins == old(self).wins,
            final(self).round == old(self).round,
            final(self).phase == old(self).phase,
            final(self).hitstop == 0,
            final(self).banner == None::<Banner>,
            final(self).paused == old(self).paused,
            final(self).fighters[0].wf(),
            final(self).fighters[1].wf(),
            old(self).wf() ==> final(self).wf(),
    {
        let meters: [i32; 2] = if preserve_meter {
            [self.fighters[0].meter, self.fighters[1].meter]
        } else {
            [0, 0]
        };
        let mut first = Fighter::new(self.picks[0], 1);
        let mut second = Fighter::new(self.picks[1], -1);
        first.meter = meters[0];
        second.meter = meters[1];
        self.fighters = [first, second];
        self.hitstop = 0;
        self.banner = None;
    }

    /// Turns the fighters toward each other: player one faces right when
    /// it stands left of player two or level with it.
    pub fn update_facing(&mut self, first_on_left: bool)
        ensures
            final(self).fighters[0] == (Fighter {
                facing: if first_on_left {
                    1i8
                } else {
                    -1i8
                },
                ..old(self).fighters[0]
            }),
            final(self).fighters[1] == (Fighter {
                facing: if first_on_left {
                    -1i8
                } else {
                    1i8
                },
                ..old(self).fighters[1]
            }),
            final(self).picks == old(self).picks,
            final(self).locked == old(self).locked,
            final(self).wins == old(self).wins,
            final(self).round == old(self).round,
            final(self).phase == old(self).phase,
            final(self).hitstop == old(self).hitstop,
            final(self).banner == old(self).banner,
            final(self).paused == old(self).paused,
            old(self).wf() ==> final(self).wf(),
    {
        if first_on_left {
            self.fighters[0].facing = 1;
            self.fighters[1].facing = -1;
        } else {
            self.fighters[0].facing = -1;
            self.fighters[1].facing = 1;
        }
    }
    /// Runs one fighting tick of fighter `index` with its controls.  The
    /// caller measures whether the opponent stands close enough to threaten
    /// with an attack (`opponent_near`) and whether one of the opponent's
    /// projectiles is close (`projectile_near`); a threatened fighter
    /// holding away guards.  Starting the super or a special announces it
    /// on the banner.
    pub fn update_fighter(
        &mut self,
        index: usize,
        controls: Controls,
        opponent_near: bool,
        projectile_near: bool,
    ) -> (step: FighterStep)
        requires
            old(self).wf(),
            index < 2,
        ensures
            ({
                let threatened = (old(self).fighters[1 - index].state.attacking()
                    && opponent_near) || projectile_near;
                &&& (final(self).fighters[index as int], step) == stepped(
                    old(self).fighters[index as int],
                    index,
                    controls,
                    threatened,
                )
                &&& final(self).banner == stepped_banner(
                    old(self).fighters[index as int],
                    controls,
                    threatened,
                    old(self).banner,
                )
            }),
            final(self).fighters[1 - index] == old(self).fighters[1 - index],
            final(self).picks == old(self).picks,
            final(self).locked == old(self).locked,
            final(self).wins == old(self).wins,
            final(self).round == old(self).round,
            final(self).phase == old(self).phase,
            final(self).hitstop == old(self).hitstop,
            final(self).paused == old(self).paused,
            final(self).wf(),
    {
        let threatened = (self.fighters[1 - index].state.is_attack() && opponent_near)
            || projectile_near;
        let mut f = self.fighters[index];
        let (step, announced) = step_fighter(&mut f, index, controls, threatened);
        match announced {
            Some(banner) => {
                self.banner = Some(banner);
            },
            None => {},
        }
        self.fighters[index] = f;
        step
    }

    /// Fighter `index` touches down on the floor.
    pub fn land(&mut self, index: usize)
        requires
            old(self).wf(),
            index < 2,
        ensures
            final(self).fighters[index as int] == landed(old(self).fighters[index as int]),
            final(self).fighters[1 - index] == old(self).fighters[1 - index],
            final(self).picks == old(self).picks,
            final(self).locked == old(self).locked,
            final(self).wins == old(self).wins,
            final(self).round == old(self).round,
            final(self).phase == old(self).phase,
            final(self).hitstop == old(self).hitstop,
            final(self).banner == old(self).banner,
            final(self).paused == old(self).paused,
            final(self).wf(),
    {
        let mut f = self.fighters[index];
        f.land();
        self.fighters[index] = f;
    }
    /// Fighter `attacker`'s strike with `spec`, in hit window `window`,
    /// connects with the other fighter, who is `rising` or not.
    fn land_hit(&mut self, attacker: usize, spec: AttackSpec, window: u8, rising: bool) -> (report:
        StrikeReport)
        requires
            old(self).wf(),
            fighting(old(self).phase),
            attacker < 2,
            window < 8,
            0 <= spec.damage,
        ensures
            strike_landed(*old(self), *final(self), attacker, spec, window, rising, report),
            final(self).wf(),
            fighting(final(self).phase),
    {
        let defender = 1 - attacker;
        let mut a = self.fighters[attacker];
        let mut d = self.fighters[defender];
        a.hit_mask = a.hit_mask | (1u8 << window);
        let gain: i32 = if spec.damage >= 20 {
            20
        } else {
            13
        };
        a.meter = if a.meter + gain < MAX_METER {
            a.meter + gain
        } else {
            MAX_METER
        };
        let blocked = d.state.is_guarding();
        let knocked_out = if blocked {
            d.block_hit(spec.damage);
            false
        } else {
            d.receive_hit(spec.damage, spec.stun, rising)
        };
        self.fighters[attacker] = a;
        self.fighters[defender] = d;
        self.hitstop = if blocked {
            BLOCK_HITSTOP
        } else {
            spec.hitstop
        };
        if knocked_out {
            self.phase = Phase::Knockout { winner: attacker, frames: KNOCKOUT_FRAMES };
        }
        StrikeReport {
            attacker,
            defender,
            blocked,
            knocked_out,
            heavy: spec.damage >= 20,
            kick: a.state.is_kick(),
            knockback: spec.knockback,
            hit_y: spec.hit_y,
        }
    }

    /// Checks both fighters' strikes, player one's first; the first that
    /// can strike and touches the other fighter connects, and no other
    /// strike is checked on this tick.  The caller measures whether each
    /// fighter's attack box overlaps the other's hurtbox (`contact`) and
    /// whether each fighter is moving upward (`rising`).
    pub fn resolve_strikes(&mut self, contact: [bool; 2], rising: [bool; 2]) -> (report: Option<
        StrikeReport,
    >)
        requires
            old(self).wf(),
            fighting(old(self).phase),
        ensures
            ({
                let first = can_strike(old(self).fighters[0]) && contact[0];
                let second = can_strike(old(self).fighters[1]) && contact[1];
                let attacker: usize = if first {
                    0
                } else {
                    1
                };
                let fighter = old(self).fighters[attacker as int];
                &&& report is None <==> !first && !second
                &&& report is None ==> *final(self) == *old(self)
                &&& report matches Some(r) ==> strike_landed(
                    *old(self),
                    *final(self),
                    attacker,
                    attack_table(fighter.character, fighter.state)->0,
                    0,
                    rising[1 - attacker],
                    r,
                )
            }),
            final(self).wf(),
            fighting(final(self).phase),
    {
        let mut attacker: usize = 0;
        while attacker < 2
            invariant
                attacker <= 2,
                *self == *old(self),
                self.wf(),
                fighting(self.phase),
                attacker >= 1 ==> !(can_strike(self.fighters[0]) && contact[0]),
                attacker >= 2 ==> !(can_strike(self.fighters[1]) && contact[1]),
            decreases 2 - attacker,
        {
            let fighter = self.fighters[attacker];
            match attack_spec(fighter.character, fighter.state) {
                Some(spec) => {
                    match strike_window(fighter.character, fighter.state, fighter.action_frame, spec) {
                        Some(window) => {
                            if !spec.projectile && fighter.hit_mask & (1u8 << window) == 0
                                && contact[attacker] {
                                proof {
                                    crate::moves::lemma_active_window_inside_move(
                                        fighter.character,
                                        fighter.state,
                                    );
                                }
                                let report = self.land_hit(
                                    attacker,
                                    spec,
                                    window,
                                    rising[1 - attacker],
                                );
                                return Some(report);
                            }
                        },
                        None => {},
                    }
                },
                None => {},
            }
            attacker = attacker + 1;
        }
        None
    }

    /// A projectile thrown by fighter `owner`, dealing `damage`, from a
    /// super or not, hits the other fighter, who is `rising` or not.  A
    /// guarding target takes chip damage only, anyone else the full hit
    /// with 42 ticks of stun from a super projectile and 27 otherwise; the
    /// thrower gains meter; the game freezes briefly; a knock-out decides
    /// the round for the thrower.
    pub fn projectile_hit(&mut self, owner: usize, damage: i32, super_move: bool, rising: bool) -> (impact:
        ProjectileImpact)
        requires
            old(self).wf(),
            fighting(old(self).phase),
            owner < 2,
            0 <= damage,
        ensures
            projectile_landed(*old(self), *final(self), owner, damage, super_move, rising, impact),
            final(self).picks == old(self).picks,
            final(self).locked == old(self).locked,
            final(self).wins == old(self).wins,
            final(self).round == old(self).round,
            final(self).banner == old(self).banner,
            final(self).paused == old(self).paused,
            final(self).wf(),
            fighting(final(self).phase),
    {
        let target = 1 - owner;
        let mut t = self.fighters[target];
        let mut o = self.fighters[owner];
        let blocked = t.state.is_guarding();
        let knocked_out = if blocked {
            t.block_hit(damage);
            false
        } else {
            t.receive_hit(
                damage,
                if super_move {
                    42
                } else {
                    27
                },
                rising,
            )
        };
        o.meter = if o.meter + METER_ON_PROJECTILE_HIT < MAX_METER {
            o.meter + METER_ON_PROJECTILE_HIT
        } else {
            MAX_METER
        };
        self.fighters[target] = t;
        self.fighters[owner] = o;
        self.hitstop = if blocked {
            BLOCK_HITSTOP
        } else if super_move {
            11
        } else {
            7
        };
        if knocked_out {
            self.phase = Phase::Knockout { winner: owner, frames: KNOCKOUT_FRAMES };
        }
        ProjectileImpact {
            target,
            blocked,
            knocked_out,
            knockback: if super_move {
                520
            } else {
                340
            },
        }
    }
    /// One player's select-screen tick: the cursor moves by the menu press
    /// and punch confirms, unless the player is already locked in.
    fn select_player(&mut self, player: usize, controls: Controls) -> (r: (bool, bool))
        requires
            player < 2,
        ensures
            r.0 == (!old(self).locked[player as int] && controls.nav != 0),
            r.1 == (!old(self).locked[player as int] && controls.punch),
            final(self).picks[player as int] == (if old(self).locked[player as int]
                || controls.nav == 0 {
                old(self).picks[player as int]
            } else {
                cycled(old(self).picks[player as int], controls.nav as int)
            }),
            final(self).locked[player as int] == (old(self).locked[player as int]
                || controls.punch),
            final(self).picks[1 - player] == old(self).picks[1 - player],
            final(self).locked[1 - player] == old(self).locked[1 - player],
            final(self).fighters == old(self).fighters,
            final(self).wins == old(self).wins,
            final(self).round == old(self).round,
            final(self).phase == old(self).phase,
            final(self).hitstop == old(self).hitstop,
            final(self).banner == old(self).banner,
            final(self).paused == old(self).paused,
    {
        if self.locked[player] {
            return (false, false);
        }
        let mut moved = false;
        if controls.nav != 0 {
            self.picks[player] = cycle_pick(self.picks[player], controls.nav);
            moved = true;
        }
        let mut locked = false;
        if controls.punch {
            self.locked[player] = true;
            locked = true;
        }
        (moved, locked)
    }

    /// One tick of the select screen.  Both players move their cursors and
    /// lock in; when both are locked in, the first round is announced with
    /// fresh fighters and empty meters.
    pub fn tick_select(&mut self, controls: [Controls; 2]) -> (report: SelectReport)
        requires
            old(self).wf(),
            old(self).phase == Phase::Select,
        ensures
            select_ticked(*old(self), *final(self), controls, report),
            final(self).wf(),
    {
        let (moved0, locked0) = self.select_player(0, controls[0]);
        let (moved1, locked1) = self.select_player(1, controls[1]);
        let started = self.locked[0] && self.locked[1];
        if started {
            self.reset_round(false);
            self.phase = Phase::Intro(FIRST_INTRO_FRAMES);
        }
        let report = SelectReport {
            moved: [moved0, moved1],
            locked: [locked0, locked1],
            started,
        };
        assert(report.moved[0] == moved0 && report.moved[1] == moved1);
        assert(report.locked[0] == locked0 && report.locked[1] == locked1);
        report
    }

    /// One tick of the knock-out pose: the loser's animation runs; when the
    /// pose ends the winner scores the round and celebrates, and the match
    /// is over at two wins.
    fn tick_knockout(&mut self, winner: usize, frames: u16)
        requires
            old(self).wf(),
            old(self).phase == (Phase::Knockout { winner, frames }),
        ensures
            knockout_ticked(*old(self), *final(self), winner, frames),
            final(self).wf(),
    {
        let loser = 1 - winner;
        self.fighters[loser].animation_tick = self.fighters[loser].animation_tick.wrapping_add(1);
        if frames <= 1 {
            self.wins[winner] = self.wins[winner] + 1;
            let mut w = self.fighters[winner];
            w.set_state(State::Victory);
            self.fighters[winner] = w;
            if self.wins[winner] >= WINS_NEEDED {
                self.phase = Phase::MatchOver { winner };
            } else {
                self.phase = Phase::RoundResult { winner, frames: ROUND_RESULT_FRAMES };
            }
        } else {
            self.phase = Phase::Knockout { winner, frames: frames - 1 };
        }
    }

    /// One tick of the round winner's celebration; when it ends, the next
    /// round is announced with both meters kept.
    fn tick_round_result(&mut self, winner: usize, frames: u16) -> (outcome: TickOutcome)
        requires
            old(self).wf(),
            old(self).phase == (Phase::RoundResult { winner, frames }),
        ensures
            round_result_ticked(*old(self), *final(self), winner, frames, outcome),
            final(self).wf(),
    {
        self.fighters[winner].animation_tick = self.fighters[winner].animation_tick.wrapping_add(1);
        if frames <= 1 {
            self.round = self.round + 1;
            self.reset_round(true);
            self.phase = Phase::Intro(NEXT_INTRO_FRAMES);
            TickOutcome::NewRound
        } else {
            self.phase = Phase::RoundResult { winner, frames: frames - 1 };
            TickOutcome::Continue
        }
    }

    /// One tick of the match result: the winner's animation runs, and Enter
    /// leaves for character select.
    fn tick_match_over(&mut self, winner: usize, enter_pressed: bool) -> (outcome: TickOutcome)
        requires
            old(self).wf(),
            old(self).phase == (Phase::MatchOver { winner }),
        ensures
            match_over_ticked(*old(self), *final(self), winner, enter_pressed, outcome),
            final(self).wf(),
    {
        self.fighters[winner].animation_tick = self.fighters[winner].animation_tick.wrapping_add(1);
        if enter_pressed {
            self.return_to_character_select();
            TickOutcome::BackToSelect
        } else {
            TickOutcome::Continue
        }
    }

    /// One fixed-rate game tick.  Nothing happens while paused.  Otherwise
    /// the banner counts down and the phase runs: the select screen, the
    /// round announcement, a fighting tick (or one tick of hit freeze), the
    /// knock-out pose that then scores the round, the winner's celebration
    /// that then starts the next round with both meters kept, and the
    /// match result, which Enter leaves for character select.
    pub fn tick(&mut self, controls: [Controls; 2], enter_pressed: bool) -> (outcome: TickOutcome)
        requires
            old(self).wf(),
        ensures
            final(self).wf(),
            old(self).paused ==> *final(self) == *old(self) && outcome == TickOutcome::Paused,
            !old(self).paused ==> ({
                let g = Game { banner: counted_down(old(self).banner), ..*old(self) };
                match old(self).phase {
                    Phase::Select => outcome matches TickOutcome::Selecting(report)
                        && select_ticked(g, *final(self), controls, report),
                    Phase::Intro(frames) => outcome == TickOutcome::Continue && *final(self) == (Game {
                        phase: if frames <= 1 {
                            Phase::Fight
                        } else {
                            Phase::Intro((frames - 1) as u16)
                        },
                        ..g
                    }),
                    Phase::Fight => if old(self).hitstop > 0 {
                        outcome == TickOutcome::Continue && *final(self) == (Game {
                            hitstop: (old(self).hitstop - 1) as u8,
                            ..g
                        })
                    } else {
                        outcome == TickOutcome::Fight && *final(self) == g
                    },
                    Phase::Knockout { winner, frames } => outcome == TickOutcome::Continue
                        && knockout_ticked(g, *final(self), winner, frames),
                    Phase::RoundResult { winner, frames } => round_result_ticked(
                        g,
                        *final(self),
                        winner,
                        frames,
                        outcome,
                    ),
                    Phase::MatchOver { winner } => match_over_ticked(
                        g,
                        *final(self),
                        winner,
                        enter_pressed,
                        outcome,
                    ),
                }
            }),
    {
        if self.paused {
            return TickOutcome::Paused;
        }
        match self.banner {
            Some(b) => {
                self.banner = if b.frames <= 1 {
                    None
                } else {
                    Some(Banner { frames: b.frames - 1, ..b })
                };
            },
            None => {},
        }
        match self.phase {
            Phase::Select => TickOutcome::Selecting(self.tick_select(controls)),
            Phase::Intro(frames) => {
                self.phase = if frames <= 1 {
                    Phase::Fight
                } else {
                    Phase::Intro(frames - 1)
                };
                TickOutcome::Continue
            },
            Phase::Fight => {
                if self.hitstop > 0 {
                    self.hitstop = self.hitstop - 1;
                    TickOutcome::Continue
                } else {
                    TickOutcome::Fight
                }
            },
            Phase::Knockout { winner, frames } => {
                self.tick_knockout(winner, frames);
                TickOutcome::Continue
            },
            Phase::RoundResult { winner, frames } => self.tick_round_result(winner, frames),
            Phase::MatchOver { winner } => self.tick_match_over(winner, enter_pressed),
        }
    }
}

} // verus!
