//! The move list: every state a fighter can be in, which of them are
//! attacks, the standing combo chains, and the frame data of each attack.

use vstd::prelude::*;
use crate::roster::Character;

verus! {

/// What a fighter is doing.  `Special(v)` is special move `v`: variants 0,
/// 1 and 2 are each character's three specials.  A higher variant takes
/// the third special's name, animation, length and damage, but neither its
/// dash nor its longer reach and active window.
#[derive(Clone, Copy, Debug, PartialEq, Eq, Structural)]
pub enum State {
    Idle,
    Walk,
    WalkBackward,
    Crouch,
    Jump,
    JumpForward,
    JumpBackward,
    Block,
    CrouchBlock,
    Punch,
    PunchMedium,
    PunchHeavy,
    ForwardPunch,
    BackPunch,
    Kick,
    KickMedium,
    KickHeavy,
    ForwardKick,
    BackKick,
    CrouchPunch,
    CrouchForwardPunch,
    CrouchBackPunch,
    CrouchKick,
    CrouchForwardKick,
    CrouchBackKick,
    AirPunch,
    AirForwardPunch,
    AirBackPunch,
    AirKick,
    AirForwardKick,
    AirBackKick,
    Throw,
    Special(u8),
    Super,
    Hit,
    KnockedOut,
    Victory,
}

/// The two button families that chain into standing combos.
#[derive(Clone, Copy, Debug, PartialEq, Eq, Structural)]
pub enum ComboKind {
    Punch,
    Kick,
}

impl State {
    /// The state is an attack: a normal, a throw, a special or the super.
    pub open spec fn attacking(self) -> bool {
        match self {
            State::Punch | State::PunchMedium | State::PunchHeavy | State::ForwardPunch
            | State::BackPunch | State::Kick | State::KickMedium | State::KickHeavy
            | State::ForwardKick | State::BackKick | State::CrouchPunch
            | State::CrouchForwardPunch | State::CrouchBackPunch | State::CrouchKick
            | State::CrouchForwardKick | State::CrouchBackKick | State::AirPunch
            | State::AirForwardPunch | State::AirBackPunch | State::AirKick
            | State::AirForwardKick | State::AirBackKick | State::Throw | State::Special(_)
            | State::Super => true,
            _ => false,
        }
    }

    /// The state only exists in the air: the jumps and the air normals.
    pub open spec fn in_air(self) -> bool {
        match self {
            State::Jump | State::JumpForward | State::JumpBackward | State::AirPunch
            | State::AirForwardPunch | State::AirBackPunch | State::AirKick
            | State::AirForwardKick | State::AirBackKick => true,
            _ => false,
        }
    }

    /// The state is a kicking normal (its impact sounds like a kick).
    pub open spec fn kicking(self) -> bool {
        match self {
            State::Kick | State::KickMedium | State::KickHeavy | State::ForwardKick
            | State::BackKick | State::CrouchKick | State::CrouchForwardKick
            | State::CrouchBackKick | State::AirKick | State::AirForwardKick
            | State::AirBackKick => true,
            _ => false,
        }
    }

    /// The state is one of the crouching poses.
    pub open spec fn crouching(self) -> bool {
        match self {
            State::Crouch | State::CrouchBlock | State::CrouchPunch
            | State::CrouchForwardPunch | State::CrouchBackPunch | State::CrouchKick
            | State::CrouchForwardKick | State::CrouchBackKick => true,
            _ => false,
        }
    }

    /// The state is one of the two guards.
    pub open spec fn guarding(self) -> bool {
        self == State::Block || self == State::CrouchBlock
    }

    /// The text shown over a fighter in debug builds.
    pub open spec fn caption(self) -> Seq<char> {
        match self {
            State::Idle => "IDLE"@,
            State::Walk => "WALK FORWARD"@,
            State::WalkBackward => "WALK BACKWARD"@,
            State::Crouch => "CROUCH"@,
            State::Jump => "NEUTRAL JUMP"@,
            State::JumpForward => "FORWARD JUMP"@,
            State::JumpBackward => "BACK JUMP"@,
            State::Block => "BLOCK"@,
            State::CrouchBlock => "CROUCH BLOCK"@,
            State::Punch => "PUNCH"@,
            State::PunchMedium => "PUNCH 2"@,
            State::PunchHeavy => "PUNCH 3"@,
            State::ForwardPunch => "FORWARD PUNCH"@,
            State::BackPunch => "HEAVY PUNCH"@,
            State::Kick => "KICK"@,
            State::KickMedium => "KICK 2"@,
            State::KickHeavy => "KICK 3"@,
            State::ForwardKick => "FORWARD KICK"@,
            State::BackKick => "HEAVY KICK"@,
            State::CrouchPunch => "CROUCH PUNCH"@,
            State::CrouchForwardPunch => "CROUCH FORWARD PUNCH"@,
            State::CrouchBackPunch => "CROUCH HEAVY PUNCH"@,
            State::CrouchKick => "CROUCH KICK"@,
            State::CrouchForwardKick => "CROUCH FORWARD KICK"@,
            State::CrouchBackKick => "CROUCH HEAVY KICK"@,
            State::AirPunch => "AIR PUNCH"@,
            State::AirForwardPunch => "AIR FORWARD PUNCH"@,
            State::AirBackPunch => "AIR HEAVY PUNCH"@,
            State::AirKick => "AIR KICK"@,
            State::AirForwardKick => "AIR FORWARD KICK"@,
            State::AirBackKick => "AIR HEAVY KICK"@,
            State::Throw => "THROW"@,
            State::Special(_) => "SPECIAL"@,
            State::Super => "SUPER"@,
            State::Hit => "HIT"@,
            State::KnockedOut => "KNOCKED OUT"@,
            State::Victory => "VICTORY"@,
        }
    }

    /// Whether the state is an attack.
    pub fn is_attack(self) -> (r: bool)
        ensures
            r == self.attacking(),
    {
        match self {
            State::Punch | State::PunchMedium | State::PunchHeavy | State::ForwardPunch
            | State::BackPunch | State::Kick | State::KickMedium | State::KickHeavy
            | State::ForwardKick | State::BackKick | State::CrouchPunch
            | State::CrouchForwardPunch | State::CrouchBackPunch | State::CrouchKick
            | State::CrouchForwardKick | State::CrouchBackKick | State::AirPunch
            | State::AirForwardPunch | State::AirBackPunch | State::AirKick
            | State::AirForwardKick | State::AirBackKick | State::Throw | State::Special(_)
            | State::Super => true,
            _ => false,
        }
    }

    /// Whether the state only exists in the air.
    pub fn is_airborne(self) -> (r: bool)
        ensures
            r == self.in_air(),
    {
        match self {
            State::Jump | State::JumpForward | State::JumpBackward | State::AirPunch
            | State::AirForwardPunch | State::AirBackPunch | State::AirKick
            | State::AirForwardKick | State::AirBackKick => true,
            _ => false,
        }
    }

    /// Whether the state is a kicking normal.
    pub fn is_kick(self) -> (r: bool)
        ensures
            r == self.kicking(),
    {
        match self {
            State::Kick | State::KickMedium | State::KickHeavy | State::ForwardKick
            | State::BackKick | State::CrouchKick | State::CrouchForwardKick
            | State::CrouchBackKick | State::AirKick | State::AirForwardKick
            | State::AirBackKick => true,
            _ => false,
        }
    }

    /// Whether the state is one of the crouching poses.
    pub fn is_crouching(self) -> (r: bool)
        ensures
            r == self.crouching(),
    {
        match self {
            State::Crouch | State::CrouchBlock | State::CrouchPunch
            | State::CrouchForwardPunch | State::CrouchBackPunch | State::CrouchKick
            | State::CrouchForwardKick | State::CrouchBackKick => true,
            _ => false,
        }
    }

    /// Whether the state is one of the two guards.
    pub fn is_guarding(self) -> (r: bool)
        ensures
            r == self.guarding(),
    {
        match self {
            State::Block | State::CrouchBlock => true,
            _ => false,
        }
    }

    /// The text shown over a fighter in debug builds.
    pub fn label(self) -> (s: &'static str)
        ensures
            s@ == self.caption(),
    {
        match self {
            State::Idle => "IDLE",
            State::Walk => "WALK FORWARD",
            State::WalkBackward => "WALK BACKWARD",
            State::Crouch => "CROUCH",
            State::Jump => "NEUTRAL JUMP",
            State::JumpForward => "FORWARD JUMP",
            State::JumpBackward => "BACK JUMP",
            State::Block => "BLOCK",
            State::CrouchBlock => "CROUCH BLOCK",
            State::Punch => "PUNCH",
            State::PunchMedium => "PUNCH 2",
            State::PunchHeavy => "PUNCH 3",
            State::ForwardPunch => "FORWARD PUNCH",
            State::BackPunch => "HEAVY PUNCH",
            State::Kick => "KICK",
            State::KickMedium => "KICK 2",
            State::KickHeavy => "KICK 3",
            State::ForwardKick => "FORWARD KICK",
            State::BackKick => "HEAVY KICK",
            State::CrouchPunch => "CROUCH PUNCH",
            State::CrouchForwardPunch => "CROUCH FORWARD PUNCH",
            State::CrouchBackPunch => "CROUCH HEAVY PUNCH",
            State::CrouchKick => "CROUCH KICK",
            State::CrouchForwardKick => "CROUCH FORWARD KICK",
            State::CrouchBackKick => "CROUCH HEAVY KICK",
            State::AirPunch => "AIR PUNCH",
            State::AirForwardPunch => "AIR FORWARD PUNCH",
            State::AirBackPunch => "AIR HEAVY PUNCH",
            State::AirKick => "AIR KICK",
            State::AirForwardKick => "AIR FORWARD KICK",
            State::AirBackKick => "AIR HEAVY KICK",
            State::Throw => "THROW",
            State::Special(_) => "SPECIAL",
            State::Super => "SUPER",
            State::Hit => "HIT",
            State::KnockedOut => "KNOCKED OUT",
            State::Victory => "VICTORY",
        }
    }
}

/// The attack performed at stage `step` of a standing combo: light, medium,
/// and heavy from stage 2 on.
pub open spec fn combo_stage_state(kind: ComboKind, step: u8) -> State {
    match kind {
        ComboKind::Punch => if step == 0 {
            State::Punch
        } else if step == 1 {
            State::PunchMedium
        } else {
            State::PunchHeavy
        },
        ComboKind::Kick => if step == 0 {
            State::Kick
        } else if step == 1 {
            State::KickMedium
        } else {
            State::KickHeavy
        },
    }
}

/// The attack performed at stage `step` of a standing combo.
pub fn combo_state(kind: ComboKind, step: u8) -> (state: State)
    ensures
        state == combo_stage_state(kind, step),
{
    match kind {
        ComboKind::Punch => if step == 0 {
            State::Punch
        } else if step == 1 {
            State::PunchMedium
        } else {
            State::PunchHeavy
        },
        ComboKind::Kick => if step == 0 {
            State::Kick
        } else if step == 1 {
            State::KickMedium
        } else {
            State::KickHeavy
        },
    }
}

/// Every combo stage is a separate grounded attack of its own family: the
/// three stages of a chain are three different states, punches never sound
/// like kicks and kicks always do, and chains never reach past stage 2.
pub proof fn lemma_combo_stages_are_separate_attacks(kind: ComboKind, a: u8, b: u8)
    ensures
        combo_stage_state(kind, a).attacking(),
        !combo_stage_state(kind, a).in_air(),
        !combo_stage_state(kind, a).crouching(),
        combo_stage_state(kind, a).kicking() <==> kind == ComboKind::Kick,
        a <= 2 && b <= 2 && a != b ==> combo_stage_state(kind, a) != combo_stage_state(kind, b),
        a >= 2 ==> combo_stage_state(kind, a) == combo_stage_state(kind, 2),
        combo_stage_state(ComboKind::Punch, a) != combo_stage_state(ComboKind::Kick, b),
{
}

/// Frame data of one attack.  Lengths are in ticks of the fixed 60 Hz
/// step; distances are in pixels, measured from the attacker's feet.
#[derive(Clone, Copy, Debug, PartialEq, Eq, Structural)]
pub struct AttackSpec {
    /// Length of the whole move.
    pub total: u16,
    /// First tick on which the move can hit.
    pub active_start: u16,
    /// Last tick on which the move can hit.
    pub active_end: u16,
    pub damage: i32,
    /// Hit stun given to a defender that does not block.
    pub stun: u16,
    /// Horizontal distance from the attacker to the centre of the hitbox.
    pub range: u16,
    /// Height of the centre of the hitbox above the attacker's feet.
    pub hit_y: u16,
    pub hit_w: u16,
    pub hit_h: u16,
    /// Speed given to a defender that does not block.
    pub knockback: u16,
    /// The move hits with a projectile instead of its own hitbox.
    pub projectile: bool,
    /// Ticks the game freezes for when the move connects unblocked.
    pub hitstop: u8,
}

/// One row of the frame data table.
pub open spec fn frame_row(
    total: u16,
    active_start: u16,
    active_end: u16,
    damage: i32,
    stun: u16,
    range: u16,
    hit_y: u16,
    hit_w: u16,
    hit_h: u16,
    knockback: u16,
    projectile: bool,
    hitstop: u8,
) -> AttackSpec {
    AttackSpec {
        total,
        active_start,
        active_end,
        damage,
        stun,
        range,
        hit_y,
        hit_w,
        hit_h,
        knockback,
        projectile,
        hitstop,
    }
}

/// The frame data table: which states are attacks, and the data of each.
/// Only the specials and the super differ between characters, and only in
/// whether they throw a projectile.
pub open spec fn attack_table(character: Character, state: State) -> Option<AttackSpec> {
    match state {
        State::Punch => Some(frame_row(20, 6, 10, 7, 16, 67, 112, 48, 38, 190, false, 4)),
        State::PunchMedium => Some(frame_row(25, 8, 13, 9, 20, 79, 108, 56, 42, 235, false, 5)),
        State::PunchHeavy => Some(frame_row(33, 11, 18, 13, 27, 95, 111, 68, 50, 345, false, 8)),
        State::Kick => Some(frame_row(27, 9, 15, 11, 22, 88, 93, 60, 46, 285, false, 6)),
        State::KickMedium => Some(frame_row(32, 10, 17, 12, 25, 101, 96, 68, 50, 315, false, 7)),
        State::KickHeavy => Some(frame_row(41, 14, 23, 17, 31, 119, 102, 82, 58, 410, false, 9)),
        State::ForwardPunch => Some(frame_row(27, 8, 14, 10, 21, 86, 105, 60, 44, 265, false, 6)),
        State::BackPunch => Some(frame_row(32, 10, 17, 13, 25, 94, 108, 66, 48, 320, false, 8)),
        State::ForwardKick => Some(frame_row(34, 11, 19, 14, 27, 108, 96, 72, 52, 345, false, 8)),
        State::BackKick => Some(frame_row(39, 13, 22, 17, 30, 116, 101, 78, 55, 390, false, 9)),
        State::CrouchPunch | State::CrouchForwardPunch => Some(
            frame_row(22, 6, 11, 6, 15, 63, 54, 48, 34, 175, false, 4),
        ),
        State::CrouchBackPunch => Some(frame_row(29, 9, 15, 11, 23, 79, 61, 58, 39, 270, false, 7)),
        State::CrouchKick | State::CrouchForwardKick => Some(
            frame_row(31, 11, 16, 10, 28, 90, 31, 70, 28, 250, false, 6),
        ),
        State::CrouchBackKick => Some(frame_row(38, 13, 21, 15, 32, 108, 27, 82, 28, 330, false, 8)),
        State::AirKick | State::AirForwardKick => Some(
            frame_row(24, 5, 15, 10, 21, 78, 98, 62, 52, 245, false, 5),
        ),
        State::AirBackKick => Some(frame_row(30, 7, 18, 14, 25, 91, 98, 70, 57, 305, false, 7)),
        State::AirPunch | State::AirForwardPunch => Some(
            frame_row(20, 4, 12, 8, 18, 70, 92, 55, 48, 215, false, 5),
        ),
        State::AirBackPunch => Some(frame_row(26, 6, 15, 11, 22, 80, 96, 62, 52, 270, false, 6)),
        State::Throw => Some(frame_row(36, 7, 12, 16, 32, 50, 80, 45, 95, 390, false, 8)),
        State::Special(variant) => Some(
            frame_row(
                if variant == 0 { 37 } else if variant == 1 { 34 } else { 42 },
                9,
                if variant == 2 { 25 } else { 18 },
                if variant == 0 { 13 } else if variant == 1 { 14 } else { 15 },
                28,
                if variant == 2 { 112 } else { 80 },
                if variant == 1 { 133 } else { 82 },
                if variant == 2 { 84 } else { 62 },
                if variant == 1 { 90 } else { 54 },
                360,
                variant == 0 && (character == Character::DeeJay || character == Character::Rose),
                7,
            ),
        ),
        State::Super => Some(
            frame_row(66, 12, 45, 26, 43, 145, 94, 135, 110, 525, character == Character::Rose, 11),
        ),
        _ => None,
    }
}

impl AttackSpec {
    /// One row of the frame data table.
    pub fn row(
        total: u16,
        active_start: u16,
        active_end: u16,
        damage: i32,
        stun: u16,
        range: u16,
        hit_y: u16,
        hit_w: u16,
        hit_h: u16,
        knockback: u16,
        projectile: bool,
        hitstop: u8,
    ) -> (spec: AttackSpec)
        ensures
            spec == frame_row(
                total,
                active_start,
                active_end,
                damage,
                stun,
                range,
                hit_y,
                hit_w,
                hit_h,
                knockback,
                projectile,
                hitstop,
            ),
    {
        AttackSpec {
            total,
            active_start,
            active_end,
            damage,
            stun,
            range,
            hit_y,
            hit_w,
            hit_h,
            knockback,
            projectile,
            hitstop,
        }
    }
}

/// The frame data of `state` for `character`, or `None` when the state is
/// not an attack.
pub fn attack_spec(character: Character, state: State) -> (spec: Option<AttackSpec>)
    ensures
        spec == attack_table(character, state),
{
    match state {
        State::Punch => Some(AttackSpec::row(20, 6, 10, 7, 16, 67, 112, 48, 38, 190, false, 4)),
        State::PunchMedium => Some(
            AttackSpec::row(25, 8, 13, 9, 20, 79, 108, 56, 42, 235, false, 5),
        ),
        State::PunchHeavy => Some(
            AttackSpec::row(33, 11, 18, 13, 27, 95, 111, 68, 50, 345, false, 8),
        ),
        State::Kick => Some(AttackSpec::row(27, 9, 15, 11, 22, 88, 93, 60, 46, 285, false, 6)),
        State::KickMedium => Some(
            AttackSpec::row(32, 10, 17, 12, 25, 101, 96, 68, 50, 315, false, 7),
        ),
        State::KickHeavy => Some(
            AttackSpec::row(41, 14, 23, 17, 31, 119, 102, 82, 58, 410, false, 9),
        ),
        State::ForwardPunch => Some(
            AttackSpec::row(27, 8, 14, 10, 21, 86, 105, 60, 44, 265, false, 6),
        ),
        State::BackPunch => Some(
            AttackSpec::row(32, 10, 17, 13, 25, 94, 108, 66, 48, 320, false, 8),
        ),
        State::ForwardKick => Some(
            AttackSpec::row(34, 11, 19, 14, 27, 108, 96, 72, 52, 345, false, 8),
        ),
        State::BackKick => Some(
            AttackSpec::row(39, 13, 22, 17, 30, 116, 101, 78, 55, 390, false, 9),
        ),
        State::CrouchPunch | State::CrouchForwardPunch => Some(
            AttackSpec::row(22, 6, 11, 6, 15, 63, 54, 48, 34, 175, false, 4),
        ),
        State::CrouchBackPunch => Some(
            AttackSpec::row(29, 9, 15, 11, 23, 79, 61, 58, 39, 270, false, 7),
        ),
        State::CrouchKick | State::CrouchForwardKick => Some(
            AttackSpec::row(31, 11, 16, 10, 28, 90, 31, 70, 28, 250, false, 6),
        ),
        State::CrouchBackKick => Some(
            AttackSpec::row(38, 13, 21, 15, 32, 108, 27, 82, 28, 330, false, 8),
        ),
        State::AirKick | State::AirForwardKick => Some(
            AttackSpec::row(24, 5, 15, 10, 21, 78, 98, 62, 52, 245, false, 5),
        ),
        State::AirBackKick => Some(
            AttackSpec::row(30, 7, 18, 14, 25, 91, 98, 70, 57, 305, false, 7),
        ),
        State::AirPunch | State::AirForwardPunch => Some(
            AttackSpec::row(20, 4, 12, 8, 18, 70, 92, 55, 48, 215, false, 5),
        ),
        State::AirBackPunch => Some(
            AttackSpec::row(26, 6, 15, 11, 22, 80, 96, 62, 52, 270, false, 6),
        ),
        State::Throw => Some(AttackSpec::row(36, 7, 12, 16, 32, 50, 80, 45, 95, 390, false, 8)),
        State::Special(variant) => {
            let projectile = variant == 0 && (character == Character::DeeJay || character
                == Character::Rose);
            Some(
                AttackSpec::row(
                    if variant == 0 {
                        37
                    } else if variant == 1 {
                        34
                    } else {
                        42
                    },
                    9,
                    if variant == 2 {
                        25
                    } else {
                        18
                    },
                    if variant == 0 {
                        13
                    } else if variant == 1 {
                        14
                    } else {
                        15
                    },
                    28,
                    if variant == 2 {
                        112
                    } else {
                        80
                    },
                    if variant == 1 {
                        133
                    } else {
                        82
                    },
                    if variant == 2 {
                        84
                    } else {
                        62
                    },
                    if variant == 1 {
                        90
                    } else {
                        54
                    },
                    360,
                    projectile,
                    7,
                ),
            )
        },
        State::Super => Some(
            AttackSpec::row(
                66,
                12,
                45,
                26,
                43,
                145,
                94,
                135,
                110,
                525,
                character == Character::Rose,
                11,
            ),
        ),
        _ => None,
    }
}

/// The hit window an attack is in on tick `frame`: window 0 while the move
/// is active, none before or after.
pub fn strike_window(character: Character, state: State, frame: u16, spec: AttackSpec) -> (window:
    Option<u8>)
    ensures
        window == (if spec.active_start <= frame <= spec.active_end {
            Some(0u8)
        } else {
            None
        }),
{
    if frame >= spec.active_start && frame <= spec.active_end {
        Some(0)
    } else {
        None
    }
}

/// Exactly the attacking states have frame data, for every character.
pub proof fn lemma_frame_data_covers_exactly_the_attacks(character: Character, state: State)
    ensures
        attack_table(character, state) is Some <==> state.attacking(),
{
}

/// Every attack becomes active after its first tick, stays active for at
/// least one tick, ends before the move does, does some damage and stuns
/// for some ticks.
pub proof fn lemma_active_window_inside_move(character: Character, state: State)
    requires
        attack_table(character, state) is Some,
    ensures
        ({
            let spec = attack_table(character, state)->0;
            &&& 0 < spec.active_start <= spec.active_end < spec.total
            &&& 0 < spec.damage
            &&& 0 < spec.stun
        }),
{
}

/// Projectiles are thrown only by Dee Jay's and Rose's first special and by
/// Rose's super.
pub proof fn lemma_projectile_moves(character: Character, state: State)
    requires
        attack_table(character, state) is Some,
    ensures
        attack_table(character, state)->0.projectile <==> (state == State::Special(0) && (
        character == Character::DeeJay || character == Character::Rose)) || (state
            == State::Super && character == Character::Rose),
{
}

/// Heavy hits, those dealing 20 damage or more, are exactly the supers.
pub proof fn lemma_only_supers_hit_heavy(character: Character, state: State)
    requires
        attack_table(character, state) is Some,
    ensures
        attack_table(character, state)->0.damage >= 20 <==> state == State::Super,
{
}

/// Every kicking state is an attack, and every airborne attack is an air
/// normal: no special, super or throw leaves the ground by its state.
pub proof fn lemma_state_families(state: State)
    ensures
        state.kicking() ==> state.attacking(),
        state.crouching() && state.attacking() ==> !state.in_air(),
        state.in_air() && !state.attacking() ==> (state == State::Jump || state
            == State::JumpForward || state == State::JumpBackward),
{
}

/// The length, first and last character of a state's caption.
pub open spec fn caption_signature(state: State) -> (nat, char, char) {
    match state {
        State::Idle => (4, 'I', 'E'),
        State::Walk => (12, 'W', 'D'),
        State::WalkBackward => (13, 'W', 'D'),
        State::Crouch => (6, 'C', 'H'),
        State::Jump => (12, 'N', 'P'),
        State::JumpForward => (12, 'F', 'P'),
        State::JumpBackward => (9, 'B', 'P'),
        State::Block => (5, 'B', 'K'),
        State::CrouchBlock => (12, 'C', 'K'),
        State::Punch => (5, 'P', 'H'),
        State::PunchMedium => (7, 'P', '2'),
        State::PunchHeavy => (7, 'P', '3'),
        State::ForwardPunch => (13, 'F', 'H'),
        State::BackPunch => (11, 'H', 'H'),
        State::Kick => (4, 'K', 'K'),
        State::KickMedium => (6, 'K', '2'),
        State::KickHeavy => (6, 'K', '3'),
        State::ForwardKick => (12, 'F', 'K'),
        State::BackKick => (10, 'H', 'K'),
        State::CrouchPunch => (12, 'C', 'H'),
        State::CrouchForwardPunch => (20, 'C', 'H'),
        State::CrouchBackPunch => (18, 'C', 'H'),
        State::CrouchKick => (11, 'C', 'K'),
        State::CrouchForwardKick => (19, 'C', 'K'),
        State::CrouchBackKick => (17, 'C', 'K'),
        State::AirPunch => (9, 'A', 'H'),
        State::AirForwardPunch => (17, 'A', 'H'),
        State::AirBackPunch => (15, 'A', 'H'),
        State::AirKick => (8, 'A', 'K'),
        State::AirForwardKick => (16, 'A', 'K'),
        State::AirBackKick => (14, 'A', 'K'),
        State::Throw => (5, 'T', 'W'),
        State::Special(_) => (7, 'S', 'L'),
        State::Super => (5, 'S', 'R'),
        State::Hit => (3, 'H', 'T'),
        State::KnockedOut => (11, 'K', 'T'),
        State::Victory => (7, 'V', 'Y'),
    }
}

/// Each caption has the length and end characters its signature lists.
proof fn lemma_caption_signature(state: State)
    ensures
        state.caption().len() == caption_signature(state).0,
        state.caption().len() > 0,
        state.caption()[0] == caption_signature(state).1,
        state.caption()[state.caption().len() - 1] == caption_signature(state).2,
{
    reveal_strlit("IDLE");
    reveal_strlit("WALK FORWARD");
    reveal_strlit("WALK BACKWARD");
    reveal_strlit("CROUCH");
    reveal_strlit("NEUTRAL JUMP");
    reveal_strlit("FORWARD JUMP");
    reveal_strlit("BACK JUMP");
    reveal_strlit("BLOCK");
    reveal_strlit("CROUCH BLOCK");
    reveal_strlit("PUNCH");
    reveal_strlit("PUNCH 2");
    reveal_strlit("PUNCH 3");
    reveal_strlit("FORWARD PUNCH");
    reveal_strlit("HEAVY PUNCH");
    reveal_strlit("KICK");
    reveal_strlit("KICK 2");
    reveal_strlit("KICK 3");
    reveal_strlit("FORWARD KICK");
    reveal_strlit("HEAVY KICK");
    reveal_strlit("CROUCH PUNCH");
    reveal_strlit("CROUCH FORWARD PUNCH");
    reveal_strlit("CROUCH HEAVY PUNCH");
    reveal_strlit("CROUCH KICK");
    reveal_strlit("CROUCH FORWARD KICK");
    reveal_strlit("CROUCH HEAVY KICK");
    reveal_strlit("AIR PUNCH");
    reveal_strlit("AIR FORWARD PUNCH");
    reveal_strlit("AIR HEAVY PUNCH");
    reveal_strlit("AIR KICK");
    reveal_strlit("AIR FORWARD KICK");
    reveal_strlit("AIR HEAVY KICK");
    reveal_strlit("THROW");
    reveal_strlit("SPECIAL");
    reveal_strlit("SUPER");
    reveal_strlit("HIT");
    reveal_strlit("KNOCKED OUT");
    reveal_strlit("VICTORY");
}

/// Captions tell states apart: two different states have different
/// captions, except the special moves, which all read "SPECIAL".
pub proof fn lemma_captions_are_distinct(a: State, b: State)
    ensures
        a != b && !(a is Special && b is Special) ==> a.caption() != b.caption(),
        a is Special ==> a.caption() == "SPECIAL"@,
{
    lemma_caption_signature(a);
    lemma_caption_signature(b);
}

} // verus!
