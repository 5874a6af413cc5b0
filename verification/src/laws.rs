//! Properties of the rules that hold across operations and ticks.

use vstd::prelude::*;
use crate::fighter::{
    blocked, body_box, combo_started, fresh, hit_taken, next_step, stage_finished, Fighter,
    COMBO_LINK_FRAMES, MAX_HEALTH, MAX_METER,
};
use crate::fighter::timed;
use crate::game::{
    clock_ticked, frozen, knockout_ticked, launch_of, link_ticked, projectile_landed,
    relative_stick, round_result_ticked,
    select_ticked, start_facing, stepped, strike_landed, Game, Phase, SelectReport, TickOutcome,
    WINS_NEEDED,
};
use crate::input::{Controls, InputBuffer, KeySample};
use crate::moves::{AttackSpec, ComboKind, State};
use crate::roster::Character;

verus! {

/// The super needs a full meter: a fighter only enters its super from
/// another state when its meter was full and it stood on the floor, and
/// starting the super empties the meter.
pub proof fn lemma_super_requires_a_full_meter(
    f: Fighter,
    index: usize,
    controls: Controls,
    threatened: bool,
)
    requires
        f.wf(),
    ensures
        ({
            let (g, step) = stepped(f, index, controls, threatened);
            g.state == State::Super && f.state != State::Super ==> {
                &&& f.meter >= MAX_METER
                &&& f.grounded
                &&& g.meter == 0
            }
        }),
{
}

/// A fighter in hit stun cannot act: after its tick it is still stunned or
/// has recovered to a neutral state, and it throws nothing and announces
/// nothing.
pub proof fn lemma_hit_stun_cannot_act(
    f: Fighter,
    index: usize,
    controls: Controls,
    threatened: bool,
)
    requires
        f.wf(),
        f.state == State::Hit,
    ensures
        ({
            let (g, step) = stepped(f, index, controls, threatened);
            &&& g.state == State::Hit || g.state == State::Idle || g.state == State::Jump
            &&& step.launch is None
            &&& step.cue is None
        }),
{
}

/// Knocked-out and celebrating fighters only animate: nothing else about
/// them changes and they do not move.
pub proof fn lemma_finished_fighters_only_animate(
    f: Fighter,
    index: usize,
    controls: Controls,
    threatened: bool,
)
    requires
        frozen(f.state),
    ensures
        ({
            let (g, step) = stepped(f, index, controls, threatened);
            &&& g == clock_ticked(f)
            &&& !step.moves
            &&& step.launch is None
        }),
{
}

/// A projectile is thrown only by a projectile move that has not thrown
/// yet, so each such move throws at most once.
pub proof fn lemma_projectiles_are_thrown_once(
    f: Fighter,
    index: usize,
    controls: Controls,
    threatened: bool,
)
    requires
        f.wf(),
    ensures
        ({
            let (g, step) = stepped(f, index, controls, threatened);
            step.launch is Some ==> {
                &&& !f.projectile_spawned
                &&& (f.state == State::Special(0) || f.state == State::Super)
                &&& step.launch->0.owner == index
                &&& step.launch->0.super_move == (f.state == State::Super)
            }
        }),
{
}

/// Damage never makes health negative: a hit leaves health at zero or
/// above and never raises it, and the fighter is knocked out exactly when
/// no health is left.
pub proof fn lemma_damage_never_makes_health_negative(
    f: Fighter,
    damage: i32,
    stun: u16,
    rising: bool,
)
    requires
        f.wf(),
        0 <= damage,
    ensures
        0 <= hit_taken(f, damage, stun, rising).health <= f.health,
        hit_taken(f, damage, stun, rising).health == 0 <==> hit_taken(
            f,
            damage,
            stun,
            rising,
        ).state == State::KnockedOut,
        hit_taken(f, damage, stun, rising).wf(),
{
}

/// Guarding never loses the round: a blocked hit leaves at least one point
/// of health, never raises health, and keeps the guard up.
pub proof fn lemma_blocking_never_knocks_out(f: Fighter, damage: i32)
    requires
        f.wf(),
        f.health >= 1,
    ensures
        1 <= blocked(f, damage).health <= f.health,
        blocked(f, damage).state == f.state,
{
}

/// A blocked strike never knocks the defender out.
pub proof fn lemma_blocked_strikes_never_knock_out(
    old: Game,
    new: Game,
    attacker: usize,
    spec: AttackSpec,
    window: u8,
    rising: bool,
    report: crate::game::StrikeReport,
)
    requires
        strike_landed(old, new, attacker, spec, window, rising, report),
        report.blocked,
    ensures
        !report.knocked_out,
        new.fighters[report.defender as int].health >= 1,
        new.phase == old.phase,
{
}

/// Super meter carries between rounds: when the next round starts, both
/// fighters keep their meters and come back at full health.
pub proof fn lemma_meter_carries_between_rounds(
    old: Game,
    new: Game,
    winner: usize,
    outcome: TickOutcome,
)
    requires
        round_result_ticked(old, new, winner, 1, outcome),
    ensures
        new.fighters[0].meter == old.fighters[0].meter,
        new.fighters[1].meter == old.fighters[1].meter,
        new.fighters[0].health == MAX_HEALTH,
        new.fighters[1].health == MAX_HEALTH,
        outcome == TickOutcome::NewRound,
{
    assert(new.fighters[0] == (Fighter {
        meter: old.fighters[0].meter,
        ..fresh(old.picks[0], crate::game::start_facing(0))
    }));
    assert(new.fighters[1] == (Fighter {
        meter: old.fighters[1].meter,
        ..fresh(old.picks[1], crate::game::start_facing(1))
    }));
}

/// Super meter does not carry into a new match: the first round of a
/// match starts with both meters empty.
pub proof fn lemma_new_match_starts_with_empty_meters(
    old: Game,
    new: Game,
    controls: [Controls; 2],
    report: SelectReport,
)
    requires
        select_ticked(old, new, controls, report),
        report.started,
    ensures
        new.fighters[0].meter == 0,
        new.fighters[1].meter == 0,
        new.fighters[0].health == MAX_HEALTH,
        new.fighters[1].health == MAX_HEALTH,
        new.phase is Intro,
{
    assert(new.fighters[0].meter == 0);
    assert(new.fighters[1].meter == 0);
}

/// Matches are best of three: nobody ever has more than two wins, at most
/// three rounds are played, and the match is over exactly when a player
/// has two wins.
pub proof fn lemma_matches_are_best_of_three(game: Game)
    requires
        game.wf(),
    ensures
        game.wins[0] <= WINS_NEEDED,
        game.wins[1] <= WINS_NEEDED,
        1 <= game.round <= 3,
        game.phase is MatchOver <==> (game.wins[0] == WINS_NEEDED || game.wins[1]
            == WINS_NEEDED),
{
}

/// A standing combo links: once a stage ends, the same button continues
/// the chain with the next stage while the link window is open, the other
/// button starts its own chain from the first stage, and a chain ends at
/// the heavy stage.
pub proof fn lemma_combo_stages_link(f: Fighter, kind: ComboKind, other: ComboKind, step: u8)
    requires
        other != kind,
    ensures
        ({
            let g = stage_finished(combo_started(f, kind, step));
            &&& g.combo_timer == COMBO_LINK_FRAMES
            &&& step < 2 ==> next_step(g, kind) == step + 1
            &&& step >= 2 ==> next_step(g, kind) == 0
            &&& next_step(g, other) == 0
        }),
{
}

/// The link window closes: a chain left waiting through its last link tick
/// is dropped, and the next press starts over from the first stage.
pub proof fn lemma_combo_window_closes(f: Fighter, kind: ComboKind)
    requires
        !f.state.attacking(),
        f.combo_timer == 1,
    ensures
        next_step(link_ticked(f), kind) == 0,
        link_ticked(f).combo_kind is None,
{
}

/// A pre-emptive jump clears every projectile: a fighter whose feet are at
/// least 91 pixels above the floor is entirely above any projectile, even
/// a super's, thrown by a fighter standing on the floor.  (A full jump
/// peaks about 148 pixels up.)
pub proof fn lemma_high_jumps_clear_projectiles(
    state: State,
    lift: int,
    owner: usize,
    character: Character,
    super_move: bool,
    damage: i32,
)
    requires
        state != State::KnockedOut,
        lift >= 91,
    ensures
        ({
            let body = body_box(state, false);
            let shot = launch_of(owner, character, super_move, damage);
            lift + body.top - body.height >= shot.height + shot.hit_radius
        }),
{
}

/// A knock-out by a strike goes to the striker: when a landed strike
/// knocks the defender out, the defender is left with no health in the
/// knocked-out state, and the round is decided for the other fighter, the
/// one who struck.
pub proof fn lemma_knockouts_go_to_the_striker(
    old: Game,
    new: Game,
    attacker: usize,
    spec: AttackSpec,
    window: u8,
    rising: bool,
    report: crate::game::StrikeReport,
)
    requires
        old.wf(),
        attacker < 2,
        0 <= spec.damage,
        strike_landed(old, new, attacker, spec, window, rising, report),
        report.knocked_out,
    ensures
        report.attacker != report.defender,
        report.attacker == attacker,
        new.fighters[report.defender as int].health == 0,
        new.fighters[report.defender as int].state == State::KnockedOut,
        new.phase matches Phase::Knockout { winner, frames } && winner == report.attacker
            && winner != report.defender && frames == 120,
{
}

/// The stick picks the standing kick: with down released, a kick pressed
/// alone on the floor is the forward kick when the stick points toward
/// the facing direction, the heavy (back) kick when it points away, and a
/// stage of the standing kick chain when it is centred.  The three are
/// different moves.
pub proof fn lemma_stick_direction_picks_the_standing_kick(
    f: Fighter,
    index: usize,
    c: Controls,
    threatened: bool,
)
    requires
        f.wf(),
        !timed(f.state),
        !frozen(f.state),
        f.grounded,
        c.kick,
        !c.punch,
        !c.special,
        !c.super_move,
        !c.down,
    ensures
        ({
            let g = stepped(f, index, c, threatened).0;
            let relative = c.horizontal * f.facing;
            &&& relative > 0 ==> g.state == State::ForwardKick
            &&& relative < 0 ==> g.state == State::BackKick
            &&& relative == 0 ==> (g.state == State::Kick || g.state == State::KickMedium
                || g.state == State::KickHeavy)
            &&& g.state.kicking()
        }),
{
}

/// The stick picks the standing punch the same way: forward punch toward
/// the facing direction, heavy (back) punch away from it, a stage of the
/// standing punch chain when centred.
pub proof fn lemma_stick_direction_picks_the_standing_punch(
    f: Fighter,
    index: usize,
    c: Controls,
    threatened: bool,
)
    requires
        f.wf(),
        !timed(f.state),
        !frozen(f.state),
        f.grounded,
        c.punch,
        !c.kick,
        !c.special,
        !c.super_move,
        !c.down,
    ensures
        ({
            let g = stepped(f, index, c, threatened).0;
            let relative = c.horizontal * f.facing;
            &&& relative > 0 ==> g.state == State::ForwardPunch
            &&& relative < 0 ==> g.state == State::BackPunch
            &&& relative == 0 ==> (g.state == State::Punch || g.state == State::PunchMedium
                || g.state == State::PunchHeavy)
            &&& !g.state.kicking()
        }),
{
}

/// Crouching and airborne attacks also follow the stick: toward, away and
/// centred give three different moves, crouching ones on the floor and air
/// ones off it.
pub proof fn lemma_stick_direction_distinguishes_attacks(
    f: Fighter,
    index: usize,
    c1: Controls,
    c2: Controls,
    threatened: bool,
)
    requires
        f.wf(),
        !timed(f.state),
        !frozen(f.state),
        c1.kick && !c1.punch && !c1.special && !c1.super_move,
        c2.kick && !c2.punch && !c2.special && !c2.super_move,
        c1.down == c2.down,
        !f.grounded || c1.down,
        c1.horizontal * f.facing > 0 && c2.horizontal * f.facing <= 0 || c1.horizontal
            * f.facing < 0 && c2.horizontal * f.facing >= 0,
    ensures
        stepped(f, index, c1, threatened).0.state != stepped(f, index, c2, threatened).0.state,
        stepped(f, index, c1, threatened).0.state.kicking(),
        f.grounded ==> stepped(f, index, c1, threatened).0.state.crouching(),
        !f.grounded ==> stepped(f, index, c1, threatened).0.state.in_air(),
{
}

/// A combo stage that ends without a buffered press leaves the chain open:
/// the fighter returns to idle, keeps its chain and stage, the link window
/// opens for its full length, and the next press of the same button starts
/// the following stage.
pub proof fn lemma_unbuffered_stage_end_opens_the_link(
    f: Fighter,
    index: usize,
    c: Controls,
    threatened: bool,
    kind: ComboKind,
)
    requires
        f.wf(),
        f.state.attacking(),
        f.action_frame + 1 >= f.action_total,
        f.combo_kind == Some(kind),
        f.combo_step < 2,
        !f.combo_queued,
        !c.punch,
        !c.kick,
    ensures
        ({
            let g = stepped(f, index, c, threatened).0;
            &&& g.state == State::Idle
            &&& g.combo_kind == Some(kind)
            &&& g.combo_step == f.combo_step
            &&& g.combo_timer == COMBO_LINK_FRAMES
            &&& next_step(g, kind) == f.combo_step + 1
        }),
{
}

/// A buffered press continues the chain as soon as the stage ends: the
/// next stage of the same chain starts on that tick.
pub proof fn lemma_buffered_stage_end_continues_the_chain(
    f: Fighter,
    index: usize,
    c: Controls,
    threatened: bool,
    kind: ComboKind,
)
    requires
        f.wf(),
        f.state.attacking(),
        f.action_frame + 1 >= f.action_total,
        f.combo_kind == Some(kind),
        f.combo_step < 2,
        f.combo_queued,
    ensures
        ({
            let g = stepped(f, index, c, threatened).0;
            &&& g.combo_kind == Some(kind)
            &&& g.combo_step == f.combo_step + 1
            &&& g.action_frame == 0
            &&& g.state.attacking()
            &&& g.state.kicking() == (kind == ComboKind::Kick)
            &&& f.state == crate::moves::combo_stage_state(kind, f.combo_step) ==> g.state != f.state
        }),
{
}

/// Every press acts on exactly one tick: after a tick takes the controls
/// no button press is pending, a press sampled on a frame is seen by the
/// next tick, and the tick after that sees a button only if it was
/// pressed again.
pub proof fn lemma_each_press_acts_once(
    buffer: InputBuffer,
    pressed: KeySample,
    later: KeySample,
)
    ensures
        ({
            let taken = buffer.drained().pending();
            &&& !taken.jump && !taken.punch && !taken.kick && !taken.special && !taken.super_move
            &&& taken.nav == 0
        }),
        ({
            let first = buffer.sampled(pressed).pending();
            &&& pressed.up_pressed ==> first.jump
            &&& pressed.punch_pressed ==> first.punch
            &&& pressed.kick_pressed ==> first.kick
            &&& pressed.special_pressed ==> first.special
            &&& pressed.super_pressed ==> first.super_move
        }),
        ({
            let second = buffer.sampled(pressed).drained().sampled(later).pending();
            &&& second.jump == later.up_pressed
            &&& second.punch == later.punch_pressed
            &&& second.kick == later.kick_pressed
            &&& second.special == later.special_pressed
            &&& second.super_move == later.super_pressed
        }),
{
}

/// Each player plays their own pick: when a select tick starts the match,
/// fighter `i` is player `i`'s chosen character, on its own side, fresh.
pub proof fn lemma_players_fight_with_their_own_picks(
    old: Game,
    new: Game,
    controls: [Controls; 2],
    report: SelectReport,
)
    requires
        select_ticked(old, new, controls, report),
        report.started,
    ensures
        new.fighters[0].character == new.picks[0],
        new.fighters[1].character == new.picks[1],
        new.fighters[0].facing == 1 && new.fighters[1].facing == -1,
        new.fighters[0].state == State::Idle && new.fighters[1].state == State::Idle,
        new.locked[0] && new.locked[1],
{
    assert(new.fighters[0] == (Fighter {
        meter: 0,
        ..fresh(crate::game::pick_after(old, controls, 0), start_facing(0))
    }));
    assert(new.fighters[1] == (Fighter {
        meter: 0,
        ..fresh(crate::game::pick_after(old, controls, 1), start_facing(1))
    }));
    assert(new.picks[0] == crate::game::pick_after(old, controls, 0));
    assert(new.picks[1] == crate::game::pick_after(old, controls, 1));
    assert(new.locked[0] == crate::game::lock_after(old, controls, 0));
    assert(new.locked[1] == crate::game::lock_after(old, controls, 1));
}

/// Each player keeps their own pick into the next round.
pub proof fn lemma_next_round_keeps_the_picks(
    old: Game,
    new: Game,
    winner: usize,
    outcome: TickOutcome,
)
    requires
        round_result_ticked(old, new, winner, 1, outcome),
    ensures
        new.fighters[0].character == new.picks[0],
        new.fighters[1].character == new.picks[1],
        new.picks == old.picks,
{
    assert(new.fighters[0] == (Fighter {
        meter: old.fighters[0].meter,
        ..fresh(old.picks[0], start_facing(0))
    }));
    assert(new.fighters[1] == (Fighter {
        meter: old.fighters[1].meter,
        ..fresh(old.picks[1], start_facing(1))
    }));
}

/// A knock-out by a projectile goes to its thrower: the target is left
/// with no health in the knocked-out state, a guarding target is never
/// knocked out, and the round is decided for the thrower.
pub proof fn lemma_projectile_knockouts_go_to_the_thrower(
    old: Game,
    new: Game,
    owner: usize,
    damage: i32,
    super_move: bool,
    rising: bool,
    impact: crate::game::ProjectileImpact,
)
    requires
        old.wf(),
        owner < 2,
        0 <= damage,
        projectile_landed(old, new, owner, damage, super_move, rising, impact),
    ensures
        impact.target != owner,
        impact.blocked ==> !impact.knocked_out && new.fighters[impact.target as int].health >= 1,
        impact.knocked_out ==> {
            &&& new.fighters[impact.target as int].health == 0
            &&& new.fighters[impact.target as int].state == State::KnockedOut
            &&& new.phase matches Phase::Knockout { winner, frames } && winner == owner
                && frames == 120
        },
        new.fighters[owner as int].meter >= old.fighters[owner as int].meter,
{
}

/// The end of the knock-out pose scores the round for its winner: the
/// winner gains exactly one win, the loser none, and the winner
/// celebrates.
pub proof fn lemma_knockout_scores_for_the_winner(old: Game, new: Game, winner: usize)
    requires
        old.wf(),
        old.phase == (Phase::Knockout { winner, frames: 1 }),
        knockout_ticked(old, new, winner, 1),
    ensures
        new.wins[winner as int] == old.wins[winner as int] + 1,
        new.wins[1 - winner] == old.wins[1 - winner],
        new.fighters[winner as int].state == State::Victory,
        new.phase is MatchOver || new.phase is RoundResult,
        new.phase matches Phase::MatchOver { winner: w } ==> w == winner,
        new.phase matches Phase::RoundResult { winner: w, .. } ==> w == winner,
{
}

/// Specials follow the stick: on the floor, without a full-meter super,
/// down gives the second special, toward the facing direction the third,
/// anything else the first.
pub proof fn lemma_stick_picks_the_special(
    f: Fighter,
    index: usize,
    c: Controls,
    threatened: bool,
)
    requires
        f.wf(),
        !timed(f.state),
        !frozen(f.state),
        f.grounded,
        c.special,
        !c.super_move,
    ensures
        ({
            let g = stepped(f, index, c, threatened).0;
            &&& c.down ==> g.state == State::Special(1) && !g.grounded
            &&& !c.down && c.horizontal * f.facing > 0 ==> g.state == State::Special(2)
            &&& !c.down && c.horizontal * f.facing <= 0 ==> g.state == State::Special(0)
        }),
{
}

/// Jumps follow the stick: toward the facing direction a forward jump,
/// away a back jump, centred a neutral jump, and the fighter leaves the
/// floor.
pub proof fn lemma_stick_picks_the_jump(
    f: Fighter,
    index: usize,
    c: Controls,
    threatened: bool,
)
    requires
        f.wf(),
        !timed(f.state),
        !frozen(f.state),
        f.grounded,
        c.jump,
        !c.punch && !c.kick && !c.special && !c.super_move,
    ensures
        ({
            let (g, step) = stepped(f, index, c, threatened);
            &&& c.horizontal * f.facing > 0 ==> g.state == State::JumpForward
            &&& c.horizontal * f.facing < 0 ==> g.state == State::JumpBackward
            &&& c.horizontal == 0 ==> g.state == State::Jump
            &&& !g.grounded
            &&& step.motion == crate::fighter::Motion::Jump(c.horizontal)
        }),
{
}

/// A threatened fighter on the floor guards by holding away: standing or
/// crouching as down is held, and it stops.
pub proof fn lemma_holding_away_guards(f: Fighter, index: usize, c: Controls)
    requires
        f.wf(),
        !timed(f.state),
        !frozen(f.state),
        f.grounded,
        c.horizontal * f.facing < 0,
        !c.punch && !c.kick && !c.special && !c.super_move && !c.jump,
    ensures
        ({
            let (g, step) = stepped(f, index, c, true);
            &&& g.state.guarding()
            &&& g.state == (if c.down {
                State::CrouchBlock
            } else {
                State::Block
            })
            &&& step.motion == crate::fighter::Motion::Halt
        }),
        !stepped(f, index, c, false).0.state.guarding(),
{
}

} // verus!
