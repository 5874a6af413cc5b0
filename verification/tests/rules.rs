use alpha_fighter::animation::{remove_flat_background, sprite_component};
use alpha_fighter::fighter::{hurtbox, Fighter, Motion, MAX_HEALTH, MAX_METER};
use alpha_fighter::game::{
    BannerText, Cue, Game, Phase, ProjectileLaunch, TickOutcome,
};
use alpha_fighter::input::{axis, Controls, InputBuffer, KeySample};
use alpha_fighter::moves::{attack_spec, strike_window, ComboKind, State};
use alpha_fighter::roster::{cycle_pick, Character};
use alpha_fighter::sheets::prepare_sheet;

fn idle_controls() -> Controls {
    Controls {
        horizontal: 0,
        down: false,
        jump: false,
        punch: false,
        kick: false,
        special: false,
        super_move: false,
        nav: 0,
    }
}

fn no_keys() -> KeySample {
    KeySample {
        left_down: false,
        right_down: false,
        down_down: false,
        up_pressed: false,
        punch_pressed: false,
        kick_pressed: false,
        special_pressed: false,
        super_pressed: false,
        left_pressed: false,
        right_pressed: false,
    }
}

fn fighting_game() -> Game {
    let mut game = Game::new();
    game.phase = Phase::Fight;
    game
}

#[test]
fn roster_names_colours_and_slots() {
    assert_eq!(Character::FeiLong.name(), "FEI LONG");
    assert_eq!(Character::DeeJay.name(), "DEE JAY");
    assert_eq!(Character::Rose.special_name(1), "Soul Throw");
    assert_eq!(Character::Cammy.special_name(7), "Hooligan Rush");
    assert_eq!(Character::Cammy.super_name(), "SPIN DRIVE SMASHER");
    assert_eq!(Character::Rose.color_rgba(), (215, 83, 255, 255));
    for (i, character) in Character::all().iter().enumerate() {
        assert_eq!(character.index(), i);
        assert_eq!(Character::from_index(i), *character);
    }
}

#[test]
fn select_cursor_wraps_around_the_roster() {
    assert_eq!(cycle_pick(Character::DeeJay, -1), Character::Cammy);
    assert_eq!(cycle_pick(Character::Cammy, 1), Character::DeeJay);
    assert_eq!(cycle_pick(Character::Rose, 0), Character::Rose);
    assert_eq!(cycle_pick(Character::Rose, 1), Character::FeiLong);
    assert_eq!(cycle_pick(cycle_pick(Character::FeiLong, 1), -1), Character::FeiLong);
}

#[test]
fn state_families_and_labels() {
    assert!(State::Kick.is_kick());
    assert!(!State::Punch.is_kick());
    assert!(State::Special(5).is_attack());
    assert!(!State::Block.is_attack());
    assert!(State::AirBackKick.is_airborne());
    assert!(!State::Special(1).is_airborne());
    assert!(State::CrouchBlock.is_guarding());
    assert_eq!(State::BackPunch.label(), "HEAVY PUNCH");
    assert_eq!(State::Special(2).label(), "SPECIAL");
}

#[test]
fn frame_data_table_values() {
    let punch = attack_spec(Character::DeeJay, State::Punch).unwrap();
    assert_eq!(
        (punch.total, punch.active_start, punch.active_end, punch.damage, punch.stun),
        (20, 6, 10, 7, 16)
    );
    assert_eq!((punch.range, punch.hit_y, punch.hit_w, punch.hit_h), (67, 112, 48, 38));
    assert_eq!((punch.knockback, punch.hitstop, punch.projectile), (190, 4, false));
    let rising = attack_spec(Character::Cammy, State::Special(1)).unwrap();
    assert_eq!((rising.total, rising.active_end, rising.damage, rising.hit_y), (34, 18, 14, 133));
    let dash = attack_spec(Character::Cammy, State::Special(2)).unwrap();
    assert_eq!((dash.total, dash.active_end, dash.range, dash.hit_w), (42, 25, 112, 84));
    assert!(attack_spec(Character::Rose, State::Special(0)).unwrap().projectile);
    assert!(attack_spec(Character::DeeJay, State::Special(0)).unwrap().projectile);
    assert!(!attack_spec(Character::Cammy, State::Special(0)).unwrap().projectile);
    assert!(attack_spec(Character::Rose, State::Super).unwrap().projectile);
    assert!(!attack_spec(Character::FeiLong, State::Super).unwrap().projectile);
    assert_eq!(attack_spec(Character::FeiLong, State::Super).unwrap().damage, 26);
    assert!(attack_spec(Character::Rose, State::Idle).is_none());
    assert!(attack_spec(Character::Rose, State::Hit).is_none());
}

#[test]
fn strike_window_is_the_active_frames() {
    let spec = attack_spec(Character::Rose, State::Punch).unwrap();
    assert_eq!(strike_window(Character::Rose, State::Punch, 5, spec), None);
    assert_eq!(strike_window(Character::Rose, State::Punch, 6, spec), Some(0));
    assert_eq!(strike_window(Character::Rose, State::Punch, 10, spec), Some(0));
    assert_eq!(strike_window(Character::Rose, State::Punch, 11, spec), None);
}

#[test]
fn starting_actions_sets_their_motion() {
    let mut cammy = Fighter::new(Character::Cammy, 1);
    assert_eq!(cammy.start_action(State::Special(0)), Motion::Dash(430));
    assert_eq!(cammy.action_total, 37);
    let mut rose = Fighter::new(Character::Rose, 1);
    assert_eq!(rose.start_action(State::Super), Motion::Halt);
    let mut dee_jay = Fighter::new(Character::DeeJay, -1);
    assert_eq!(dee_jay.start_action(State::Special(1)), Motion::Leap);
    assert!(!dee_jay.grounded);
    assert_eq!(dee_jay.start_action(State::Kick), Motion::Slow);
    let mut walker = Fighter::new(Character::FeiLong, 1);
    assert_eq!(walker.start_action(State::Idle), Motion::Slow);
    assert_eq!(walker.action_total, 1);
}

#[test]
fn hits_and_blocks_change_health_and_meter() {
    let mut fighter = Fighter::new(Character::Rose, 1);
    assert!(!fighter.receive_hit(13, 27, false));
    assert_eq!(fighter.health, MAX_HEALTH - 13);
    assert_eq!(fighter.meter, 8);
    assert_eq!(fighter.state, State::Hit);
    assert_eq!(fighter.action_total, 27);
    assert!(fighter.grounded);
    fighter.receive_hit(26, 43, false);
    assert!(!fighter.grounded);

    let mut guard = Fighter::new(Character::Rose, 1);
    guard.block_hit(26);
    assert_eq!(guard.health, MAX_HEALTH - 5);
    guard.block_hit(3);
    assert_eq!(guard.health, MAX_HEALTH - 6);
    guard.health = 1;
    guard.block_hit(26);
    assert_eq!(guard.health, 1);
}

#[test]
fn landing_ends_airborne_actions() {
    let mut fighter = Fighter::new(Character::Cammy, 1);
    fighter.grounded = false;
    fighter.state = State::AirKick;
    fighter.action_frame = 4;
    fighter.land();
    assert!(fighter.grounded);
    assert_eq!(fighter.state, State::Idle);
    assert_eq!(fighter.action_frame, 0);

    let mut hit = Fighter::new(Character::Cammy, 1);
    hit.grounded = false;
    hit.state = State::Hit;
    hit.land();
    assert_eq!(hit.state, State::Hit);
    assert!(hit.grounded);
}

#[test]
fn input_presses_latch_until_consumed() {
    assert_eq!(axis(true, false), -1);
    assert_eq!(axis(false, true), 1);
    assert_eq!(axis(true, true), 0);

    let mut buffer = InputBuffer::default();
    let mut keys = no_keys();
    keys.punch_pressed = true;
    keys.right_down = true;
    keys.left_pressed = true;
    buffer.sample(keys);
    buffer.sample(no_keys());
    let controls = buffer.consume();
    assert!(controls.punch);
    assert_eq!(controls.horizontal, 0);
    assert_eq!(controls.nav, -1);
    let again = buffer.consume();
    assert!(!again.punch);
    assert_eq!(again.nav, 0);
}

#[test]
fn flat_background_becomes_transparent() {
    let mut rgba = vec![
        10, 20, 30, 255, // the backdrop colour
        12, 22, 31, 255, // distance 5
        14, 20, 33, 255, // distance 7
        200, 0, 0, 128,
    ];
    remove_flat_background(&mut rgba);
    assert_eq!(
        rgba,
        vec![10, 20, 30, 0, 12, 22, 31, 0, 14, 20, 33, 255, 200, 0, 0, 128]
    );
}

#[test]
fn backdrop_removal_leaves_trailing_bytes() {
    let mut rgba = vec![1, 2, 3, 4, 1, 2, 3, 9, 7, 7];
    remove_flat_background(&mut rgba);
    assert_eq!(rgba, vec![1, 2, 3, 0, 1, 2, 3, 0, 7, 7]);
}

#[test]
fn sprite_component_follows_the_clock() {
    let mut fighter = Fighter::new(Character::DeeJay, 1);
    assert_eq!(sprite_component(&fighter), 10);
    fighter.state = State::Walk;
    fighter.animation_tick = 8;
    assert_eq!(sprite_component(&fighter), 27);
    fighter.animation_tick = 21;
    assert_eq!(sprite_component(&fighter), 25);
    fighter.start_action(State::Punch);
    fighter.action_frame = 19;
    assert_eq!(sprite_component(&fighter), 55);
    fighter.state = State::KnockedOut;
    fighter.animation_tick = 10_000;
    assert_eq!(sprite_component(&fighter), 263);
}

#[test]
fn hurtbox_shapes() {
    let mut fighter = Fighter::new(Character::Rose, 1);
    let standing = hurtbox(&fighter);
    assert_eq!((standing.left, standing.top, standing.width, standing.height), (37, 202, 74, 196));
    fighter.grounded = false;
    assert_eq!(hurtbox(&fighter).height, 132);
    fighter.state = State::KnockedOut;
    assert_eq!(hurtbox(&fighter).width, 156);
}

#[test]
fn pause_menu_flow() {
    let mut game = fighting_game();
    assert!(!game.handle_global_input(false, true));
    assert!(game.paused);
    let before = game.round;
    assert!(matches!(game.tick([idle_controls(); 2], false), TickOutcome::Paused));
    assert_eq!(game.round, before);
    assert!(game.handle_global_input(true, false));
    assert_eq!(game.phase, Phase::Select);
    assert!(!game.paused);

    let mut select = Game::new();
    select.paused = true;
    assert!(!select.handle_global_input(false, true));
    assert!(!select.paused);
}

#[test]
fn select_screen_starts_the_match() {
    let mut game = Game::new();
    let mut first = idle_controls();
    first.nav = 1;
    first.punch = true;
    let outcome = game.tick([first, idle_controls()], false);
    match outcome {
        TickOutcome::Selecting(report) => {
            assert_eq!(report.moved, [true, false]);
            assert_eq!(report.locked, [true, false]);
            assert!(!report.started);
        },
        _ => panic!("expected the select screen"),
    }
    assert_eq!(game.picks, [Character::Rose, Character::Rose]);
    let mut second = idle_controls();
    second.punch = true;
    let mut ignored = idle_controls();
    ignored.nav = 1;
    match game.tick([ignored, second], false) {
        TickOutcome::Selecting(report) => assert!(report.started),
        _ => panic!("expected the select screen"),
    }
    assert_eq!(game.picks, [Character::Rose, Character::Rose]);
    assert_eq!(game.phase, Phase::Intro(100));
    assert_eq!(game.fighters[0].character, Character::Rose);
    assert_eq!(game.fighters[1].facing, -1);
}

#[test]
fn rounds_flow_into_a_match_result() {
    let mut game = Game::new();
    game.phase = Phase::Intro(2);
    assert!(matches!(game.tick([idle_controls(); 2], false), TickOutcome::Continue));
    assert_eq!(game.phase, Phase::Intro(1));
    game.tick([idle_controls(); 2], false);
    assert_eq!(game.phase, Phase::Fight);
    game.hitstop = 2;
    assert!(matches!(game.tick([idle_controls(); 2], false), TickOutcome::Continue));
    assert_eq!(game.hitstop, 1);
    game.hitstop = 0;
    assert!(matches!(game.tick([idle_controls(); 2], false), TickOutcome::Fight));

    game.fighters[0].meter = 60;
    game.phase = Phase::Knockout { winner: 0, frames: 1 };
    game.tick([idle_controls(); 2], false);
    assert_eq!(game.wins, [1, 0]);
    assert_eq!(game.fighters[0].state, State::Victory);
    assert_eq!(game.phase, Phase::RoundResult { winner: 0, frames: 90 });
    game.phase = Phase::RoundResult { winner: 0, frames: 1 };
    assert!(matches!(game.tick([idle_controls(); 2], false), TickOutcome::NewRound));
    assert_eq!(game.round, 2);
    assert_eq!(game.phase, Phase::Intro(95));
    assert_eq!(game.fighters[0].meter, 60);
    assert_eq!(game.fighters[0].state, State::Idle);

    game.phase = Phase::Knockout { winner: 0, frames: 1 };
    game.tick([idle_controls(); 2], false);
    assert_eq!(game.phase, Phase::MatchOver { winner: 0 });
    assert!(matches!(game.tick([idle_controls(); 2], false), TickOutcome::Continue));
    assert!(matches!(game.tick([idle_controls(); 2], true), TickOutcome::BackToSelect));
    assert_eq!(game.phase, Phase::Select);
    assert_eq!(game.wins, [0, 0]);
}

#[test]
fn banners_count_down() {
    let mut game = fighting_game();
    let mut press = idle_controls();
    press.special = true;
    press.down = true;
    let step = game.update_fighter(0, press, false, false);
    assert_eq!(step.cue, Some(Cue::SpecialStarted));
    assert_eq!(step.motion, Motion::Leap);
    let banner = game.banner.unwrap();
    assert_eq!(banner.text, BannerText::Special(1));
    assert_eq!(banner.text(), "Machine Gun Upper");
    assert_eq!(banner.frames, 38);
    game.tick([idle_controls(); 2], false);
    assert_eq!(game.banner.unwrap().frames, 37);
    game.banner = Some(alpha_fighter::game::Banner { frames: 1, ..banner });
    game.tick([idle_controls(); 2], false);
    assert!(game.banner.is_none());
}

#[test]
fn super_needs_full_meter_in_a_fight() {
    let mut game = fighting_game();
    let mut press = idle_controls();
    press.super_move = true;
    let step = game.update_fighter(0, press, false, false);
    assert_eq!(game.fighters[0].state, State::Idle);
    assert_eq!(step.cue, None);
    game.fighters[0].meter = MAX_METER;
    let step = game.update_fighter(0, press, false, false);
    assert_eq!(game.fighters[0].state, State::Super);
    assert_eq!(game.fighters[0].meter, 0);
    assert_eq!(step.motion, Motion::Dash(465));
    assert_eq!(step.cue, Some(Cue::SuperStarted));
    assert!(!step.advance);
    assert_eq!(game.banner.unwrap().text, BannerText::Super);
    assert_eq!(game.banner.unwrap().frames, 70);
}

#[test]
fn neutral_decisions() {
    let mut game = fighting_game();
    let mut back = idle_controls();
    back.horizontal = -1;
    let step = game.update_fighter(0, back, false, true);
    assert_eq!(game.fighters[0].state, State::Block);
    assert_eq!(step.motion, Motion::Halt);
    game.fighters[1].state = State::Idle;
    let step = game.update_fighter(0, back, false, false);
    assert_eq!(game.fighters[0].state, State::WalkBackward);
    assert_eq!(step.motion, Motion::Walk(-1));

    let mut jump = idle_controls();
    jump.jump = true;
    jump.horizontal = 1;
    let step = game.update_fighter(0, jump, false, false);
    assert_eq!(game.fighters[0].state, State::JumpForward);
    assert!(!game.fighters[0].grounded);
    assert_eq!(step.motion, Motion::Jump(1));
    let mut kick = idle_controls();
    kick.kick = true;
    game.update_fighter(0, kick, false, false);
    assert_eq!(game.fighters[0].state, State::AirKick);

    let mut combo = fighting_game();
    let mut punch = idle_controls();
    punch.punch = true;
    let step = combo.update_fighter(1, punch, false, false);
    assert!(!step.moves);
    assert_eq!(combo.fighters[1].state, State::Punch);
    assert_eq!(combo.fighters[1].combo_kind, Some(ComboKind::Punch));
}

#[test]
fn buffered_press_continues_the_combo() {
    let mut game = fighting_game();
    let mut punch = idle_controls();
    punch.punch = true;
    game.update_fighter(0, punch, false, false);
    game.update_fighter(0, punch, false, false);
    assert!(game.fighters[0].combo_queued);
    for _ in 0..19 {
        game.update_fighter(0, idle_controls(), false, false);
    }
    assert_eq!(game.fighters[0].state, State::PunchMedium);
    assert_eq!(game.fighters[0].combo_step, 1);
}

#[test]
fn projectile_specials_throw_once() {
    let mut game = fighting_game();
    game.fighters[0].start_action(State::Special(0));
    let mut launches = 0;
    for _ in 0..36 {
        let step = game.update_fighter(0, idle_controls(), false, false);
        if let Some(launch) = step.launch {
            launches += 1;
            assert_eq!(launch, ProjectileLaunch::new(0, Character::DeeJay, false, 13));
            assert_eq!((launch.speed, launch.radius, launch.hit_radius), (365, 20, 14));
            assert_eq!(game.fighters[0].action_frame, 9);
        }
    }
    assert_eq!(launches, 1);
    assert_eq!(game.fighters[0].state, State::Special(0));
    game.update_fighter(0, idle_controls(), false, false);
    assert_eq!(game.fighters[0].state, State::Idle);
}

#[test]
fn strikes_connect_once_per_window() {
    let mut game = fighting_game();
    game.fighters[0].start_action(State::Punch);
    game.fighters[0].action_frame = 6;
    assert!(game.resolve_strikes([false, false], [false, false]).is_none());
    let report = game.resolve_strikes([true, false], [false, false]).unwrap();
    assert_eq!((report.attacker, report.defender), (0, 1));
    assert!(!report.blocked && !report.knocked_out && !report.heavy && !report.kick);
    assert_eq!((report.knockback, report.hit_y), (190, 112));
    assert_eq!(game.fighters[1].health, 93);
    assert_eq!(game.fighters[1].state, State::Hit);
    assert_eq!(game.fighters[0].meter, 13);
    assert_eq!(game.hitstop, 4);
    assert!(game.resolve_strikes([true, false], [false, false]).is_none());

    let mut guarded = fighting_game();
    guarded.fighters[1].start_action(State::Kick);
    guarded.fighters[1].action_frame = 9;
    guarded.fighters[0].state = State::CrouchBlock;
    let report = guarded.resolve_strikes([false, true], [false, false]).unwrap();
    assert!(report.blocked && report.kick);
    assert_eq!(guarded.fighters[0].health, 98);
    assert_eq!(guarded.hitstop, 3);
}

#[test]
fn projectiles_hit_and_knock_out() {
    let mut game = fighting_game();
    let impact = game.projectile_hit(0, 26, true, false);
    assert_eq!(impact.target, 1);
    assert!(!impact.blocked && !impact.knocked_out);
    assert_eq!(impact.knockback, 520);
    assert_eq!(game.fighters[1].health, 74);
    assert_eq!(game.fighters[1].action_total, 42);
    assert!(!game.fighters[1].grounded);
    assert_eq!(game.fighters[0].meter, 15);
    assert_eq!(game.hitstop, 11);

    game.fighters[0].health = 5;
    game.fighters[0].meter = MAX_METER - 2;
    let impact = game.projectile_hit(1, 13, false, false);
    assert!(impact.knocked_out);
    assert_eq!(game.fighters[0].health, 0);
    assert_eq!(game.fighters[1].meter, 15 + 8);
    assert_eq!(game.phase, Phase::Knockout { winner: 1, frames: 120 });
    assert_eq!(game.hitstop, 7);

    let mut guarded = fighting_game();
    guarded.fighters[1].state = State::Block;
    guarded.fighters[1].health = 2;
    let impact = guarded.projectile_hit(0, 13, false, false);
    assert!(impact.blocked && !impact.knocked_out);
    assert_eq!(guarded.fighters[1].health, 1);
    assert_eq!(guarded.hitstop, 3);
}

#[test]
fn facing_follows_positions() {
    let mut game = fighting_game();
    game.update_facing(false);
    assert_eq!((game.fighters[0].facing, game.fighters[1].facing), (-1, 1));
    game.update_facing(true);
    assert_eq!((game.fighters[0].facing, game.fighters[1].facing), (1, -1));
    game.land(0);
    assert!(game.fighters[0].grounded);
}

/// A 2x1 RGBA PNG: a backdrop-coloured pixel, then a red one.
const TWO_PIXEL_PNG: [u8; 74] = [
    137, 80, 78, 71, 13, 10, 26, 10, 0, 0, 0, 13, 73, 72, 68, 82, 0, 0, 0, 2, 0, 0, 0, 1, 8, 6, 0,
    0, 0, 244, 34, 127, 138, 0, 0, 0, 17, 73, 68, 65, 84, 120, 156, 99, 224, 18, 145, 251, 127,
    130, 129, 225, 63, 0, 10, 179, 3, 3, 161, 204, 228, 16, 0, 0, 0, 0, 73, 69, 78, 68, 174, 66,
    96, 130,
];

#[test]
fn sheets_are_decoded_and_lose_their_backdrop() {
    let sheet = prepare_sheet(&TWO_PIXEL_PNG).unwrap();
    assert_eq!((sheet.width, sheet.height), (2, 1));
    assert_eq!(sheet.rgba, vec![10, 20, 30, 0, 200, 0, 0, 255]);
}

#[test]
fn undecodable_sheets_are_refused() {
    assert!(prepare_sheet(&[1, 2, 3, 4, 5]).is_none());
    assert!(prepare_sheet(&TWO_PIXEL_PNG[..40]).is_none());
}
