use alpha_fighter::animation::{animation_frames, sprite_flip_x};
use alpha_fighter::fighter::{hurtbox, Fighter, COMBO_LINK_FRAMES, MAX_METER};
use alpha_fighter::game::{Game, Phase, ProjectileLaunch};
use alpha_fighter::moves::{combo_state, ComboKind, State};
use alpha_fighter::roster::Character;

const FLOOR_Y: f32 = 535.0;
const GRAVITY: f32 = 1_650.0;
const JUMP_SPEED: f32 = 700.0;

#[test]
fn crouching_renders_shorter_than_idle() {
    for character in Character::all() {
        let mut fighter = Fighter::new(character, 1);
        let standing_height = hurtbox(&fighter).height as f32;
        fighter.state = State::Crouch;
        let crouching_height = hurtbox(&fighter).height as f32;
        assert!(
            crouching_height <= standing_height * 0.75,
            "{} crouch should have a substantially shorter hurtbox",
            character.name()
        );
    }
}

#[test]
fn super_requires_a_full_meter() {
    let mut fighter = Fighter::new(Character::Rose, 1);
    assert!(fighter.meter < MAX_METER);
    fighter.meter = MAX_METER;
    fighter.start_action(State::Super);
    assert_eq!(fighter.state, State::Super);
}

#[test]
fn damage_never_makes_health_negative() {
    let mut fighter = Fighter::new(Character::Cammy, 1);
    fighter.receive_hit(500, 10, false);
    assert_eq!(fighter.health, 0);
    assert_eq!(fighter.state, State::KnockedOut);
}

#[test]
fn standing_combo_stages_are_separate_attacks() {
    assert_eq!(combo_state(ComboKind::Punch, 0), State::Punch);
    assert_eq!(combo_state(ComboKind::Punch, 1), State::PunchMedium);
    assert_eq!(combo_state(ComboKind::Punch, 2), State::PunchHeavy);
    assert_eq!(combo_state(ComboKind::Kick, 0), State::Kick);
    assert_eq!(combo_state(ComboKind::Kick, 1), State::KickMedium);
    assert_eq!(combo_state(ComboKind::Kick, 2), State::KickHeavy);

    assert_eq!(animation_frames(Character::Cammy, State::Punch), vec![86, 87]);
    assert_eq!(
        animation_frames(Character::Cammy, State::PunchMedium),
        vec![88, 89]
    );

    let mut fighter = Fighter::new(Character::Cammy, 1);
    fighter.start_combo_stage(ComboKind::Punch, 0);
    fighter.finish_combo_stage();
    assert_eq!(fighter.combo_timer, COMBO_LINK_FRAMES);
    assert_eq!(fighter.next_combo_step(ComboKind::Punch), 1);
    assert_eq!(fighter.next_combo_step(ComboKind::Kick), 0);
}

#[test]
fn rose_super_uses_its_left_facing_source_orientation() {
    assert!(sprite_flip_x(Character::Rose, State::Super, 1));
    assert!(!sprite_flip_x(Character::Rose, State::Super, -1));
    assert!(!sprite_flip_x(Character::Rose, State::Idle, 1));
}

#[test]
fn super_meter_carries_between_rounds_but_not_into_a_new_match() {
    let mut game = Game::new();
    game.fighters[0].meter = MAX_METER;
    game.fighters[1].meter = 43;
    game.reset_round(true);
    assert_eq!(game.fighters[0].meter, MAX_METER);
    assert_eq!(game.fighters[1].meter, 43);

    game.reset_round(false);
    assert_eq!(game.fighters[0].meter, 0);
    assert_eq!(game.fighters[1].meter, 0);
}

#[test]
fn every_character_has_a_victory_animation() {
    for character in Character::all() {
        assert!(animation_frames(character, State::Victory).len() > 1);
    }
}

#[test]
fn returning_to_character_select_resets_match_flow() {
    let mut game = Game::new();
    game.phase = Phase::Fight;
    game.paused = true;
    game.locked = [true, true];
    game.wins = [1, 1];
    game.round = 3;

    game.return_to_character_select();

    assert!(matches!(game.phase, Phase::Select));
    assert!(!game.paused);
    assert_eq!(game.locked, [false, false]);
    assert_eq!(game.wins, [0, 0]);
    assert_eq!(game.round, 1);
}

#[test]
fn a_preemptive_jump_clears_even_the_super_projectile_hitbox() {
    let apex_y = FLOOR_Y - JUMP_SPEED * JUMP_SPEED / (2.0 * GRAVITY);
    let mut fighter = Fighter::new(Character::FeiLong, 1);
    fighter.grounded = false;
    fighter.state = State::Jump;
    let body = hurtbox(&fighter);
    let projectile = ProjectileLaunch::new(0, Character::DeeJay, true, 26);
    assert_eq!(projectile.hit_radius, 22);
    assert_eq!(projectile.height, 103);

    // The fighter stands at x = 300 on its jump's apex; the projectile
    // hangs at x = 300, fired from a fighter standing on the floor.
    let fighter_rect = (
        300.0 - body.left as f32,
        apex_y - body.top as f32,
        body.width as f32,
        body.height as f32,
    );
    let radius = projectile.hit_radius as f32;
    let projectile_rect = (
        300.0 - radius,
        FLOOR_Y - projectile.height as f32 - radius,
        radius * 2.0,
        radius * 2.0,
    );
    let overlap = fighter_rect.0 < projectile_rect.0 + projectile_rect.2
        && fighter_rect.0 + fighter_rect.2 > projectile_rect.0
        && fighter_rect.1 < projectile_rect.1 + projectile_rect.3
        && fighter_rect.1 + fighter_rect.3 > projectile_rect.1;
    assert!(!overlap);
}
