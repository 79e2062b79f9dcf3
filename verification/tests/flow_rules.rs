use rust_in_peace::camera::{
    movement_intent, MoveIntent, MoveKeys,
    jump_starts, movement_tuning, toggle_arms_visibility, toggle_camera_mode, toggle_grab_cursor,
    ArmsVisibility, CameraMode, CursorGrab, CursorState, ModeSwitch, MovementTuning,
};
use rust_in_peace::card::{LastCardSpawned, Rgb8, Superpower};
use rust_in_peace::enemy::SkullEnemy;
use rust_in_peace::player::Player;
use rust_in_peace::scene::{
    adjust_spawn_rate, card_luck, card_spawn_interval, check_player_death, clock_text,
    enemy_spawn_interval, rank, reset_input, setup_game_over, spawn_entities, wave_for,
    CardSpawnTimer, EnemySpawnTimer, GameEvent, GameState, Trophy, Wave,
};
use rust_in_peace::ui::{health_text, update_game_timer, update_superpower_ui, GameTimer, PowerLabel};

#[test]
fn screens() {
    assert_eq!(GameState::default(), GameState::Menu);
    assert_eq!(GameState::Menu.on_event(GameEvent::Start), GameState::Playing);
    assert_eq!(GameState::Playing.on_event(GameEvent::Start), GameState::Playing);
    assert_eq!(GameState::Playing.on_event(GameEvent::PlayerDied), GameState::GameOver);
    assert_eq!(GameState::GameOver.on_event(GameEvent::Start), GameState::Playing);
    assert_eq!(GameState::Menu.on_event(GameEvent::PlayerDied), GameState::Menu);
    let mut p = Player::default();
    assert_eq!(check_player_death(&p), None);
    p.fall();
    assert_eq!(check_player_death(&p), Some(GameState::GameOver));
    assert_eq!(reset_input(true), Some(GameState::Playing));
    assert_eq!(reset_input(false), None);
}

#[test]
fn waves_grow_at_their_thresholds() {
    assert_eq!(wave_for(0), Wave { skulls: 2, elites: 0, skeletons: 0 });
    assert_eq!(wave_for(30_000_000_000), Wave { skulls: 2, elites: 0, skeletons: 0 });
    assert_eq!(wave_for(30_000_000_001), Wave { skulls: 2, elites: 0, skeletons: 1 });
    assert_eq!(wave_for(150_000_000_000), Wave { skulls: 2, elites: 0, skeletons: 1 });
    assert_eq!(wave_for(200_000_000_000), Wave { skulls: 3, elites: 0, skeletons: 1 });
    assert_eq!(wave_for(600_000_000_000), Wave { skulls: 4, elites: 2, skeletons: 1 });
    assert_eq!(wave_for(600_000_000_001), Wave { skulls: 5, elites: 2, skeletons: 3 });
}

#[test]
fn card_luck_grows_and_always_wins() {
    assert_eq!(card_luck(0), 10);
    assert_eq!(card_luck(150_000_000_001), 25);
    assert_eq!(card_luck(300_000_000_001), 50);
    assert_eq!(card_luck(600_000_000_001), 100);
}

#[test]
fn spawn_intervals_shrink_with_time() {
    assert_eq!(enemy_spawn_interval(0), 8_000_000_000);
    assert_eq!(enemy_spawn_interval(120_000_000_000), 7_000_000_000);
    assert_eq!(enemy_spawn_interval(720_000_000_000), 2_000_000_000);
    assert_eq!(enemy_spawn_interval(u64::MAX), 2_000_000_000);
    assert_eq!(card_spawn_interval(0), 20_000_000_000);
    assert_eq!(card_spawn_interval(100_000_000_000), 19_000_000_000);
    assert_eq!(card_spawn_interval(1_200_000_000_000), 8_000_000_000);
    assert_eq!(card_spawn_interval(u64::MAX), 8_000_000_000);
}

#[test]
fn spawn_rate_follows_the_clock() {
    let mut enemies = EnemySpawnTimer::new();
    let mut cards = CardSpawnTimer::new();
    let mut clock = GameTimer::new();
    update_game_timer(&mut clock, 240_000_000_000);
    assert_eq!(adjust_spawn_rate(&mut enemies, &mut cards, &clock), (240_000_000_000, 6_000_000_000, 17_600_000_000));
}

#[test]
fn waves_and_cards_come_on_their_timers() {
    let mut enemies = EnemySpawnTimer::new();
    let mut cards = CardSpawnTimer::new();
    let clock = GameTimer::new();
    let mut last = LastCardSpawned::default();
    let plan = spawn_entities(&mut enemies, &mut cards, &clock, &mut last, 1_000_000_000);
    assert!(plan.wave.is_none());
    assert_eq!(plan.card, None);
    assert_eq!(last.last_power, None);
    let plan = spawn_entities(&mut enemies, &mut cards, &clock, &mut last, 7_000_000_000);
    let wave = plan.wave.unwrap();
    assert_eq!(wave.wave, Wave { skulls: 2, elites: 0, skeletons: 0 });
    assert_eq!(wave.skulls, vec![SkullEnemy::default(); 2]);
    assert!(wave.skeletons.is_empty());
    assert!(wave.sound < 5);
    assert_eq!(plan.card, None);
    let plan = spawn_entities(&mut enemies, &mut cards, &clock, &mut last, 12_000_000_000);
    let card = plan.card.unwrap();
    assert_eq!(last.last_power, Some(card));
    let plan = spawn_entities(&mut enemies, &mut cards, &clock, &mut last, 20_000_000_000);
    assert_ne!(plan.card.unwrap(), card);
}

#[test]
fn trophies() {
    assert_eq!(rank(299_999_999_999), None);
    assert_eq!(rank(300_000_000_000), Some(Trophy::Bronze));
    assert_eq!(rank(600_000_000_000), Some(Trophy::Silver));
    assert_eq!(rank(899_999_999_999), Some(Trophy::Silver));
    assert_eq!(rank(900_000_000_000), Some(Trophy::Gold));
    assert_eq!(Trophy::Gold.time_seconds(), 900);
    assert_eq!(Trophy::Bronze.sprite(), "sprites/bronze-trophy.png");
    assert_eq!(Trophy::Silver.sentence(), "Not bad, but your sister did better yesterday !");
}

#[test]
fn clock_texts() {
    assert_eq!(clock_text(0), "00:00");
    assert_eq!(clock_text(65_999_999_999), "01:05");
    assert_eq!(clock_text(600_000_000_000), "10:00");
    assert_eq!(clock_text(6_000_000_000_000), "100:00");
}

#[test]
fn game_over_screen() {
    let mut clock = GameTimer::new();
    let (ns, text) = update_game_timer(&mut clock, 905_500_000_000);
    assert_eq!(ns, 905_500_000_000);
    assert_eq!(text, "15:05");
    let (_, summary) = setup_game_over(&clock);
    assert_eq!(summary.time_text, "Time : 15:05");
    assert_eq!(summary.trophy, Some(Trophy::Gold));
    rust_in_peace::ui::reset_game_timer(&mut clock);
    assert_eq!(clock.elapsed_ms(), 0);
}

#[test]
fn life_text() {
    let mut p = Player::default();
    assert_eq!(health_text(&p), "100 / 100");
    p.take_hit();
    assert_eq!(health_text(&p), "70 / 100");
    p.fall();
    assert_eq!(health_text(&p), "0 / 100");
}

#[test]
fn power_label() {
    let mut p = Player::default();
    p.has_super_jump = true;
    let (label, color) = update_superpower_ui(PowerLabel::Blank, &vec![Superpower::JUMP], &p);
    assert_eq!(label, PowerLabel::Jump);
    assert_eq!(label.text(), "J");
    assert_eq!(color, Some(Rgb8 { r: 56, g: 89, b: 179 }));
    let (label, color) = update_superpower_ui(label, &vec![Superpower::ELEXIR], &p);
    assert_eq!(label, PowerLabel::Jump);
    assert_eq!(color, Some(Rgb8 { r: 255, g: 0, b: 0 }));
    p.has_super_jump = false;
    let (label, color) = update_superpower_ui(label, &vec![], &p);
    assert_eq!(label, PowerLabel::Blank);
    assert_eq!(label.text(), "");
    assert_eq!(color, None);
    p.has_speed = true;
    let (label, _) = update_superpower_ui(PowerLabel::Blank, &vec![Superpower::SPEEP], &p);
    assert_eq!(label.text(), "S");
}

#[test]
fn cursor_and_camera_toggles() {
    let locked = CursorState { grab: CursorGrab::Locked, visible: false };
    let freed = toggle_grab_cursor(locked, true);
    assert_eq!(freed, CursorState { grab: CursorGrab::Free, visible: true });
    assert_eq!(toggle_grab_cursor(freed, true), locked);
    assert_eq!(toggle_grab_cursor(CursorState { grab: CursorGrab::Confined, visible: true }, true), locked);
    assert_eq!(toggle_grab_cursor(locked, false), locked);
    assert_eq!(
        toggle_camera_mode(CameraMode::Fps, true),
        Some(ModeSwitch { mode: CameraMode::Free, cursor_visible: true, back_to_standing_height: false })
    );
    assert_eq!(
        toggle_camera_mode(CameraMode::Free, true),
        Some(ModeSwitch { mode: CameraMode::Fps, cursor_visible: false, back_to_standing_height: true })
    );
    assert_eq!(toggle_camera_mode(CameraMode::Free, false), None);
    assert_eq!(toggle_arms_visibility(CameraMode::Fps), ArmsVisibility::Inherited);
    assert_eq!(toggle_arms_visibility(CameraMode::Free), ArmsVisibility::Hidden);
}

#[test]
fn movement_figures_follow_the_powers() {
    let mut p = Player::default();
    assert_eq!(movement_tuning(&p), MovementTuning { jump_force: 6, gravity: 20, speed_factor: 1 });
    p.has_super_jump = true;
    p.has_speed = true;
    assert_eq!(movement_tuning(&p), MovementTuning { jump_force: 20, gravity: 16, speed_factor: 2 });
    assert!(jump_starts(true, true));
    assert!(!jump_starts(true, false));
    assert!(!jump_starts(false, true));
}

fn keys() -> MoveKeys {
    MoveKeys { w: false, z: false, s: false, a: false, q: false, d: false, space: false, shift: false }
}

#[test]
fn qwerty_and_azerty_move_alike() {
    let qwerty = MoveKeys { w: true, a: true, ..keys() };
    let azerty = MoveKeys { z: true, q: true, ..keys() };
    let expected = MoveIntent { forward: 1, right: -1, up: 0 };
    assert_eq!(movement_intent(qwerty, CameraMode::Fps), expected);
    assert_eq!(movement_intent(azerty, CameraMode::Fps), expected);
    let back_right = MoveKeys { s: true, d: true, ..keys() };
    assert_eq!(movement_intent(back_right, CameraMode::Fps), MoveIntent { forward: -1, right: 1, up: 0 });
    let both = MoveKeys { w: true, s: true, ..keys() };
    assert_eq!(movement_intent(both, CameraMode::Fps).forward, 0);
    let rise = MoveKeys { space: true, ..keys() };
    assert_eq!(movement_intent(rise, CameraMode::Fps).up, 0);
    assert_eq!(movement_intent(rise, CameraMode::Free).up, 1);
    let sink = MoveKeys { shift: true, ..keys() };
    assert_eq!(movement_intent(sink, CameraMode::Free).up, -1);
}

#[test]
fn the_round_clock_counts_nanoseconds_and_resets() {
    let mut clock = GameTimer::new();
    assert_eq!(clock.0, 0);
    assert_eq!(clock.elapsed_ms(), 0);
    clock.tick(16_666_667);
    clock.tick(16_666_667);
    assert_eq!(clock.0, 33_333_334);
    assert_eq!(clock.elapsed_ms(), 33);
    clock.tick(u64::MAX);
    assert_eq!(clock.0, u64::MAX);
    rust_in_peace::ui::reset_game_timer(&mut clock);
    assert_eq!(clock.0, 0);
}

#[test]
fn spawning_reads_the_round_clock() {
    let mut enemies = EnemySpawnTimer::new();
    let mut cards = CardSpawnTimer::new();
    let mut clock = GameTimer::new();
    clock.tick(31_000_000_000);
    let mut last = LastCardSpawned::default();
    let plan = spawn_entities(&mut enemies, &mut cards, &clock, &mut last, 8_000_000_000);
    assert_eq!(plan.elapsed_ns, 31_000_000_000);
    assert_eq!(plan.wave.unwrap().wave, Wave { skulls: 2, elites: 0, skeletons: 1 });
}

#[test]
fn thresholds_read_the_exact_time() {
    // Half a millisecond past 30 s the skeleton already joins.
    assert_eq!(wave_for(30_000_500_000), Wave { skulls: 2, elites: 0, skeletons: 1 });
    assert_eq!(wave_for(150_000_000_001), Wave { skulls: 3, elites: 0, skeletons: 1 });
    assert_eq!(card_luck(150_000_000_000), 10);
    assert_eq!(card_luck(150_000_000_001), 25);
    assert_eq!(rank(300_000_000_000 - 1), None);
}

#[test]
fn spawn_rate_sets_the_timers() {
    // After 10 minutes the enemy interval is 3 s: a wave comes 3 s later.
    let mut enemies = EnemySpawnTimer::new();
    let mut cards = CardSpawnTimer::new();
    let mut clock = GameTimer::new();
    clock.tick(600_000_000_000);
    let (_, enemy_ns, card_ns) = adjust_spawn_rate(&mut enemies, &mut cards, &clock);
    assert_eq!(enemy_ns, 3_000_000_000);
    assert_eq!(card_ns, 14_000_000_000);
    let mut last = LastCardSpawned::default();
    let plan = spawn_entities(&mut enemies, &mut cards, &clock, &mut last, 2_999_999_999);
    assert!(plan.wave.is_none());
    let plan = spawn_entities(&mut enemies, &mut cards, &clock, &mut last, 1);
    let wave = plan.wave.unwrap();
    assert_eq!(wave.wave, Wave { skulls: 4, elites: 2, skeletons: 1 });
    let plain = SkullEnemy::default();
    let elite = SkullEnemy::elite();
    assert_eq!(wave.skulls, vec![plain, plain, plain, plain, elite, elite]);
    assert_eq!(elite.life, 200);
    assert_eq!(wave.skeletons.len(), 1);
    assert_eq!(wave.skeletons[0].life, 300);
    assert_eq!(plan.card, None);
    let plan = spawn_entities(&mut enemies, &mut cards, &clock, &mut last, 11_000_000_000);
    assert!(plan.card.is_some());
}

#[test]
fn menu_labels() {
    assert_eq!(Trophy::Bronze.menu_label(), " : 5 min ");
    assert_eq!(Trophy::Silver.menu_label(), " : 10 min");
    assert_eq!(Trophy::Gold.menu_label(), " : 15 min");
}
