use rust_in_peace::card::Superpower;
use rust_in_peace::player::{check_for_collisions, DamageCooldown, Player, SuperpowerCooldown};

#[test]
fn fresh_player_has_full_life_and_no_power() {
    let p = Player::default();
    assert_eq!(p.current_life, 100);
    assert_eq!(p.max_life, 100);
    assert!(!p.has_super_jump);
    assert!(!p.has_speed);
    assert!(!p.is_dead());
}

#[test]
fn a_hit_takes_thirty_and_stops_at_zero() {
    let mut p = Player::default();
    p.take_hit();
    assert_eq!(p.current_life, 70);
    p.take_hit();
    p.take_hit();
    assert_eq!(p.current_life, 10);
    p.take_hit();
    assert_eq!(p.current_life, 0);
    assert!(p.is_dead());
    p.take_hit();
    assert_eq!(p.current_life, 0);
}

#[test]
fn elixir_heals_twenty_up_to_the_maximum() {
    let mut p = Player::default();
    p.current_life = 50;
    assert!(!p.pick_up(Superpower::ELEXIR));
    assert_eq!(p.current_life, 70);
    p.current_life = 90;
    p.pick_up(Superpower::ELEXIR);
    assert_eq!(p.current_life, 100);
    p.pick_up(Superpower::ELEXIR);
    assert_eq!(p.current_life, 100);
}

#[test]
fn jump_and_speed_cards_grant_powers_and_restart_the_timer() {
    let mut p = Player::default();
    assert!(p.pick_up(Superpower::JUMP));
    assert!(p.has_super_jump);
    assert!(!p.has_speed);
    assert!(p.pick_up(Superpower::SPEEP));
    assert!(p.has_speed);
    assert_eq!(p.current_life, 100);
    p.lose_powers();
    assert!(!p.has_super_jump && !p.has_speed);
}

#[test]
fn reset_and_fall() {
    let mut p = Player::default();
    p.take_hit();
    p.reset_life();
    assert_eq!(p.current_life, 100);
    p.fall();
    assert_eq!(p.current_life, 0);
    assert!(p.is_dead());
}

fn frame(
    p: Player,
    damage: &mut DamageCooldown,
    power: &mut SuperpowerCooldown,
    ms: u64,
    enemies: u32,
    cards: &Vec<Superpower>,
) -> (Player, u32) {
    let (after, hits) = check_for_collisions(Some(p), damage, power, ms * 1_000_000, enemies, cards);
    (after.unwrap(), hits)
}

#[test]
fn damage_cooldown_allows_one_hit_per_second() {
    let p = Player::default();
    let mut damage = DamageCooldown::default();
    let mut power = SuperpowerCooldown::default();
    // The shield has not run out yet.
    let (p, hits) = frame(p, &mut damage, &mut power, 500, 3, &vec![]);
    assert_eq!(hits, 0);
    assert_eq!(p.current_life, 100);
    // Half a second later it has: one hit only, however many enemies touch.
    let (p, hits) = frame(p, &mut damage, &mut power, 500, 3, &vec![]);
    assert_eq!(hits, 1);
    assert_eq!(p.current_life, 70);
    let (p, hits) = frame(p, &mut damage, &mut power, 10, 1, &vec![]);
    assert_eq!(hits, 0);
    let (p, hits) = frame(p, &mut damage, &mut power, 1000, 1, &vec![]);
    assert_eq!(hits, 1);
    assert_eq!(p.current_life, 40);
}

#[test]
fn cards_are_applied_in_order_after_hits() {
    let mut damage = DamageCooldown::default();
    let mut power = SuperpowerCooldown::default();
    let (p, hits) = frame(
        Player::default(),
        &mut damage,
        &mut power,
        1000,
        1,
        &vec![Superpower::ELEXIR, Superpower::JUMP],
    );
    assert_eq!(hits, 1);
    assert_eq!(p.current_life, 90);
    assert!(p.has_super_jump);
    assert!(!p.has_speed);
}

#[test]
fn powers_wear_off_after_ten_seconds() {
    let mut damage = DamageCooldown::default();
    let mut power = SuperpowerCooldown::default();
    let (p, _) = frame(Player::default(), &mut damage, &mut power, 0, 0, &vec![Superpower::SPEEP]);
    assert!(p.has_speed);
    let (p, _) = frame(p, &mut damage, &mut power, 9000, 0, &vec![]);
    assert!(p.has_speed);
    let (p, _) = frame(p, &mut damage, &mut power, 1000, 0, &vec![]);
    assert!(!p.has_speed);
    assert!(!p.has_super_jump);
}

#[test]
fn no_power_wears_off_on_the_first_frame() {
    let mut p = Player::default();
    p.has_super_jump = true;
    let mut damage = DamageCooldown::default();
    let mut power = SuperpowerCooldown::default();
    let (p, _) = frame(p, &mut damage, &mut power, 16, 0, &vec![]);
    assert!(p.has_super_jump);
}

#[test]
fn without_a_player_only_the_timers_run() {
    let mut damage = DamageCooldown::default();
    let mut power = SuperpowerCooldown::default();
    let (after, hits) = check_for_collisions(None, &mut damage, &mut power, 1_000_000_000, 2, &vec![Superpower::JUMP]);
    assert_eq!(after, None);
    assert_eq!(hits, 0);
    // The shield ran out meanwhile: the next contact hurts.
    let (_, hits) = frame(Player::default(), &mut damage, &mut power, 0, 1, &vec![]);
    assert_eq!(hits, 1);
}
