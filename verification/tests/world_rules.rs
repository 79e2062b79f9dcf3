use rust_in_peace::card::{
    card_texture, draw_card, power_from_roll, LastCardSpawned, Rgb8, Superpower,
};
use rust_in_peace::enemy::{fire_volley, volley_lands, ShotOutcome, SkeletonEnemy, SkullEnemy};
use rust_in_peace::hierarchy::{
    animation_bindings, belongs_to_ground, first_enemy, over_ground, AnimBinding, NodeRole, RayHit,
};

#[test]
fn card_colors() {
    assert_eq!(Superpower::ELEXIR.color(), Rgb8 { r: 255, g: 0, b: 0 });
    assert_eq!(Superpower::SPEEP.color(), Rgb8 { r: 35, g: 144, b: 99 });
    assert_eq!(Superpower::JUMP.color(), Rgb8 { r: 56, g: 89, b: 179 });
}

#[test]
fn card_textures() {
    assert_eq!(card_texture(Superpower::ELEXIR), "sprites/coeur.png");
    assert_eq!(card_texture(Superpower::SPEEP), "sprites/speed.png");
    assert_eq!(card_texture(Superpower::JUMP), "sprites/jump.png");
}

#[test]
fn rolls_name_powers() {
    assert_eq!(power_from_roll(0), Superpower::ELEXIR);
    assert_eq!(power_from_roll(1), Superpower::SPEEP);
    assert_eq!(power_from_roll(2), Superpower::JUMP);
}

#[test]
fn the_same_card_never_comes_twice_in_a_row() {
    let mut last = LastCardSpawned::default();
    assert_eq!(last.last_power, None);
    let mut previous: Option<Superpower> = None;
    let mut seen = [false; 3];
    for _ in 0..200 {
        let p = draw_card(&mut last);
        assert_ne!(Some(p), previous);
        assert_eq!(last.last_power, Some(p));
        previous = Some(p);
        seen[match p { Superpower::ELEXIR => 0, Superpower::SPEEP => 1, Superpower::JUMP => 2 }] = true;
    }
    assert_eq!(seen, [true, true, true]);
}

#[test]
fn skulls_die_on_the_tenth_shot() {
    let mut s = SkullEnemy::default();
    assert_eq!(s, SkullEnemy { elite: false, life: 100, extra_life: 100 });
    for _ in 0..9 {
        assert_eq!(s.take_shot(), ShotOutcome::Wounded);
    }
    assert_eq!(s.life, 10);
    assert_eq!(s.take_shot(), ShotOutcome::Killed);
    assert_eq!(s.life, 0);
}

#[test]
fn elite_skulls_have_double_life() {
    let mut s = SkullEnemy::elite();
    assert!(s.elite);
    assert_eq!(s.life, 200);
    for _ in 0..19 {
        assert_eq!(s.take_shot(), ShotOutcome::Wounded);
    }
    assert_eq!(s.take_shot(), ShotOutcome::Killed);
}

#[test]
fn skeletons_take_thirty_shots() {
    let mut s = SkeletonEnemy::default();
    assert_eq!(s.life, 300);
    for _ in 0..29 {
        assert_eq!(s.take_shot(), ShotOutcome::Wounded);
    }
    assert_eq!(s.take_shot(), ShotOutcome::Killed);
}

#[test]
fn skeletons_turn_every_second_or_when_without_heading() {
    let mut s = SkeletonEnemy::default();
    assert!(s.redirect_due(0, true));
    assert!(!s.redirect_due(500_000_000, false));
    assert!(s.redirect_due(500_000_000, false));
    assert!(!s.redirect_due(10_000_000, false));
}

#[test]
fn a_hit_on_a_mesh_finds_the_enemy_above_it() {
    let chain = vec![NodeRole::Other, NodeRole::Other, NodeRole::Skeleton, NodeRole::Other];
    assert_eq!(first_enemy(&chain), Some(2));
    let chain = vec![NodeRole::Skull];
    assert_eq!(first_enemy(&chain), Some(0));
    let chain = vec![NodeRole::Other, NodeRole::Ground];
    assert_eq!(first_enemy(&chain), None);
    assert_eq!(first_enemy(&vec![]), None);
}

#[test]
fn ground_is_found_above_its_meshes() {
    assert!(belongs_to_ground(&vec![NodeRole::Other, NodeRole::Ground]));
    assert!(!belongs_to_ground(&vec![NodeRole::Other, NodeRole::Skull]));
}

#[test]
fn standing_over_ground_uses_the_nearest_ground_hit() {
    let hits = vec![
        RayHit { chain: vec![NodeRole::Skull], close: true },
        RayHit { chain: vec![NodeRole::Other, NodeRole::Ground], close: true },
    ];
    assert!(over_ground(&hits));
    let hits = vec![
        RayHit { chain: vec![NodeRole::Ground], close: false },
        RayHit { chain: vec![NodeRole::Ground], close: true },
    ];
    assert!(!over_ground(&hits));
    assert!(!over_ground(&vec![RayHit { chain: vec![NodeRole::Skull], close: true }]));
    assert!(!over_ground(&vec![]));
}

#[test]
fn animation_players_bind_to_their_ancestors() {
    let chain = vec![NodeRole::Arms, NodeRole::Other, NodeRole::Arms];
    assert_eq!(animation_bindings(&chain), vec![(2, AnimBinding::Arms)]);
    let chain = vec![NodeRole::Other, NodeRole::Skeleton, NodeRole::Other];
    assert_eq!(animation_bindings(&chain), vec![(1, AnimBinding::Skeleton)]);
    assert!(animation_bindings(&vec![NodeRole::Skeleton]).is_empty());
    assert!(animation_bindings(&vec![]).is_empty());
}

#[test]
fn a_volley_lands_hit_by_hit() {
    use_volley();
}

fn use_volley() {
    let mut lives: Vec<i16> = vec![20, 100];
    let targets: Vec<usize> = vec![0, 1, 0, 0];
    assert!(volley_lands(&lives, &targets));
    let outcomes = fire_volley(&mut lives, &targets);
    assert_eq!(lives, vec![-10, 90]);
    assert_eq!(
        outcomes,
        vec![ShotOutcome::Wounded, ShotOutcome::Wounded, ShotOutcome::Killed, ShotOutcome::Killed]
    );
    assert!(!volley_lands(&vec![i16::MIN + 5], &vec![0]));
    assert!(!volley_lands(&vec![100], &vec![1]));
    assert!(volley_lands(&vec![], &vec![]));
}
