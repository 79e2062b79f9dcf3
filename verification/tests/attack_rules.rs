use rust_in_peace::attack::{
    apply_shot, attack_state_machine, attack_step, fire_interval_ns, shot_style, AnimOp, ArmsClip,
    AttackInput, AttackState, FireRate, ShotSound, TracerColor,
};

fn input(just_pressed: bool, pressed: bool, just_released: bool, raise_halfway: bool, lowered: bool) -> AttackInput {
    AttackInput { just_pressed, pressed, just_released, raise_halfway, lowered }
}

#[test]
fn the_cycle_starts_at_rest() {
    assert_eq!(AttackState::default(), AttackState::Idle);
}

#[test]
fn a_click_at_rest_raises_the_weapon() {
    let s = attack_step(AttackState::Idle, input(true, true, false, false, false), false);
    assert_eq!(s.next, AttackState::Raising);
    assert_eq!(s.ops, vec![AnimOp::Stop(ArmsClip::Idle), AnimOp::Play(ArmsClip::RaiseAttack)]);
    assert!(!s.fire);
    let s = attack_step(AttackState::Idle, input(false, false, false, false, false), true);
    assert_eq!(s.next, AttackState::Idle);
    assert!(s.ops.is_empty());
}

#[test]
fn raising_then_attacking_while_held() {
    let s = attack_step(AttackState::Raising, input(false, true, false, false, false), false);
    assert_eq!(s.next, AttackState::Raising);
    assert_eq!(s.ops, vec![AnimOp::Accelerate(ArmsClip::RaiseAttack)]);
    let s = attack_step(AttackState::Raising, input(false, true, false, true, false), false);
    assert_eq!(s.next, AttackState::Attacking);
    assert_eq!(
        s.ops,
        vec![
            AnimOp::Accelerate(ArmsClip::RaiseAttack),
            AnimOp::Stop(ArmsClip::RaiseAttack),
            AnimOp::PlayRepeating(ArmsClip::Attack)
        ]
    );
}

#[test]
fn raising_then_lowering_when_let_go() {
    let s = attack_step(AttackState::Raising, input(false, false, false, true, false), false);
    assert_eq!(s.next, AttackState::Lowering);
    assert_eq!(s.ops, vec![AnimOp::Accelerate(ArmsClip::RaiseAttack), AnimOp::Reverse(ArmsClip::RaiseAttack)]);
    let s = attack_step(AttackState::Raising, input(false, false, true, false, false), false);
    assert_eq!(s.next, AttackState::Lowering);
    assert_eq!(s.ops, vec![AnimOp::Accelerate(ArmsClip::RaiseAttack), AnimOp::Reverse(ArmsClip::RaiseAttack)]);
}

#[test]
fn attacking_fires_only_when_held_and_ready() {
    let s = attack_step(AttackState::Attacking, input(false, true, false, false, false), true);
    assert!(s.fire);
    assert_eq!(s.next, AttackState::Attacking);
    let s = attack_step(AttackState::Attacking, input(false, true, false, false, false), false);
    assert!(!s.fire);
    let s = attack_step(AttackState::Attacking, input(false, false, true, false, false), true);
    assert!(!s.fire);
    assert_eq!(s.next, AttackState::Lowering);
    assert_eq!(
        s.ops,
        vec![
            AnimOp::Stop(ArmsClip::Attack),
            AnimOp::Play(ArmsClip::RaiseAttack),
            AnimOp::Reverse(ArmsClip::RaiseAttack),
            AnimOp::SeekHalfway(ArmsClip::RaiseAttack)
        ]
    );
}

#[test]
fn lowering_back_to_rest_or_raising_again() {
    let s = attack_step(AttackState::Lowering, input(false, true, false, false, false), true);
    assert_eq!(s.next, AttackState::Raising);
    assert!(s.ops.is_empty());
    let s = attack_step(AttackState::Lowering, input(false, false, false, false, true), true);
    assert_eq!(s.next, AttackState::Idle);
    assert_eq!(s.ops, vec![AnimOp::Stop(ArmsClip::RaiseAttack), AnimOp::PlayRepeating(ArmsClip::Idle)]);
    let s = attack_step(AttackState::Lowering, input(false, false, false, false, false), true);
    assert_eq!(s.next, AttackState::Lowering);
}

#[test]
fn fire_interval_depends_on_speed() {
    assert_eq!(fire_interval_ns(false), 100_000_000);
    assert_eq!(fire_interval_ns(true), 60_000_000);
}

#[test]
fn shot_style_depends_on_speed() {
    let s = shot_style(true);
    assert_eq!(s.second_tracer, TracerColor::Red);
    assert_eq!(s.sound, ShotSound::Fast);
    let s = shot_style(false);
    assert_eq!(s.second_tracer, TracerColor::Blue);
    assert_eq!(s.sound, ShotSound::Normal);
}

#[test]
fn a_shot_takes_ten_life() {
    assert_eq!(apply_shot(100), (90, false));
    assert_eq!(apply_shot(10), (0, true));
    assert_eq!(apply_shot(5), (-5, true));
}

#[test]
fn the_machine_fires_on_the_fire_timer() {
    let mut state = AttackState::Attacking;
    let mut rate = FireRate::default();
    let held = vec![input(false, true, false, false, false)];
    let steps = attack_state_machine(&mut state, &mut rate, 50_000_000, Some(false), &held);
    assert_eq!(steps.len(), 1);
    assert!(!steps[0].fire);
    let steps = attack_state_machine(&mut state, &mut rate, 50_000_000, Some(false), &held);
    assert!(steps[0].fire);
    assert_eq!(state, AttackState::Attacking);
}

#[test]
fn the_machine_only_ticks_without_a_player() {
    let mut state = AttackState::Idle;
    let mut rate = FireRate::default();
    let steps = attack_state_machine(
        &mut state,
        &mut rate,
        50_000_000,
        None,
        &vec![input(true, true, false, false, false)],
    );
    assert!(steps.is_empty());
    assert_eq!(state, AttackState::Idle);
}

#[test]
fn the_machine_threads_state_through_animation_players() {
    let mut state = AttackState::Idle;
    let mut rate = FireRate::default();
    let inputs = vec![input(true, true, false, false, false), input(false, true, false, true, false)];
    let steps = attack_state_machine(&mut state, &mut rate, 1_000_000, Some(false), &inputs);
    assert_eq!(steps.len(), 2);
    assert_eq!(steps[0].next, AttackState::Raising);
    assert_eq!(steps[1].next, AttackState::Attacking);
    assert_eq!(state, AttackState::Attacking);
}
