//! The arms' attack cycle: raise the weapon, fire while the button is held,
//! lower it again; and what a shot does to an enemy.

use crate::timekeeping::{after_tick, fresh_timer, with_duration, Countdown, TimerKind};
use vstd::prelude::*;

verus! {

/// Time between two shots, in nanoseconds.
pub const FIRE_INTERVAL_NS: u64 = 100_000_000;

/// Time between two shots while the speed power is active, in nanoseconds.
pub const FAST_FIRE_INTERVAL_NS: u64 = 60_000_000;

/// Life a shot takes from an enemy.
pub const SHOT_DAMAGE: i16 = 10;

/// Where the arms are in their attack cycle.
#[derive(Clone, Copy, Debug, PartialEq, Eq, Structural)]
pub enum AttackState {
    Idle,
    Raising,
    Attacking,
    Lowering,
}

impl Default for AttackState {
    /// The cycle starts at rest.
    fn default() -> (s: AttackState)
        ensures
            s == AttackState::Idle,
    {
        AttackState::Idle
    }
}

/// The three animation clips of the arms.
#[derive(Clone, Copy, Debug, PartialEq, Eq, Structural)]
pub enum ArmsClip {
    Idle,
    RaiseAttack,
    Attack,
}

/// An order to the arms' animation player.
///
/// `Accelerate` plays the clip at twice its speed, `Reverse` plays it
/// backwards at normal speed, `SeekHalfway` moves it to the point where the
/// weapon is raised; each of these applies only if the clip is playing.
#[derive(Clone, Copy, Debug, PartialEq, Eq, Structural)]
pub enum AnimOp {
    Stop(ArmsClip),
    Play(ArmsClip),
    PlayRepeating(ArmsClip),
    Accelerate(ArmsClip),
    Reverse(ArmsClip),
    SeekHalfway(ArmsClip),
}

/// What the attack cycle reads in one frame.
///
/// `raise_halfway` tells whether the raising clip has reached the point where
/// the weapon is up (0.6 s into it); `lowered` whether it has played back to
/// its start (or is not playing at all).
#[derive(Clone, Copy, Debug, PartialEq, Eq, Structural)]
pub struct AttackInput {
    pub just_pressed: bool,
    pub pressed: bool,
    pub just_released: bool,
    pub raise_halfway: bool,
    pub lowered: bool,
}

/// What the attack cycle decides in one frame: its next state, the orders to
/// the animation player in sequence, and whether a shot is fired.
pub struct AttackStep {
    pub next: AttackState,
    pub ops: Vec<AnimOp>,
    pub fire: bool,
}

/// The state after one frame.
pub open spec fn next_attack_state(state: AttackState, input: AttackInput, fire_ready: bool) -> AttackState {
    match state {
        AttackState::Idle => if input.just_pressed { AttackState::Raising } else { AttackState::Idle },
        AttackState::Raising => {
            if input.raise_halfway {
                if input.pressed { AttackState::Attacking } else { AttackState::Lowering }
            } else if input.just_released {
                AttackState::Lowering
            } else {
                AttackState::Raising
            }
        },
        AttackState::Attacking => if input.just_released { AttackState::Lowering } else { AttackState::Attacking },
        AttackState::Lowering => {
            if input.pressed && fire_ready {
                AttackState::Raising
            } else if input.lowered {
                AttackState::Idle
            } else {
                AttackState::Lowering
            }
        },
    }
}

/// The animation orders of one frame, in sequence.
pub open spec fn attack_ops(state: AttackState, input: AttackInput, fire_ready: bool) -> Seq<AnimOp> {
    match state {
        AttackState::Idle => {
            if input.just_pressed {
                seq![AnimOp::Stop(ArmsClip::Idle), AnimOp::Play(ArmsClip::RaiseAttack)]
            } else {
                seq![]
            }
        },
        AttackState::Raising => {
            let speed_up = seq![AnimOp::Accelerate(ArmsClip::RaiseAttack)];
            if input.raise_halfway {
                if input.pressed {
                    speed_up + seq![AnimOp::Stop(ArmsClip::RaiseAttack), AnimOp::PlayRepeating(ArmsClip::Attack)]
                } else {
                    speed_up + seq![AnimOp::Reverse(ArmsClip::RaiseAttack)]
                }
            } else if input.just_released {
                speed_up + seq![AnimOp::Reverse(ArmsClip::RaiseAttack)]
            } else {
                speed_up
            }
        },
        AttackState::Attacking => {
            if input.just_released {
                seq![
                    AnimOp::Stop(ArmsClip::Attack),
                    AnimOp::Play(ArmsClip::RaiseAttack),
                    AnimOp::Reverse(ArmsClip::RaiseAttack),
                    AnimOp::SeekHalfway(ArmsClip::RaiseAttack),
                ]
            } else {
                seq![]
            }
        },
        AttackState::Lowering => {
            if input.pressed && fire_ready {
                seq![]
            } else if input.lowered {
                seq![AnimOp::Stop(ArmsClip::RaiseAttack), AnimOp::PlayRepeating(ArmsClip::Idle)]
            } else {
                seq![]
            }
        },
    }
}

/// A shot is fired while attacking, the button held and the fire timer run out.
pub open spec fn fires(state: AttackState, input: AttackInput, fire_ready: bool) -> bool {
    state == AttackState::Attacking && input.pressed && fire_ready
}

/// One frame of the attack cycle.
pub fn attack_step(state: AttackState, input: AttackInput, fire_ready: bool) -> (step: AttackStep)
    ensures
        step.next == next_attack_state(state, input, fire_ready),
        step.ops@ == attack_ops(state, input, fire_ready),
        step.fire == fires(state, input, fire_ready),
{
    let mut ops: Vec<AnimOp> = Vec::new();
    let mut fire = false;
    let next = match state {
        AttackState::Idle => {
            if input.just_pressed {
                ops.push(AnimOp::Stop(ArmsClip::Idle));
                ops.push(AnimOp::Play(ArmsClip::RaiseAttack));
                AttackState::Raising
            } else {
                AttackState::Idle
            }
        },
        AttackState::Raising => {
            ops.push(AnimOp::Accelerate(ArmsClip::RaiseAttack));
            if input.raise_halfway {
                if input.pressed {
                    ops.push(AnimOp::Stop(ArmsClip::RaiseAttack));
                    ops.push(AnimOp::PlayRepeating(ArmsClip::Attack));
                    AttackState::Attacking
                } else {
                    ops.push(AnimOp::Reverse(ArmsClip::RaiseAttack));
                    AttackState::Lowering
                }
            } else if input.just_released {
                ops.push(AnimOp::Reverse(ArmsClip::RaiseAttack));
                AttackState::Lowering
            } else {
                AttackState::Raising
            }
        },
        AttackState::Attacking => {
            if input.pressed && fire_ready {
                fire = true;
            }
            if input.just_released {
                ops.push(AnimOp::Stop(ArmsClip::Attack));
                ops.push(AnimOp::Play(ArmsClip::RaiseAttack));
                ops.push(AnimOp::Reverse(ArmsClip::RaiseAttack));
                ops.push(AnimOp::SeekHalfway(ArmsClip::RaiseAttack));
                AttackState::Lowering
            } else {
                AttackState::Attacking
            }
        },
        AttackState::Lowering => {
            if input.pressed && fire_ready {
                AttackState::Raising
            } else if input.lowered {
                ops.push(AnimOp::Stop(ArmsClip::RaiseAttack));
                ops.push(AnimOp::PlayRepeating(ArmsClip::Idle));
                AttackState::Idle
            } else {
                AttackState::Lowering
            }
        },
    };
    proof {
        let expected = attack_ops(state, input, fire_ready);
        assert(ops@ =~= expected);
    }
    AttackStep { next, ops, fire }
}

/// The state after the frames of several animation players, taken in order.
pub open spec fn state_after(state: AttackState, inputs: Seq<AttackInput>, fire_ready: bool) -> AttackState
    decreases inputs.len(),
{
    if inputs.len() == 0 {
        state
    } else {
        next_attack_state(state_after(state, inputs.drop_last(), fire_ready), inputs.last(), fire_ready)
    }
}

/// Time between shots, which the speed power shortens.
pub open spec fn fire_interval(has_speed: bool) -> u64 {
    if has_speed { FAST_FIRE_INTERVAL_NS } else { FIRE_INTERVAL_NS }
}

/// Time between shots, in nanoseconds.
pub fn fire_interval_ns(has_speed: bool) -> (ns: u64)
    ensures
        ns == fire_interval(has_speed),
{
    if has_speed { FAST_FIRE_INTERVAL_NS } else { FIRE_INTERVAL_NS }
}

/// The pace of fire: a repeating timer.
pub struct FireRate {
    pub timer: Countdown,
}

impl Default for FireRate {
    /// Ten shots a second.
    fn default() -> (f: Self)
        ensures
            f.timer@ == fresh_timer(FIRE_INTERVAL_NS as nat, TimerKind::Repeating),
    {
        FireRate { timer: Countdown::new(FIRE_INTERVAL_NS, TimerKind::Repeating) }
    }
}

/// One frame of the attack cycle for every animation player of the arms.
///
/// The fire timer advances by `delta_ns` nanoseconds. Without a player
/// (`has_speed` is `None`) nothing else happens. Otherwise the fire interval
/// is set from the speed power (60 ms with it, 100 ms without), and each
/// animation player, in order, takes one step of the cycle from the state the
/// previous one left; a shot is ready when the fire timer wrapped in this
/// tick.
pub fn attack_state_machine(
    state: &mut AttackState,
    fire_rate: &mut FireRate,
    delta_ns: u64,
    has_speed: Option<bool>,
    inputs: &Vec<AttackInput>,
) -> (steps: Vec<AttackStep>)
    ensures
        has_speed is None ==> steps.len() == 0 && *final(state) == *old(state)
            && final(fire_rate).timer@ == after_tick(old(fire_rate).timer@, delta_ns as nat),
        has_speed is Some ==> steps.len() == inputs.len(),
        has_speed matches Some(speed) ==> final(fire_rate).timer@ == with_duration(
            after_tick(old(fire_rate).timer@, delta_ns as nat),
            fire_interval(speed) as nat,
        ),
        has_speed is Some ==> {
            let fire_ready = after_tick(old(fire_rate).timer@, delta_ns as nat).just_finished;
            &&& *final(state) == state_after(*old(state), inputs@, fire_ready)
            &&& forall|k: int| 0 <= k < steps.len() ==> {
                let before = state_after(*old(state), inputs@.take(k), fire_ready);
                &&& #[trigger] steps[k].next == next_attack_state(before, inputs@[k], fire_ready)
                &&& steps[k].ops@ == attack_ops(before, inputs@[k], fire_ready)
                &&& steps[k].fire == fires(before, inputs@[k], fire_ready)
            }
        },
{
    fire_rate.timer.tick(delta_ns);
    let mut steps: Vec<AttackStep> = Vec::new();
    match has_speed {
        None => steps,
        Some(speed) => {
            fire_rate.timer.set_duration(fire_interval_ns(speed));
            let fire_ready = fire_rate.timer.just_finished();
            let ghost start = *state;
            let mut k: usize = 0;
            while k < inputs.len()
                invariant
                    k <= inputs.len(),
                    steps.len() == k,
                    *state == state_after(start, inputs@.take(k as int), fire_ready),
                    forall|i: int| 0 <= i < k ==> {
                        let before = state_after(start, inputs@.take(i), fire_ready);
                        &&& #[trigger] steps[i].next == next_attack_state(before, inputs@[i], fire_ready)
                        &&& steps[i].ops@ == attack_ops(before, inputs@[i], fire_ready)
                        &&& steps[i].fire == fires(before, inputs@[i], fire_ready)
                    },
                decreases inputs.len() - k,
            {
                let step = attack_step(*state, inputs[k], fire_ready);
                *state = step.next;
                steps.push(step);
                proof {
                    assert(inputs@.take(k + 1).drop_last() =~= inputs@.take(k as int));
                }
                k = k + 1;
            }
            assert(inputs@.take(inputs.len() as int) =~= inputs@);
            steps
        },
    }
}

/// The colour of the second tracer of a shot.
#[derive(Clone, Copy, Debug, PartialEq, Eq, Structural)]
pub enum TracerColor {
    Blue,
    Red,
}

/// The sound a shot makes.
#[derive(Clone, Copy, Debug, PartialEq, Eq, Structural)]
pub enum ShotSound {
    Normal,
    Fast,
}

/// How a shot looks and sounds: red tracer and the fast sound under the speed
/// power, blue tracer and the normal sound otherwise.
#[derive(Clone, Copy, Debug, PartialEq, Eq, Structural)]
pub struct ShotStyle {
    pub second_tracer: TracerColor,
    pub sound: ShotSound,
}

/// How a shot looks and sounds for the given speed power.
pub fn shot_style(has_speed: bool) -> (s: ShotStyle)
    ensures
        has_speed ==> s == (ShotStyle { second_tracer: TracerColor::Red, sound: ShotSound::Fast }),
        !has_speed ==> s == (ShotStyle { second_tracer: TracerColor::Blue, sound: ShotSound::Normal }),
{
    if has_speed {
        ShotStyle { second_tracer: TracerColor::Red, sound: ShotSound::Fast }
    } else {
        ShotStyle { second_tracer: TracerColor::Blue, sound: ShotSound::Normal }
    }
}

/// Life of an enemy after a shot, and whether the shot kills it (no life
/// left). The life must be far enough above `i16::MIN` for the subtraction.
pub fn apply_shot(life: i16) -> (r: (i16, bool))
    requires
        life >= i16::MIN + SHOT_DAMAGE,
    ensures
        r.0 == life - SHOT_DAMAGE,
        r.1 == (r.0 <= 0),
{
    let left = life - SHOT_DAMAGE;
    (left, left <= 0)
}

} // verus!
