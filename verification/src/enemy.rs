//! Enemies: the skulls that fly at the player and the skeletons that walk.

use crate::attack::{apply_shot, SHOT_DAMAGE};
use crate::timekeeping::{after_tick, fresh_timer, Countdown, TimerKind};
use vstd::prelude::*;

verus! {

/// Life of a plain skull.
pub const SKULL_LIFE: i16 = 100;

/// Life an elite skull has on top of a plain one.
pub const SKULL_EXTRA_LIFE: i16 = 100;

/// Life of a skeleton.
pub const SKELETON_LIFE: i16 = 300;

/// How often a skeleton turns towards the player, in nanoseconds.
pub const SKELETON_REDIRECT_NS: u64 = 1_000_000_000;

/// A flying skull. Its speed, a float, stays with the application.
#[derive(Clone, Copy, Debug, PartialEq, Eq, Structural)]
pub struct SkullEnemy {
    pub elite: bool,
    pub life: i16,
    pub extra_life: i16,
}

/// The outcome of a shot on an enemy.
#[derive(Clone, Copy, Debug, PartialEq, Eq, Structural)]
pub enum ShotOutcome {
    /// The enemy flashes and lives on.
    Wounded,
    /// The enemy explodes and is removed.
    Killed,
}

/// Life left that cannot be lowered further by a shot without overflow.
pub open spec fn can_take_shot(life: i16) -> bool {
    life >= i16::MIN + SHOT_DAMAGE
}

/// A plain skull's record: 100 life, not elite.
pub open spec fn plain_skull() -> SkullEnemy {
    SkullEnemy { elite: false, life: SKULL_LIFE, extra_life: SKULL_EXTRA_LIFE }
}

/// An elite skull's record: the life of a plain one plus its extra life.
pub open spec fn elite_skull() -> SkullEnemy {
    SkullEnemy { elite: true, life: (SKULL_LIFE + SKULL_EXTRA_LIFE) as i16, extra_life: SKULL_EXTRA_LIFE }
}

impl Default for SkullEnemy {
    /// A plain skull: 100 life, and 100 more should it be made elite.
    fn default() -> (s: SkullEnemy)
        ensures
            s == plain_skull(),
    {
        SkullEnemy { elite: false, life: SKULL_LIFE, extra_life: SKULL_EXTRA_LIFE }
    }
}

impl SkullEnemy {

    /// An elite skull: red, with the life of a plain one plus its extra life.
    pub fn elite() -> (s: SkullEnemy)
        ensures
            s == elite_skull(),
    {
        let plain = SkullEnemy::default();
        SkullEnemy { elite: true, life: plain.life + plain.extra_life, ..plain }
    }

    /// A shot hits the skull: ten life lost; no life left kills it.
    pub fn take_shot(&mut self) -> (outcome: ShotOutcome)
        requires
            can_take_shot(old(self).life),
        ensures
            *final(self) == (SkullEnemy { life: (old(self).life - SHOT_DAMAGE) as i16, ..*old(self) }),
            outcome == (if final(self).life <= 0 { ShotOutcome::Killed } else { ShotOutcome::Wounded }),
    {
        let (left, killed) = apply_shot(self.life);
        self.life = left;
        if killed { ShotOutcome::Killed } else { ShotOutcome::Wounded }
    }
}

/// A walking skeleton: its life, and the timer after which it turns towards
/// the player again. Its speed and heading, floats, stay with the application.
pub struct SkeletonEnemy {
    pub life: i16,
    pub redirect_timer: Countdown,
}

impl Default for SkeletonEnemy {
    /// A skeleton with 300 life that turns towards the player every second.
    fn default() -> (s: SkeletonEnemy)
        ensures
            s.life == SKELETON_LIFE,
            s.redirect_timer@ == fresh_timer(SKELETON_REDIRECT_NS as nat, TimerKind::Repeating),
    {
        SkeletonEnemy { life: SKELETON_LIFE, redirect_timer: Countdown::new(SKELETON_REDIRECT_NS, TimerKind::Repeating) }
    }
}

impl SkeletonEnemy {

    /// A shot hits the skeleton: ten life lost; no life left kills it.
    pub fn take_shot(&mut self) -> (outcome: ShotOutcome)
        requires
            can_take_shot(old(self).life),
        ensures
            final(self).life == old(self).life - SHOT_DAMAGE,
            final(self).redirect_timer@ == old(self).redirect_timer@,
            outcome == (if final(self).life <= 0 { ShotOutcome::Killed } else { ShotOutcome::Wounded }),
    {
        let (left, killed) = apply_shot(self.life);
        self.life = left;
        if killed { ShotOutcome::Killed } else { ShotOutcome::Wounded }
    }

    /// Advances the turn timer by `delta_ns` nanoseconds and tells whether
    /// the skeleton turns towards the player in this frame (and plays its
    /// walking sound): when it has no heading yet, or when the timer wrapped
    /// in this tick.
    pub fn redirect_due(&mut self, delta_ns: u64, has_no_heading: bool) -> (due: bool)
        ensures
            final(self).life == old(self).life,
            final(self).redirect_timer@ == after_tick(old(self).redirect_timer@, delta_ns as nat),
            due == (final(self).redirect_timer@.just_finished || has_no_heading),
    {
        self.redirect_timer.tick(delta_ns);
        self.redirect_timer.just_finished() || has_no_heading
    }
}

/// The lives of the enemies hit by a volley, after its shots land in order:
/// `targets[k]` is the index, among `lives`, of the enemy the `k`-th hit of
/// the ray belongs to; each hit takes ten life from it.
pub open spec fn volley_lives(lives: Seq<i16>, targets: Seq<usize>) -> Seq<i16>
    decreases targets.len(),
{
    if targets.len() == 0 {
        lives
    } else {
        let before = volley_lives(lives, targets.drop_last());
        let t = targets.last() as int;
        before.update(t, (before[t] - SHOT_DAMAGE) as i16)
    }
}

/// Every hit of the volley names one of the enemies, and finds it with life
/// enough to lose ten more without overflow.
pub open spec fn volley_can_land(lives: Seq<i16>, targets: Seq<usize>) -> bool
    decreases targets.len(),
{
    if targets.len() == 0 {
        true
    } else {
        &&& volley_can_land(lives, targets.drop_last())
        &&& (targets.last() as int) < lives.len()
        &&& can_take_shot(volley_lives(lives, targets.drop_last())[targets.last() as int])
    }
}

/// The outcome of the `k`-th hit: its enemy is killed if it has no life left
/// once that hit has landed.
pub open spec fn volley_outcome(lives: Seq<i16>, targets: Seq<usize>, k: int) -> ShotOutcome {
    if volley_lives(lives, targets.take(k + 1))[targets[k] as int] <= 0 {
        ShotOutcome::Killed
    } else {
        ShotOutcome::Wounded
    }
}

proof fn volley_prefix_lands(lives: Seq<i16>, targets: Seq<usize>, k: int)
    requires
        volley_can_land(lives, targets),
        0 <= k <= targets.len(),
    ensures
        volley_can_land(lives, targets.take(k)),
        volley_lives(lives, targets.take(k)).len() == lives.len(),
    decreases targets.len(),
{
    if k < targets.len() {
        volley_prefix_lands(lives, targets.drop_last(), k);
        assert(targets.drop_last().take(k) =~= targets.take(k));
    } else {
        assert(targets.take(k) =~= targets);
        volley_lives_len(lives, targets);
    }
}

pub(crate) proof fn volley_lives_len(lives: Seq<i16>, targets: Seq<usize>)
    requires
        volley_can_land(lives, targets),
    ensures
        volley_lives(lives, targets).len() == lives.len(),
    decreases targets.len(),
{
    if targets.len() > 0 {
        volley_lives_len(lives, targets.drop_last());
    }
}

/// Whether every hit of a volley can land (see `volley_can_land`).
pub fn volley_lands(lives: &Vec<i16>, targets: &Vec<usize>) -> (ok: bool)
    ensures
        ok == volley_can_land(lives@, targets@),
{
    let mut current = lives.clone();
    let mut k: usize = 0;
    assert(targets@.take(0) =~= Seq::<usize>::empty());
    while k < targets.len()
        invariant
            k <= targets.len(),
            volley_can_land(lives@, targets@.take(k as int)),
            current@ == volley_lives(lives@, targets@.take(k as int)),
            current@.len() == lives@.len(),
        decreases targets.len() - k,
    {
        let t = targets[k];
        assert(targets@.take(k + 1).drop_last() =~= targets@.take(k as int));
        assert(targets@.take(k + 1).last() == t);
        if t >= current.len() || current[t] < i16::MIN + SHOT_DAMAGE {
            proof {
                if volley_can_land(lives@, targets@) {
                    volley_prefix_lands(lives@, targets@, k + 1);
                }
            }
            return false;
        }
        let left = current[t] - SHOT_DAMAGE;
        current.set(t, left);
        k = k + 1;
    }
    assert(targets@.take(targets.len() as int) =~= targets@);
    true
}

/// A volley lands: each hit of the ray, in order, takes ten life from the
/// enemy it belongs to. Returns the outcome of each hit; an enemy hit twice
/// is killed by the hit that leaves it no life, and a later hit on it kills
/// it again.
pub fn fire_volley(lives: &mut Vec<i16>, targets: &Vec<usize>) -> (outcomes: Vec<ShotOutcome>)
    requires
        volley_can_land(old(lives)@, targets@),
    ensures
        final(lives)@ == volley_lives(old(lives)@, targets@),
        outcomes.len() == targets.len(),
        forall|k: int| 0 <= k < targets.len() ==> #[trigger] outcomes@[k] == volley_outcome(old(lives)@, targets@, k),
{
    let ghost start = lives@;
    let mut outcomes: Vec<ShotOutcome> = Vec::new();
    let mut k: usize = 0;
    assert(targets@.take(0) =~= Seq::<usize>::empty());
    while k < targets.len()
        invariant
            k <= targets.len(),
            volley_can_land(start, targets@),
            lives@ == volley_lives(start, targets@.take(k as int)),
            lives@.len() == start.len(),
            outcomes.len() == k,
            forall|i: int| 0 <= i < k ==> #[trigger] outcomes@[i] == volley_outcome(start, targets@, i),
        decreases targets.len() - k,
    {
        let t = targets[k];
        proof {
            volley_prefix_lands(start, targets@, k + 1);
            assert(targets@.take(k + 1).drop_last() =~= targets@.take(k as int));
            assert(targets@.take(k + 1).last() == t);
        }
        let (left, killed) = apply_shot(lives[t]);
        lives.set(t, left);
        outcomes.push(if killed { ShotOutcome::Killed } else { ShotOutcome::Wounded });
        k = k + 1;
    }
    assert(targets@.take(targets.len() as int) =~= targets@);
    outcomes
}

} // verus!
