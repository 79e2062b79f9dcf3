//! Properties of the game's rules that hold across all inputs and calls.

use crate::attack::{attack_ops, fire_interval, fires, next_attack_state, AnimOp, ArmsClip, AttackInput, AttackState, SHOT_DAMAGE};
use crate::camera::{
    axis, cursor_after_escape, intent_of, switched, tuning_for, CameraMode, CursorGrab, CursorState, MoveKeys,
    GRAVITY, JUMP_FORCE,
};
use crate::hierarchy::{bindings_upto, AnimBinding, NodeRole};
use crate::card::{other_power_of_roll, power_color, power_of_roll, Superpower};
use crate::enemy::{volley_can_land, volley_lives, volley_lives_len};
use crate::player::{
    after_card, after_cards, after_contacts, life_after_elixir, is_timed_power, contact_hits, life_after_hit, life_after_hits, life_in_bounds, without_powers,
    Player, CONTACT_DAMAGE, DAMAGE_COOLDOWN_NS, ELIXIR_HEAL,
};
use crate::scene::{
    card_interval_at, clock, enemy_interval_at, initial_state, menu_label_of, luck_at, next_game_state, rank_at, trophy_secs, wave_at,
    GameEvent, GameState, Trophy, Wave, CARDS_SPAWN_NS, ENEMIES_SPAWN_NS, MIN_CARDS_SPAWN_NS,
    MIN_ENEMIES_SPAWN_NS,
};
use crate::text::{decimal, digit_char, two_digits};
use crate::ui::{label_after_cards, label_chars, life_text, ticked, PowerLabel};
use crate::timekeeping::{after_reset, after_tick, fresh_timer, with_duration, TimerKind, TimerModel};
use vstd::prelude::*;

verus! {

/// Enemy contacts take thirty points of life each, down to zero and no
/// further: after `hits` contacts, life is `life - 30 * hits`, or zero if
/// that would be negative.
pub proof fn hits_take_thirty_each(life: u32, hits: nat)
    ensures
        life_after_hits(life, hits) == (if life >= CONTACT_DAMAGE * hits { life - CONTACT_DAMAGE * hits } else { 0 }),
    decreases hits,
{
    if hits > 0 {
        hits_take_thirty_each(life, (hits - 1) as nat);
        assert(CONTACT_DAMAGE * hits == CONTACT_DAMAGE * (hits - 1) + CONTACT_DAMAGE) by (nonlinear_arith);
    }
}

/// Life never exceeds the maximum: a hit, any card, losing the powers,
/// restoring full life and falling all keep life within its bounds.
pub proof fn life_stays_in_bounds(p: Player, power: Superpower)
    requires
        life_in_bounds(p),
    ensures
        life_in_bounds(after_card(p, power)),
        life_in_bounds(Player { current_life: life_after_hit(p.current_life), ..p }),
        life_in_bounds(without_powers(p)),
        life_in_bounds(Player { current_life: p.max_life, ..p }),
        life_in_bounds(Player { current_life: 0, ..p }),
{
}

proof fn hits_keep_bounds(life: u32, hits: nat)
    ensures
        life_after_hits(life, hits) <= life,
    decreases hits,
{
    if hits > 0 {
        hits_keep_bounds(life, (hits - 1) as nat);
    }
}

proof fn cards_keep_bounds(p: Player, cards: Seq<Superpower>)
    requires
        life_in_bounds(p),
    ensures
        life_in_bounds(after_cards(p, cards)),
        after_cards(p, cards).max_life == p.max_life,
    decreases cards.len(),
{
    if cards.len() > 0 {
        cards_keep_bounds(p, cards.drop_last());
    }
}

/// A whole frame of contacts (hits, then cards, with or without the powers
/// wearing off first) keeps life within its bounds and never changes the
/// maximum.
pub proof fn contact_frame_keeps_life_in_bounds(p: Player, expired: bool, hits: nat, cards: Seq<Superpower>)
    requires
        life_in_bounds(p),
    ensures
        life_in_bounds(after_contacts(p, expired, hits, cards)),
        after_contacts(p, expired, hits, cards).max_life == p.max_life,
{
    hits_keep_bounds(p.current_life, hits);
    let start = if expired { without_powers(p) } else { p };
    cards_keep_bounds(Player { current_life: life_after_hits(p.current_life, hits), ..start }, cards);
}

/// The longer the round, the faster enemies and cards come: both spawn
/// intervals never grow with the time played, start at 8 s and 20 s, and
/// never drop below 2 s and 8 s.
pub proof fn spawn_intervals_shrink(earlier_ns: u64, later_ns: u64)
    requires
        earlier_ns <= later_ns,
    ensures
        enemy_interval_at(later_ns) <= enemy_interval_at(earlier_ns),
        card_interval_at(later_ns) <= card_interval_at(earlier_ns),
        MIN_ENEMIES_SPAWN_NS <= enemy_interval_at(later_ns) <= ENEMIES_SPAWN_NS,
        MIN_CARDS_SPAWN_NS <= card_interval_at(later_ns) <= CARDS_SPAWN_NS,
        enemy_interval_at(0) == ENEMIES_SPAWN_NS,
        card_interval_at(0) == CARDS_SPAWN_NS,
{
    assert(earlier_ns / 120 <= later_ns / 120) by (nonlinear_arith)
        requires earlier_ns <= later_ns;
    assert(earlier_ns / 100 <= later_ns / 100) by (nonlinear_arith)
        requires earlier_ns <= later_ns;
}

/// Waves never shrink as the round goes on: each kind of enemy comes in at
/// least as many in a later wave.
pub proof fn waves_grow(earlier_ns: u64, later_ns: u64)
    requires
        earlier_ns <= later_ns,
    ensures
        wave_at(earlier_ns).skulls <= wave_at(later_ns).skulls,
        wave_at(earlier_ns).elites <= wave_at(later_ns).elites,
        wave_at(earlier_ns).skeletons <= wave_at(later_ns).skeletons,
{
}

/// The rank of a trophy: none below bronze below silver below gold.
pub open spec fn trophy_rank(t: Option<Trophy>) -> int {
    match t {
        None => 0,
        Some(Trophy::Bronze) => 1,
        Some(Trophy::Silver) => 2,
        Some(Trophy::Gold) => 3,
    }
}

/// Trophies follow the time survived: a trophy is earned exactly once its
/// time is reached and no better one's is, and surviving longer never earns
/// a lesser trophy.
pub proof fn trophies_follow_time(earlier_ns: u64, later_ns: u64, t: Trophy)
    requires
        earlier_ns <= later_ns,
    ensures
        trophy_rank(rank_at(earlier_ns)) <= trophy_rank(rank_at(later_ns)),
        rank_at(later_ns) == Some(t) <==> (
            later_ns >= trophy_secs(t) * 1_000_000_000
            && forall|better: Trophy| trophy_rank(Some(better)) > trophy_rank(Some(t))
                ==> later_ns < #[trigger] trophy_secs(better) * 1_000_000_000),
{
    if rank_at(later_ns) != Some(t) && later_ns >= trophy_secs(t) * 1_000_000_000 {
        match rank_at(later_ns) {
            Some(r) => {
                assert(trophy_rank(Some(r)) > trophy_rank(Some(t)));
                assert(later_ns >= trophy_secs(r) * 1_000_000_000);
            },
            None => {},
        }
    }
}

/// The screens of the game: Enter starts a round from the menu or the game
/// over screen; a round in play ends only when the player dies, and then on
/// the game over screen; the game opens on the menu, which is never shown
/// again once left.
pub proof fn screens_flow(state: GameState, event: GameEvent)
    ensures
        initial_state() == GameState::Menu,
        (state == GameState::Menu || state == GameState::GameOver) && event == GameEvent::Start
            ==> next_game_state(state, event) == GameState::Playing,
        state == GameState::Playing && next_game_state(state, event) != GameState::Playing
            ==> event == GameEvent::PlayerDied && next_game_state(state, event) == GameState::GameOver,
        next_game_state(state, event) == GameState::Menu ==> state == GameState::Menu,
        event == GameEvent::PlayerDied && state != GameState::Playing ==> next_game_state(state, event) == state,
{
}

/// The attack cycle runs in order: the weapon fires only in the attacking
/// state; attacking is reached only by raising the weapon first; rest is
/// reached only by lowering it; releasing the button always stops the attack;
/// a press at rest always starts raising.
pub proof fn attack_cycle_in_order(state: AttackState, input: AttackInput, fire_ready: bool)
    ensures
        fires(state, input, fire_ready) ==> state == AttackState::Attacking,
        next_attack_state(state, input, fire_ready) == AttackState::Attacking
            ==> state == AttackState::Raising || state == AttackState::Attacking,
        next_attack_state(state, input, fire_ready) == AttackState::Idle && state != AttackState::Idle
            ==> state == AttackState::Lowering,
        state == AttackState::Attacking && input.just_released
            ==> next_attack_state(state, input, fire_ready) == AttackState::Lowering,
        state == AttackState::Idle && input.just_pressed
            ==> next_attack_state(state, input, fire_ready) == AttackState::Raising,
{
}

/// An enemy with `life` points left, if positive, survives exactly
/// `(life + 9) / 10 - 1` shots and dies on the next one: each shot takes ten
/// points, and a shot kills once none are left.
pub proof fn shots_to_kill(life: int)
    requires
        0 < life,
    ensures
        life - SHOT_DAMAGE * ((life + 9) / 10) <= 0,
        life - SHOT_DAMAGE * ((life + 9) / 10 - 1) > 0,
{
}

/// Escape toggles the cursor: a locked cursor is freed and shown, a free one
/// locked and hidden, so that pressing it twice from either comes back to
/// where it started.
pub proof fn escape_twice_restores(c: CursorState)
    requires
        c.grab != CursorGrab::Confined,
        c.visible == (c.grab == CursorGrab::Free),
    ensures
        cursor_after_escape(cursor_after_escape(c)) == c,
        cursor_after_escape(c).visible == (cursor_after_escape(c).grab == CursorGrab::Free),
{
}

/// Switching the camera mode twice comes back to the same mode.
pub proof fn mode_switch_twice_restores(mode: CameraMode)
    ensures
        switched(switched(mode).mode).mode == mode,
{
}

/// QWERTY and AZERTY players move alike: Z does what W does and Q what A
/// does; and the first-person camera never moves up or down by keys.
pub proof fn both_layouts_move_alike(keys: MoveKeys, mode: CameraMode)
    ensures
        intent_of(MoveKeys { w: keys.z, z: keys.w, a: keys.q, q: keys.a, ..keys }, mode) == intent_of(keys, mode),
        intent_of(MoveKeys { w: keys.w || keys.z, z: false, a: keys.a || keys.q, q: false, ..keys }, mode)
            == intent_of(keys, mode),
        mode == CameraMode::Fps ==> intent_of(keys, mode).up == 0,
{
}

proof fn decimal_small(n: nat)
    ensures
        n < 10 ==> decimal(n).len() == 1,
        10 <= n < 100 ==> decimal(n).len() == 2,
        decimal(n).len() >= 1,
        n >= 10 ==> decimal(n).len() >= 2,
    decreases n,
{
    if n >= 10 {
        decimal_small(n / 10);
    }
}

/// The clock always reads minutes, a colon, then exactly two digits of
/// seconds, with at least two digits of minutes.
pub proof fn clock_reads_minutes_and_seconds(elapsed_ns: u64)
    ensures
        clock(elapsed_ns).len() >= 5,
        clock(elapsed_ns)[clock(elapsed_ns).len() - 3] == ':',
        clock(elapsed_ns).subrange(clock(elapsed_ns).len() - 2, clock(elapsed_ns).len() as int)
            == two_digits(((elapsed_ns / 1_000_000_000) % 60) as nat),
{
    let minutes = (elapsed_ns / 60_000_000_000) as nat;
    let seconds = ((elapsed_ns / 1_000_000_000) % 60) as nat;
    decimal_small(minutes);
    decimal_small(seconds);
    let m = two_digits(minutes);
    let s = two_digits(seconds);
    assert(s.len() == 2);
    assert(m.len() >= 2);
    let c = m + seq![':'] + s;
    assert(c == clock(elapsed_ns));
    assert(c.subrange(c.len() - 2, c.len() as int) =~= s);
}

/// A timer after a run of ticks, in order.
pub open spec fn after_ticks(t: TimerModel, deltas: Seq<nat>) -> TimerModel
    decreases deltas.len(),
{
    if deltas.len() == 0 {
        t
    } else {
        after_tick(after_ticks(t, deltas.drop_last()), deltas.last())
    }
}

/// The sum of a run of frame times.
pub open spec fn total(deltas: Seq<nat>) -> nat
    decreases deltas.len(),
{
    if deltas.len() == 0 {
        0
    } else {
        total(deltas.drop_last()) + deltas.last()
    }
}

/// A one-shot timer that has not run out counts the frame times until they
/// reach its duration, and finishes exactly then: it is finished after a run
/// of ticks if and only if the time elapsed plus the run reaches the
/// duration, and the last tick of the run reports the finish if and only if
/// it is the one that reached it. So the shield, started over by a hit, lets
/// no hit through for one second, and a power, started over by its card,
/// wears off in the frame in which ten seconds have passed.
pub proof fn one_shot_timer_runs_out_once(t: TimerModel, deltas: Seq<nat>)
    requires
        t.kind == TimerKind::Once,
        !t.finished,
        t.elapsed_ns < t.duration_ns,
    ensures
        after_ticks(t, deltas).finished <==> t.elapsed_ns + total(deltas) >= t.duration_ns,
        !after_ticks(t, deltas).finished ==> after_ticks(t, deltas).elapsed_ns == t.elapsed_ns + total(deltas),
        after_ticks(t, deltas).duration_ns == t.duration_ns,
        after_ticks(t, deltas).kind == TimerKind::Once,
        deltas.len() > 0 ==> (after_ticks(t, deltas).just_finished <==> (
            t.elapsed_ns + total(deltas) >= t.duration_ns
            && t.elapsed_ns + total(deltas.drop_last()) < t.duration_ns)),
    decreases deltas.len(),
{
    if deltas.len() > 0 {
        one_shot_timer_runs_out_once(t, deltas.drop_last());
    }
}

/// Starting a timer over puts it back to nothing elapsed and not finished,
/// whatever state it was in; a one-shot timer with a positive duration then
/// meets what `one_shot_timer_runs_out_once` asks.
pub proof fn reset_starts_over(t: TimerModel)
    ensures
        after_reset(t).elapsed_ns == 0,
        !after_reset(t).finished,
        !after_reset(t).just_finished,
        after_reset(t).duration_ns == t.duration_ns,
        after_reset(t).kind == t.kind,
{
}

/// A repeating timer with a positive duration, not yet at it, reports a
/// finish in a tick if and only if the tick reaches its duration (unless the
/// tick spans 2^32 durations or more), and then keeps what lies beyond it, so
/// it never holds its duration or more: this paces the enemy waves, the
/// cards, the shots and the skeletons' turns.
pub proof fn repeating_timer_paces(t: TimerModel, delta: nat)
    requires
        t.kind == TimerKind::Repeating,
        t.duration_ns > 0,
        t.elapsed_ns < t.duration_ns,
        t.elapsed_ns + delta < t.duration_ns * 0x1_0000_0000,
    ensures
        after_tick(t, delta).just_finished <==> t.elapsed_ns + delta >= t.duration_ns,
        after_tick(t, delta).elapsed_ns < t.duration_ns,
        after_tick(t, delta).elapsed_ns == (t.elapsed_ns + delta) % t.duration_ns,
        after_tick(t, delta).duration_ns == t.duration_ns,
{
    let e = t.elapsed_ns + delta;
    let d = t.duration_ns;
    if e >= d {
        assert(e / d >= 1) by (nonlinear_arith)
            requires e >= d, d > 0;
        assert(e / d < 0x1_0000_0000) by (nonlinear_arith)
            requires e < d * 0x1_0000_0000, d > 0;
    } else {
        assert(e % d == e) by (nonlinear_arith)
            requires e < d, 0 <= e;
    }
}

proof fn total_of_prefix(deltas: Seq<nat>, k: int)
    requires
        0 <= k <= deltas.len(),
    ensures
        total(deltas.take(k)) <= total(deltas),
    decreases deltas.len(),
{
    if k < deltas.len() {
        total_of_prefix(deltas.drop_last(), k);
        assert(deltas.drop_last().take(k) =~= deltas.take(k));
    } else {
        assert(deltas.take(k) =~= deltas);
    }
}

/// No second hit within a second of a hit: the hit starts the shield over,
/// and over the frames that follow, as long as their times add up to less
/// than one second, no enemy contact lands, however many enemies are in
/// reach; in those frames the shield only counts the time (it is ticked and
/// not started over, as `check_for_collisions` states for a frame without a
/// hit).
pub proof fn no_second_hit_within_a_second(shield: TimerModel, deltas: Seq<nat>)
    requires
        shield.kind == TimerKind::Once,
        shield.duration_ns == DAMAGE_COOLDOWN_NS,
        total(deltas) < DAMAGE_COOLDOWN_NS,
    ensures
        forall|k: int, enemies_in_reach: u32|
            0 <= k < deltas.len() ==> #[trigger] contact_hits(
                after_ticks(after_reset(shield), deltas.take(k)),
                deltas[k],
                enemies_in_reach,
            ) == 0,
{
    let start = after_reset(shield);
    assert forall|k: int, enemies_in_reach: u32|
        0 <= k < deltas.len() implies #[trigger] contact_hits(
            after_ticks(start, deltas.take(k)),
            deltas[k],
            enemies_in_reach,
        ) == 0 by {
        let run = deltas.take(k + 1);
        assert(run.drop_last() =~= deltas.take(k));
        assert(run.last() == deltas[k]);
        one_shot_timer_runs_out_once(start, run);
        total_of_prefix(deltas, k + 1);
        assert(after_ticks(start, run) == after_tick(after_ticks(start, deltas.take(k)), deltas[k]));
    }
}

/// What a run of cards does to the powers and to life: the player holds the
/// jump power after them if and only if it was held before or a jump card is
/// among them, and likewise the speed power with a speed card; a run without
/// an elixir card leaves life as it was.
pub proof fn cards_grant_powers(p: Player, cards: Seq<Superpower>)
    ensures
        after_cards(p, cards).has_super_jump == (p.has_super_jump || cards.contains(Superpower::JUMP)),
        after_cards(p, cards).has_speed == (p.has_speed || cards.contains(Superpower::SPEEP)),
        !cards.contains(Superpower::ELEXIR) ==> after_cards(p, cards).current_life == p.current_life,
        after_cards(p, cards).max_life == p.max_life,
    decreases cards.len(),
{
    if cards.len() > 0 {
        let rest = cards.drop_last();
        cards_grant_powers(p, rest);
        let last_at = cards.len() - 1;
        assert(cards[last_at] == cards.last());
        assert forall|x: Superpower| cards.contains(x) <==> (rest.contains(x) || cards.last() == x) by {
            if cards.contains(x) {
                let i = choose|i: int| 0 <= i < cards.len() && cards[i] == x;
                if i < last_at {
                    assert(rest[i] == x);
                }
            }
            if rest.contains(x) {
                let i = choose|i: int| 0 <= i < rest.len() && rest[i] == x;
                assert(cards[i] == x);
            }
        }
    }
}

/// The powers wear off when their timer runs out: after a frame in which it
/// ran out, the player has the jump power only if a jump card was picked up
/// in that same frame, and the speed power only if a speed card was; in any
/// other frame a power held before is kept, and a card grants its power.
/// Neither the hits nor the cards of the frame touch the powers otherwise,
/// and the powers wearing off does not touch life.
pub proof fn powers_wear_off(p: Player, expired: bool, hits: nat, cards: Seq<Superpower>)
    ensures
        after_contacts(p, expired, hits, cards).has_super_jump
            == ((p.has_super_jump && !expired) || cards.contains(Superpower::JUMP)),
        after_contacts(p, expired, hits, cards).has_speed
            == ((p.has_speed && !expired) || cards.contains(Superpower::SPEEP)),
        after_contacts(p, true, hits, cards).current_life == after_contacts(p, false, hits, cards).current_life,
        !cards.contains(Superpower::ELEXIR)
            ==> after_contacts(p, expired, hits, cards).current_life == life_after_hits(p.current_life, hits),
{
    let hit = life_after_hits(p.current_life, hits);
    cards_grant_powers(Player { current_life: hit, has_super_jump: false, has_speed: false, ..p }, cards);
    cards_grant_powers(Player { current_life: hit, ..p }, cards);
    elixirs_ignore_powers(Player { current_life: hit, ..p }, cards);
}

proof fn elixirs_ignore_powers(p: Player, cards: Seq<Superpower>)
    ensures
        after_cards(Player { has_super_jump: false, has_speed: false, ..p }, cards).current_life
            == after_cards(p, cards).current_life,
    decreases cards.len(),
{
    if cards.len() > 0 {
        elixirs_ignore_powers(p, cards.drop_last());
        cards_grant_powers(p, cards.drop_last());
        cards_grant_powers(Player { has_super_jump: false, has_speed: false, ..p }, cards.drop_last());
    }
}

/// An elixir heals twenty points, up to the maximum and never beyond it, and
/// never lowers life that is within its bounds; jump and speed cards leave
/// life as it is and only grant their power.
pub proof fn elixir_heals_up_to_max(p: Player)
    requires
        life_in_bounds(p),
    ensures
        after_card(p, Superpower::ELEXIR).current_life
            == (if p.current_life + ELIXIR_HEAL <= p.max_life { p.current_life + ELIXIR_HEAL } else { p.max_life as int }),
        after_card(p, Superpower::ELEXIR).current_life >= p.current_life,
        after_card(p, Superpower::ELEXIR) == (Player { current_life: life_after_elixir(p.current_life, p.max_life), ..p }),
        after_card(p, Superpower::JUMP) == (Player { has_super_jump: true, ..p }),
        after_card(p, Superpower::SPEEP) == (Player { has_speed: true, ..p }),
{
}

/// The arms' animation moves only with the cycle: in a frame in which the
/// state stays as it is, no order is given to the animation player, except
/// that the raising clip is kept at double speed while raising. So while
/// attacking, as long as the button is not released, the repeating attack
/// clip is left playing.
pub proof fn animation_follows_the_cycle(state: AttackState, input: AttackInput, fire_ready: bool)
    ensures
        next_attack_state(state, input, fire_ready) == state ==> attack_ops(state, input, fire_ready) == (
            if state == AttackState::Raising {
                seq![AnimOp::Accelerate(ArmsClip::RaiseAttack)]
            } else {
                Seq::<AnimOp>::empty()
            }),
        state == AttackState::Attacking && !input.just_released ==> {
            &&& attack_ops(state, input, fire_ready).len() == 0
            &&& next_attack_state(state, input, fire_ready) == AttackState::Attacking
        },
        next_attack_state(state, input, fire_ready) != state && !(state == AttackState::Lowering
            && next_attack_state(state, input, fire_ready) == AttackState::Raising)
            ==> attack_ops(state, input, fire_ready).len() > 0,
{
}

/// The waves by time played: two skulls up to 30 s; from then a skeleton
/// joins them, up to 2 min 30; three skulls up to 5 min; four skulls and two
/// elite skulls up to 10 min; then five skulls, two elites and three
/// skeletons. Elite skulls come exactly after 5 minutes, skeletons exactly
/// after 30 seconds.
pub proof fn wave_bands(elapsed_ns: u64)
    ensures
        elapsed_ns <= 30_000_000_000 ==> wave_at(elapsed_ns) == (Wave { skulls: 2, elites: 0, skeletons: 0 }),
        30_000_000_000 < elapsed_ns <= 150_000_000_000
            ==> wave_at(elapsed_ns) == (Wave { skulls: 2, elites: 0, skeletons: 1 }),
        150_000_000_000 < elapsed_ns <= 300_000_000_000
            ==> wave_at(elapsed_ns) == (Wave { skulls: 3, elites: 0, skeletons: 1 }),
        300_000_000_000 < elapsed_ns <= 600_000_000_000
            ==> wave_at(elapsed_ns) == (Wave { skulls: 4, elites: 2, skeletons: 1 }),
        600_000_000_000 < elapsed_ns ==> wave_at(elapsed_ns) == (Wave { skulls: 5, elites: 2, skeletons: 3 }),
        wave_at(elapsed_ns).elites > 0 <==> elapsed_ns > 300_000_000_000,
        wave_at(elapsed_ns).skeletons > 0 <==> elapsed_ns > 30_000_000_000,
{
}

/// The number a digit character stands for.
pub open spec fn digit_value(c: char) -> int {
    (c as int) - ('0' as int)
}

/// The number a run of decimal digits stands for, the last digit counting
/// ones.
pub open spec fn decimal_value(digits: Seq<char>) -> int
    decreases digits.len(),
{
    if digits.len() == 0 {
        0
    } else {
        decimal_value(digits.drop_last()) * 10 + digit_value(digits.last())
    }
}

/// Each digit is written as its own character: `'0'` and the nine that follow
/// it in order.
pub proof fn digits_in_order(d: nat)
    requires
        d < 10,
    ensures
        '0' <= digit_char(d) <= '9',
        digit_value(digit_char(d)) == d,
{
}

/// The decimal text reads back as the number it writes, with nothing but
/// digits in it and no leading zero; so does the two-digit text, which only
/// adds a leading zero below ten.
pub proof fn decimal_reads_back(n: nat)
    ensures
        decimal_value(decimal(n)) == n,
        forall|i: int| 0 <= i < decimal(n).len() ==> '0' <= #[trigger] decimal(n)[i] <= '9',
        decimal(n).len() > 1 ==> decimal(n)[0] != '0',
        decimal_value(two_digits(n)) == n,
        n < 100 ==> two_digits(n).len() == 2,
    decreases n,
{
    let d = decimal(n);
    if n < 10 {
        digits_in_order(n);
        assert(d.drop_last().len() == 0);
        assert(decimal_value(d.drop_last()) == 0);
        assert(decimal_value(d) == decimal_value(d.drop_last()) * 10 + digit_value(d.last()));
    } else {
        decimal_reads_back(n / 10);
        digits_in_order(n % 10);
        assert(d.drop_last() == decimal(n / 10));
        assert(d.last() == digit_char(n % 10));
        assert(decimal_value(d) == decimal_value(d.drop_last()) * 10 + digit_value(d.last()));
        assert((n / 10) * 10 + n % 10 == n);
        decimal_small(n / 10);
        assert(d[0] == decimal(n / 10)[0]);
    }
    decimal_small(n);
    if n < 10 {
        let t = two_digits(n);
        let z = seq!['0'];
        assert(t.drop_last() =~= z);
        assert(z.drop_last().len() == 0);
        assert(decimal_value(z.drop_last()) == 0);
        assert(decimal_value(z) == decimal_value(z.drop_last()) * 10 + digit_value(z.last()));
        assert(t.last() == digit_char(n));
        assert(decimal_value(t) == decimal_value(t.drop_last()) * 10 + digit_value(t.last()));
    }
}

/// The powers shape movement independently: the walking speed is doubled by
/// the speed power alone, whatever the jump power; the jump power alone
/// raises the jump and lightens gravity, whatever the speed power; with no
/// power the player jumps at 6 under a gravity of 20 at normal speed.
pub proof fn powers_tune_movement(has_super_jump: bool, has_speed: bool)
    ensures
        tuning_for(has_super_jump, has_speed).speed_factor == (if has_speed { 2u32 } else { 1u32 }),
        tuning_for(has_super_jump, has_speed).speed_factor == tuning_for(!has_super_jump, has_speed).speed_factor,
        tuning_for(has_super_jump, has_speed).jump_force == tuning_for(has_super_jump, !has_speed).jump_force,
        tuning_for(has_super_jump, has_speed).gravity == tuning_for(has_super_jump, !has_speed).gravity,
        tuning_for(true, has_speed).jump_force > tuning_for(false, has_speed).jump_force,
        tuning_for(true, has_speed).gravity < tuning_for(false, has_speed).gravity,
        tuning_for(false, has_speed).jump_force == JUMP_FORCE,
        tuning_for(false, has_speed).gravity == GRAVITY,
{
}

/// The number of hits of a volley that belong to the enemy at index `i`.
pub open spec fn hits_on(targets: Seq<usize>, i: int) -> nat
    decreases targets.len(),
{
    if targets.len() == 0 {
        0
    } else {
        hits_on(targets.drop_last(), i) + (if targets.last() as int == i { 1nat } else { 0nat })
    }
}

/// A volley takes ten life from an enemy for each of its hits that belongs to
/// that enemy, and leaves every other enemy as it was.
pub proof fn volley_takes_ten_per_hit(lives: Seq<i16>, targets: Seq<usize>, i: int)
    requires
        volley_can_land(lives, targets),
        0 <= i < lives.len(),
    ensures
        volley_lives(lives, targets).len() == lives.len(),
        volley_lives(lives, targets)[i] == lives[i] - SHOT_DAMAGE * hits_on(targets, i),
    decreases targets.len(),
{
    volley_lives_len(lives, targets);
    if targets.len() > 0 {
        volley_takes_ten_per_hit(lives, targets.drop_last(), i);
        let h = hits_on(targets.drop_last(), i);
        assert(SHOT_DAMAGE * (h + 1) == SHOT_DAMAGE * h + SHOT_DAMAGE) by (nonlinear_arith);
    }
}

/// Every power can be drawn: any of the three from a fresh draw, and any
/// power but the last card's when there was one; the two draws that avoid the
/// last card give two different powers, neither of them the last one. Each
/// power is shown in a colour of its own.
pub proof fn every_power_can_come(last: Superpower, power: Superpower)
    ensures
        exists|roll: u32| roll < 3 && power_of_roll(roll) == power,
        power != last ==> exists|roll: u32| roll < 2 && other_power_of_roll(last, roll) == power,
        other_power_of_roll(last, 0) != last,
        other_power_of_roll(last, 1) != last,
        other_power_of_roll(last, 0) != other_power_of_roll(last, 1),
        power_color(power) == power_color(last) ==> power == last,
{
    match power {
        Superpower::ELEXIR => assert(power_of_roll(0) == power),
        Superpower::SPEEP => assert(power_of_roll(1) == power),
        Superpower::JUMP => assert(power_of_roll(2) == power),
    }
    if power != last {
        if other_power_of_roll(last, 0) == power {
            assert(other_power_of_roll(last, 0) == power);
        } else {
            assert(other_power_of_roll(last, 1) == power);
        }
    }
}

/// Cards come more and more surely as the round goes on: the luck never falls
/// with the time played, is always at least 10, and is full (100) exactly
/// after 10 minutes.
pub proof fn luck_grows(earlier_ns: u64, later_ns: u64)
    requires
        earlier_ns <= later_ns,
    ensures
        luck_at(earlier_ns) <= luck_at(later_ns),
        luck_at(later_ns) >= 10,
        luck_at(later_ns) == 100 <==> later_ns > 600_000_000_000,
{
}

/// The enemy interval loses a second for every two minutes played and
/// reaches its floor of 2 s exactly at 12 minutes; the card interval loses a
/// second for every 100 s played and reaches its floor of 8 s exactly at 20
/// minutes.
pub proof fn spawn_floors_reached(elapsed_ns: u64)
    ensures
        enemy_interval_at(elapsed_ns) == MIN_ENEMIES_SPAWN_NS <==> elapsed_ns >= 720_000_000_000,
        elapsed_ns < 720_000_000_000 ==> enemy_interval_at(elapsed_ns) == ENEMIES_SPAWN_NS - elapsed_ns / 120,
        card_interval_at(elapsed_ns) == MIN_CARDS_SPAWN_NS <==> elapsed_ns >= 1_200_000_000_000,
        elapsed_ns < 1_200_000_000_000 ==> card_interval_at(elapsed_ns) == CARDS_SPAWN_NS - elapsed_ns / 100,
{
}

/// Firing: a shot leaves exactly when the weapon is attacking, the button is
/// held and the fire timer is ready; the speed power shortens the time
/// between shots from 100 ms to 60 ms.
pub proof fn holding_fires_on_the_timer(state: AttackState, input: AttackInput, fire_ready: bool)
    ensures
        fires(state, input, fire_ready) <==> (state == AttackState::Attacking && input.pressed && fire_ready),
        fire_interval(true) < fire_interval(false),
        fire_interval(false) == 100_000_000,
        fire_interval(true) == 60_000_000,
{
}

/// Switching the camera always changes the mode; the cursor shows exactly in
/// the free camera, and the camera goes back to standing height exactly when
/// it returns to the first-person view. Escape always shows the cursor
/// exactly when it frees it.
pub proof fn switch_shows_cursor_in_free_view(mode: CameraMode, c: CursorState)
    ensures
        switched(mode).mode != mode,
        switched(mode).cursor_visible <==> switched(mode).mode == CameraMode::Free,
        switched(mode).back_to_standing_height <==> switched(mode).mode == CameraMode::Fps,
        cursor_after_escape(c).visible <==> cursor_after_escape(c).grab == CursorGrab::Free,
        cursor_after_escape(c).grab != c.grab || c.grab == CursorGrab::Confined,
{
}

/// The stopwatch never runs backwards, and two runs add up as one: running
/// it for `a` then for `b` nanoseconds is running it for `a + b`, as long as
/// the sum fits; beyond that it holds at its largest value.
pub proof fn stopwatch_adds_up(elapsed_ns: u64, a: u64, b: u64)
    ensures
        ticked(elapsed_ns, a) >= elapsed_ns,
        a + b <= u64::MAX ==> ticked(ticked(elapsed_ns, a), b) == ticked(elapsed_ns, (a + b) as u64),
        elapsed_ns + a <= u64::MAX ==> ticked(elapsed_ns, a) == elapsed_ns + a,
        elapsed_ns + a > u64::MAX ==> ticked(elapsed_ns, a) == u64::MAX,
{
}

/// The life text reads back as the current life, the separator ` / `, and
/// the maximum life.
pub proof fn life_text_reads_back(p: Player)
    ensures
        ({
            let t = life_text(p);
            let k = decimal(p.current_life as nat).len() as int;
            &&& decimal_value(t.take(k)) == p.current_life
            &&& t.subrange(k, k + 3) == " / "@
            &&& decimal_value(t.skip(k + 3)) == p.max_life
        }),
{
    reveal_strlit(" / ");
    let cur = decimal(p.current_life as nat);
    let max = decimal(p.max_life as nat);
    let t = life_text(p);
    let k = cur.len() as int;
    assert(t.take(k) =~= cur);
    assert(t.subrange(k, k + 3) =~= " / "@);
    assert(t.skip(k + 3) =~= max);
    decimal_reads_back(p.current_life as nat);
    decimal_reads_back(p.max_life as nat);
}

/// The power label shows the letter of the last jump or speed card picked:
/// cards with no such power (elixirs) leave it as it was, and after a jump or
/// speed card it shows `J` or `S` whatever came before.
pub proof fn label_follows_last_power_card(label: PowerLabel, cards: Seq<Superpower>, power: Superpower)
    ensures
        !cards.contains(Superpower::JUMP) && !cards.contains(Superpower::SPEEP)
            ==> label_after_cards(label, cards) == label,
        power == Superpower::JUMP ==> label_chars(label_after_cards(label, cards.push(power))) == seq!['J'],
        power == Superpower::SPEEP ==> label_chars(label_after_cards(label, cards.push(power))) == seq!['S'],
        power == Superpower::ELEXIR ==> label_after_cards(label, cards.push(power)) == label_after_cards(label, cards),
        label_chars(PowerLabel::Blank).len() == 0,
    decreases cards.len(),
{
    assert(cards.push(power).drop_last() =~= cards);
    if cards.len() > 0 {
        let rest = cards.drop_last();
        label_follows_last_power_card(label, rest, power);
        if !cards.contains(Superpower::JUMP) && !cards.contains(Superpower::SPEEP) {
            assert forall|x: Superpower| rest.contains(x) implies cards.contains(x) by {
                let i = choose|i: int| 0 <= i < rest.len() && rest[i] == x;
                assert(cards[i] == x);
            }
            assert(cards[cards.len() - 1] == cards.last());
        }
    }
}

/// At most one enemy contact lands in a frame, however many enemies are in
/// reach: one exactly when some enemy is in reach and the shield has run out
/// by the end of the frame's tick, none otherwise.
pub proof fn one_hit_per_frame_at_most(shield: TimerModel, delta_ns: nat, enemies_in_reach: u32)
    ensures
        contact_hits(shield, delta_ns, enemies_in_reach) <= 1,
        enemies_in_reach == 0 ==> contact_hits(shield, delta_ns, enemies_in_reach) == 0,
        !after_tick(shield, delta_ns).finished ==> contact_hits(shield, delta_ns, enemies_in_reach) == 0,
        enemies_in_reach > 0 && after_tick(shield, delta_ns).finished
            ==> contact_hits(shield, delta_ns, enemies_in_reach) == 1,
{
}

/// The power timer starts over for a jump or a speed card, never for an
/// elixir; and when the powers wear off, both go and life is kept.
pub proof fn timed_powers(power: Superpower, p: Player)
    ensures
        is_timed_power(power) <==> power != Superpower::ELEXIR,
        !without_powers(p).has_super_jump && !without_powers(p).has_speed,
        without_powers(p).current_life == p.current_life,
        without_powers(p).max_life == p.max_life,
{
}

/// Each movement axis goes towards the key held alone, stands still with
/// both keys or neither, and swapping the two keys turns it around.
pub proof fn axes_follow_the_keys(plus: bool, minus: bool)
    ensures
        axis(true, false) == 1,
        axis(false, true) == -1,
        axis(plus, plus) == 0,
        axis(minus, plus) == -axis(plus, minus),
{
}

/// The clock reads back as the whole minutes played, a colon, and the
/// seconds past the minute.
pub proof fn clock_reads_back(elapsed_ns: u64)
    ensures
        ({
            let c = clock(elapsed_ns);
            let k = two_digits((elapsed_ns / 60_000_000_000) as nat).len() as int;
            &&& decimal_value(c.take(k)) == elapsed_ns / 60_000_000_000
            &&& c[k] == ':'
            &&& decimal_value(c.skip(k + 1)) == (elapsed_ns / 1_000_000_000) % 60
        }),
{
    let m = two_digits((elapsed_ns / 60_000_000_000) as nat);
    let sec = two_digits(((elapsed_ns / 1_000_000_000) % 60) as nat);
    let c = clock(elapsed_ns);
    let k = m.len() as int;
    assert(c == m + seq![':'] + sec);
    assert(c.take(k) =~= m);
    assert(c.skip(k + 1) =~= sec);
    decimal_reads_back((elapsed_ns / 60_000_000_000) as nat);
    decimal_reads_back(((elapsed_ns / 1_000_000_000) % 60) as nat);
}

/// The trophies take 5, 10 and 15 minutes, and the menu's line for each
/// shows its minutes after ` : `.
pub proof fn trophy_minutes(t: Trophy)
    ensures
        trophy_secs(Trophy::Bronze) == 5 * 60,
        trophy_secs(Trophy::Silver) == 10 * 60,
        trophy_secs(Trophy::Gold) == 15 * 60,
        menu_label_of(t).take(3) == " : "@,
        decimal_value(menu_label_of(t).subrange(3, 3 + decimal((trophy_secs(t) / 60) as nat).len() as int))
            == trophy_secs(t) / 60,
{
    reveal_strlit(" : ");
    let minutes = (trophy_secs(t) / 60) as nat;
    let l = menu_label_of(t);
    let d = decimal(minutes);
    assert(l.take(3) =~= " : "@);
    assert(l.subrange(3, 3 + d.len() as int) =~= d);
    decimal_reads_back(minutes);
}

/// A newly loaded animation player takes on exactly the animations of its
/// arms and skeleton ancestors: each binding names an ancestor of the kind
/// it binds, the bindings go from the nearest ancestor up, and every arms or
/// skeleton ancestor is bound.
pub proof fn bindings_name_the_animated_ancestors(chain: Seq<NodeRole>)
    requires
        chain.len() <= usize::MAX,
    ensures
        ({
            let b = bindings_upto(chain, chain.len() as int);
            &&& forall|k: int| 0 <= k < b.len() ==> {
                &&& 1 <= (#[trigger] b[k]).0 < chain.len()
                &&& (b[k].1 == AnimBinding::Arms <==> chain[b[k].0 as int] == NodeRole::Arms)
                &&& (b[k].1 == AnimBinding::Skeleton <==> chain[b[k].0 as int] == NodeRole::Skeleton)
            }
            &&& forall|k: int, l: int| 0 <= k < l < b.len() ==> (#[trigger] b[k]).0 < (#[trigger] b[l]).0
            &&& forall|i: int| 1 <= i < chain.len() && (#[trigger] chain[i] == NodeRole::Arms || chain[i] == NodeRole::Skeleton)
                ==> exists|k: int| 0 <= k < b.len() && b[k].0 == i
        }),
{
    bindings_upto_props(chain, chain.len() as int);
}

proof fn bindings_upto_props(chain: Seq<NodeRole>, n: int)
    requires
        0 <= n <= chain.len(),
        chain.len() <= usize::MAX,
    ensures
        ({
            let b = bindings_upto(chain, n);
            &&& forall|k: int| 0 <= k < b.len() ==> {
                &&& 1 <= (#[trigger] b[k]).0 < n
                &&& (b[k].1 == AnimBinding::Arms <==> chain[b[k].0 as int] == NodeRole::Arms)
                &&& (b[k].1 == AnimBinding::Skeleton <==> chain[b[k].0 as int] == NodeRole::Skeleton)
            }
            &&& forall|k: int, l: int| 0 <= k < l < b.len() ==> (#[trigger] b[k]).0 < (#[trigger] b[l]).0
            &&& forall|i: int| 1 <= i < n && (#[trigger] chain[i] == NodeRole::Arms || chain[i] == NodeRole::Skeleton)
                ==> exists|k: int| 0 <= k < b.len() && b[k].0 == i
        }),
    decreases n,
{
    if n > 1 {
        bindings_upto_props(chain, n - 1);
        let before = bindings_upto(chain, n - 1);
        let b = bindings_upto(chain, n);
        let role = chain[n - 1];
        if role == NodeRole::Arms || role == NodeRole::Skeleton {
            assert(b.len() == before.len() + 1);
            assert(forall|k: int| 0 <= k < before.len() ==> b[k] == before[k]);
            assert(b[before.len() as int].0 == n - 1);
            assert forall|i: int| 1 <= i < n && (#[trigger] chain[i] == NodeRole::Arms || chain[i] == NodeRole::Skeleton)
                implies exists|k: int| 0 <= k < b.len() && b[k].0 == i by {
                if i < n - 1 {
                    let k = choose|k: int| 0 <= k < before.len() && before[k].0 == i;
                    assert(b[k] == before[k]);
                } else {
                    assert(b[before.len() as int].0 == i);
                }
            }
        }
    }
}

/// A new timer starts with nothing elapsed and not finished; giving a timer
/// a new duration keeps the time it has counted and whether it finished.
pub proof fn new_duration_keeps_progress(t: TimerModel, duration_ns: nat, kind: TimerKind)
    ensures
        fresh_timer(duration_ns, kind).elapsed_ns == 0,
        !fresh_timer(duration_ns, kind).finished,
        !fresh_timer(duration_ns, kind).just_finished,
        fresh_timer(duration_ns, kind).duration_ns == duration_ns,
        fresh_timer(duration_ns, kind).kind == kind,
        with_duration(t, duration_ns).duration_ns == duration_ns,
        with_duration(t, duration_ns).elapsed_ns == t.elapsed_ns,
        with_duration(t, duration_ns).finished == t.finished,
        with_duration(t, duration_ns).just_finished == t.just_finished,
        with_duration(t, duration_ns).kind == t.kind,
{
}

} // verus!
