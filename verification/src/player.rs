//! The player's vitals, and what contact with enemies and cards does to them.

use crate::card::Superpower;
use crate::timekeeping::{after_reset, after_tick, fresh_timer, Countdown, TimerKind, TimerModel};
use vstd::prelude::*;

verus! {

/// Life the player starts with, and can never exceed.
pub const MAX_LIFE: u32 = 100;

/// Life lost on each enemy contact.
pub const CONTACT_DAMAGE: u32 = 30;

/// Life restored by an elixir card.
pub const ELIXIR_HEAL: u32 = 20;

/// How long the player is shielded after a hit, in nanoseconds.
pub const DAMAGE_COOLDOWN_NS: u64 = 1_000_000_000;

/// How long a jump or speed power lasts, in nanoseconds.
pub const SUPERPOWER_NS: u64 = 10_000_000_000;

/// The player's vitals and active powers. Life is counted in whole points.
#[derive(Clone, Copy, Debug, PartialEq, Eq, Structural)]
pub struct Player {
    pub current_life: u32,
    pub max_life: u32,
    pub has_super_jump: bool,
    pub has_speed: bool,
}

/// Life never exceeds its maximum.
pub open spec fn life_in_bounds(p: Player) -> bool {
    p.current_life <= p.max_life
}

/// Life after one enemy contact: thirty points less, and never below zero.
pub open spec fn life_after_hit(life: u32) -> u32 {
    if life >= CONTACT_DAMAGE {
        (life - CONTACT_DAMAGE) as u32
    } else {
        0
    }
}

/// Life after `hits` enemy contacts.
pub open spec fn life_after_hits(life: u32, hits: nat) -> u32
    decreases hits,
{
    if hits == 0 {
        life
    } else {
        life_after_hit(life_after_hits(life, (hits - 1) as nat))
    }
}

/// Life after an elixir: twenty points more, capped at the maximum.
pub open spec fn life_after_elixir(life: u32, max_life: u32) -> u32 {
    if life + ELIXIR_HEAL > max_life {
        max_life
    } else {
        (life + ELIXIR_HEAL) as u32
    }
}

/// The player after picking up a card of the given power.
pub open spec fn after_card(p: Player, power: Superpower) -> Player {
    match power {
        Superpower::ELEXIR => Player { current_life: life_after_elixir(p.current_life, p.max_life), ..p },
        Superpower::JUMP => Player { has_super_jump: true, ..p },
        Superpower::SPEEP => Player { has_speed: true, ..p },
    }
}

/// The player after picking up the given cards, in order.
pub open spec fn after_cards(p: Player, cards: Seq<Superpower>) -> Player
    decreases cards.len(),
{
    if cards.len() == 0 {
        p
    } else {
        after_card(after_cards(p, cards.drop_last()), cards.last())
    }
}

/// The player with both timed powers worn off.
pub open spec fn without_powers(p: Player) -> Player {
    Player { has_super_jump: false, has_speed: false, ..p }
}

/// Whether a card of this power starts the power timer.
pub open spec fn is_timed_power(power: Superpower) -> bool {
    power == Superpower::JUMP || power == Superpower::SPEEP
}

impl Default for Player {
    /// A fresh player: full life of 100 and no power.
    fn default() -> (p: Player)
        ensures
            p.current_life == MAX_LIFE,
            p.max_life == MAX_LIFE,
            !p.has_super_jump,
            !p.has_speed,
    {
        Player { current_life: MAX_LIFE, max_life: MAX_LIFE, has_super_jump: false, has_speed: false }
    }
}

impl Player {

    /// The player has no life left.
    pub fn is_dead(&self) -> (r: bool)
        ensures
            r == (self.current_life == 0),
    {
        self.current_life == 0
    }

    /// Restores full life, as when a new round starts.
    pub fn reset_life(&mut self)
        ensures
            *final(self) == (Player { current_life: old(self).max_life, ..*old(self) }),
    {
        self.current_life = self.max_life;
    }

    /// One enemy contact: thirty points of life lost, down to zero at most.
    pub fn take_hit(&mut self)
        ensures
            *final(self) == (Player { current_life: life_after_hit(old(self).current_life), ..*old(self) }),
    {
        if self.current_life >= CONTACT_DAMAGE {
            self.current_life = self.current_life - CONTACT_DAMAGE;
        } else {
            self.current_life = 0;
        }
    }

    /// Falling off the map: no life left.
    pub fn fall(&mut self)
        ensures
            *final(self) == (Player { current_life: 0, ..*old(self) }),
    {
        self.current_life = 0;
    }

    /// The timed powers wear off.
    pub fn lose_powers(&mut self)
        ensures
            *final(self) == without_powers(*old(self)),
    {
        self.has_super_jump = false;
        self.has_speed = false;
    }

    /// Picks up a card. Returns whether the power timer must start over.
    pub fn pick_up(&mut self, power: Superpower) -> (restart_timer: bool)
        ensures
            *final(self) == after_card(*old(self), power),
            restart_timer == is_timed_power(power),
    {
        match power {
            Superpower::ELEXIR => {
                let healed: u64 = self.current_life as u64 + ELIXIR_HEAL as u64;
                if healed > self.max_life as u64 {
                    self.current_life = self.max_life;
                } else {
                    self.current_life = healed as u32;
                }
                false
            },
            Superpower::JUMP => {
                self.has_super_jump = true;
                true
            },
            Superpower::SPEEP => {
                self.has_speed = true;
                true
            },
        }
    }
}

/// The shield after a hit: a one-shot timer of one second.
pub struct DamageCooldown {
    pub timer: Countdown,
}

impl Default for DamageCooldown {
    /// A one-second one-shot timer, not yet started.
    fn default() -> (d: Self)
        ensures
            d.timer@ == fresh_timer(DAMAGE_COOLDOWN_NS as nat, TimerKind::Once),
    {
        DamageCooldown { timer: Countdown::new(DAMAGE_COOLDOWN_NS, TimerKind::Once) }
    }
}

/// The time left on the jump and speed powers: a ten-second one-shot timer.
pub struct SuperpowerCooldown {
    pub timer: Countdown,
}

/// A ten-second one-shot timer that has run to its end in the last tick.
pub open spec fn spent_power_timer() -> TimerModel {
    TimerModel {
        duration_ns: SUPERPOWER_NS as nat,
        kind: TimerKind::Once,
        elapsed_ns: SUPERPOWER_NS as nat,
        finished: true,
        just_finished: true,
    }
}

impl Default for SuperpowerCooldown {
    /// A ten-second one-shot timer that has already run out, so that no power
    /// is active at the start.
    fn default() -> (d: Self)
        ensures
            d.timer@ == spent_power_timer(),
    {
        let mut timer = Countdown::new(SUPERPOWER_NS, TimerKind::Once);
        timer.tick(SUPERPOWER_NS);
        SuperpowerCooldown { timer }
    }
}

/// The player after a frame of contacts: the timed powers worn off first if
/// `expired`, then `hits` enemy contacts, then the cards picked up in order.
pub open spec fn after_contacts(p: Player, expired: bool, hits: nat, cards: Seq<Superpower>) -> Player {
    let start = if expired { without_powers(p) } else { p };
    after_cards(Player { current_life: life_after_hits(p.current_life, hits), ..start }, cards)
}

/// Some card among these starts the power timer.
pub open spec fn has_timed_power(cards: Seq<Superpower>) -> bool {
    exists|i: int| 0 <= i < cards.len() && is_timed_power(#[trigger] cards[i])
}

/// Hits in a frame: one when an enemy is in reach and the shield, after its
/// tick, has run out; none otherwise.
pub open spec fn contact_hits(shield: TimerModel, delta_ns: nat, enemies_in_reach: u32) -> nat {
    if enemies_in_reach > 0 && after_tick(shield, delta_ns).finished { 1 } else { 0 }
}

/// One frame of contacts between the player and the world.
///
/// Both timers advance by `delta_ns` nanoseconds; without a player (`None`)
/// nothing else happens. If the power timer ran out in this tick, the timed
/// powers wear off. Then each of the `enemies_in_reach` enemies close enough
/// to touch the player deals a hit if the shield has run out, and starts the
/// shield again, so that at most one hit lands. Last, each card in reach is
/// picked up in order; a jump or speed card starts the power timer again.
///
/// Returns the player after the frame and the number of hits taken.
pub fn check_for_collisions(
    player: Option<Player>,
    damage: &mut DamageCooldown,
    superpower: &mut SuperpowerCooldown,
    delta_ns: u64,
    enemies_in_reach: u32,
    cards_in_reach: &Vec<Superpower>,
) -> (r: (Option<Player>, u32))
    ensures
        ({
            let shield = after_tick(old(damage).timer@, delta_ns as nat);
            let power = after_tick(old(superpower).timer@, delta_ns as nat);
            match player {
                None => {
                    &&& r.0 is None && r.1 == 0
                    &&& final(damage).timer@ == shield
                    &&& final(superpower).timer@ == power
                },
                Some(p) => {
                    let hits = contact_hits(old(damage).timer@, delta_ns as nat, enemies_in_reach);
                    &&& r.1 == hits
                    &&& r.0 == Some(after_contacts(p, power.just_finished, hits, cards_in_reach@))
                    &&& final(damage).timer@ == (if hits == 1 { after_reset(shield) } else { shield })
                    &&& final(superpower).timer@ == (if has_timed_power(cards_in_reach@) {
                        after_reset(power)
                    } else {
                        power
                    })
                },
            }
        }),
{
    damage.timer.tick(delta_ns);
    superpower.timer.tick(delta_ns);
    let mut current = match player {
        None => {
            return (None, 0);
        },
        Some(p) => p,
    };
    let ghost start = current;
    let ghost shield = damage.timer@;
    let ghost power = superpower.timer@;
    let expired = superpower.timer.just_finished();
    if expired {
        current.lose_powers();
    }
    let ghost base = current;
    let mut hits: u32 = 0;
    let mut i: u32 = 0;
    while i < enemies_in_reach
        invariant
            i <= enemies_in_reach,
            hits <= 1,
            hits == (if i > 0 && shield.finished { 1u32 } else { 0u32 }),
            damage.timer@ == (if hits == 1 { after_reset(shield) } else { shield }),
            current == (Player { current_life: life_after_hits(base.current_life, hits as nat), ..base }),
        decreases enemies_in_reach - i,
    {
        if damage.timer.is_finished() {
            current.take_hit();
            damage.timer.reset();
            hits = hits + 1;
        }
        i = i + 1;
    }
    let ghost hit_player = current;
    let mut j: usize = 0;
    while j < cards_in_reach.len()
        invariant
            j <= cards_in_reach.len(),
            current == after_cards(hit_player, cards_in_reach@.subrange(0, j as int)),
            superpower.timer@ == (if has_timed_power(cards_in_reach@.subrange(0, j as int)) {
                after_reset(power)
            } else {
                power
            }),
        decreases cards_in_reach.len() - j,
    {
        let power_card = cards_in_reach[j];
        if current.pick_up(power_card) {
            superpower.timer.reset();
        }
        proof {
            let before = cards_in_reach@.subrange(0, j as int);
            let after = cards_in_reach@.subrange(0, j + 1 as int);
            assert(after.drop_last() =~= before);
            assert(after.last() == power_card);
            if has_timed_power(before) {
                let k = choose|k: int| 0 <= k < before.len() && is_timed_power(#[trigger] before[k]);
                assert(after[k] == before[k]);
            }
            if is_timed_power(power_card) {
                assert(after[j as int] == power_card);
            }
            if has_timed_power(after) && !is_timed_power(power_card) {
                let k = choose|k: int| 0 <= k < after.len() && is_timed_power(#[trigger] after[k]);
                assert(k != j);
                assert(before[k] == after[k]);
            }
        }
        j = j + 1;
    }
    assert(cards_in_reach@.subrange(0, cards_in_reach.len() as int) =~= cards_in_reach@);
    let r = (Some(current), hits);
    assert(r.0 == Some(after_contacts(start, expired, r.1 as nat, cards_in_reach@)));
    r
}

} // verus!
