//! The texts of the heads-up display: clock, life, active power.

use crate::card::{power_color, Rgb8, Superpower};
use crate::player::Player;
use crate::scene::{clock, clock_text};
use crate::text::{decimal, push_decimal, string_of};
use vstd::prelude::*;

verus! {

/// The stopwatch after running for `delta_ns` more nanoseconds: the sum,
/// held at `u64::MAX` (some 584 years) rather than wrapping.
pub open spec fn ticked(elapsed_ns: u64, delta_ns: u64) -> u64 {
    if elapsed_ns + delta_ns > u64::MAX {
        u64::MAX
    } else {
        (elapsed_ns + delta_ns) as u64
    }
}

/// A time in nanoseconds, in whole milliseconds.
pub open spec fn whole_ms(ns: u64) -> u64 {
    ns / 1_000_000
}

/// The time played in the current round, in nanoseconds: a stopwatch that
/// starts at zero, adds each frame's time and goes back to zero on reset.
pub struct GameTimer(pub u64);

impl GameTimer {
    /// A stopwatch at zero.
    pub fn new() -> (t: Self)
        ensures
            t.0 == 0,
    {
        GameTimer(0)
    }

    /// The time played, in whole milliseconds.
    pub fn elapsed_ms(&self) -> (ms: u64)
        ensures
            ms == whole_ms(self.0),
    {
        self.0 / 1_000_000
    }

    /// Runs the stopwatch for `delta_ns` more nanoseconds.
    pub fn tick(&mut self, delta_ns: u64)
        ensures
            final(self).0 == ticked(old(self).0, delta_ns),
    {
        self.0 = self.0.saturating_add(delta_ns);
    }
}

/// While playing: the clock advances by `delta_ns` nanoseconds; returns the
/// time played, in nanoseconds, and the clock text `MM:SS` for it.
pub fn update_game_timer(game_timer: &mut GameTimer, delta_ns: u64) -> (r: (u64, String))
    ensures
        final(game_timer).0 == ticked(old(game_timer).0, delta_ns),
        r.0 == final(game_timer).0,
        r.1@ == clock(r.0),
{
    game_timer.tick(delta_ns);
    let elapsed = game_timer.0;
    (elapsed, clock_text(elapsed))
}

/// A new round: the clock goes back to zero.
pub fn reset_game_timer(game_timer: &mut GameTimer)
    ensures
        final(game_timer).0 == 0,
{
    game_timer.0 = 0;
}

/// The life text: `current / max`.
pub open spec fn life_text(p: Player) -> Seq<char> {
    decimal(p.current_life as nat) + " / "@ + decimal(p.max_life as nat)
}

/// Writes the life text.
pub fn health_text(player: &Player) -> (s: String)
    ensures
        s@ == life_text(*player),
{
    proof {
        reveal_strlit("");
        reveal_strlit(" / ");
    }
    let mut s = string_of("");
    push_decimal(&mut s, player.current_life as u64);
    s.append(" / ");
    push_decimal(&mut s, player.max_life as u64);
    s
}

/// The text shown next to the life bar for an active power.
#[derive(Clone, Copy, Debug, PartialEq, Eq, Structural)]
pub enum PowerLabel {
    /// Nothing shown.
    Blank,
    /// "J": the jump power.
    Jump,
    /// "S": the speed power.
    Speed,
}

/// The label after a card is picked: jump and speed cards show their letter,
/// an elixir leaves the label as it is.
pub open spec fn label_after_card(label: PowerLabel, power: Superpower) -> PowerLabel {
    match power {
        Superpower::JUMP => PowerLabel::Jump,
        Superpower::SPEEP => PowerLabel::Speed,
        Superpower::ELEXIR => label,
    }
}

/// The label after the given cards, in order.
pub open spec fn label_after_cards(label: PowerLabel, cards: Seq<Superpower>) -> PowerLabel
    decreases cards.len(),
{
    if cards.len() == 0 {
        label
    } else {
        label_after_card(label_after_cards(label, cards.drop_last()), cards.last())
    }
}

/// What the label shows.
pub open spec fn label_chars(label: PowerLabel) -> Seq<char> {
    match label {
        PowerLabel::Blank => seq![],
        PowerLabel::Jump => seq!['J'],
        PowerLabel::Speed => seq!['S'],
    }
}

impl PowerLabel {
    /// The text of the label.
    pub fn text(self) -> (s: String)
        ensures
            s@ == label_chars(self),
    {
        proof {
            reveal_strlit("");
            reveal_strlit("J");
            reveal_strlit("S");
        }
        match self {
            PowerLabel::Blank => string_of(""),
            PowerLabel::Jump => string_of("J"),
            PowerLabel::Speed => string_of("S"),
        }
    }
}

/// One frame of the power label: each card picked sets the label and its
/// colour in turn; then, when no power is active, the label is blanked.
/// Returns the new label and the colour of the last card picked, if any.
pub fn update_superpower_ui(label: PowerLabel, picked: &Vec<Superpower>, player: &Player) -> (r: (
    PowerLabel,
    Option<Rgb8>,
))
    ensures
        r.0 == (if !player.has_super_jump && !player.has_speed { PowerLabel::Blank } else {
            label_after_cards(label, picked@)
        }),
        r.1 == (if picked.len() == 0 { None::<Rgb8> } else { Some(power_color(picked@.last())) }),
{
    let mut current = label;
    let mut color: Option<Rgb8> = None;
    let mut i: usize = 0;
    while i < picked.len()
        invariant
            i <= picked.len(),
            current == label_after_cards(label, picked@.take(i as int)),
            color == (if i == 0 { None::<Rgb8> } else { Some(power_color(picked@[i - 1])) }),
        decreases picked.len() - i,
    {
        let power = picked[i];
        current = match power {
            Superpower::JUMP => PowerLabel::Jump,
            Superpower::SPEEP => PowerLabel::Speed,
            Superpower::ELEXIR => current,
        };
        color = Some(power.color());
        proof {
            assert(picked@.take(i + 1).drop_last() =~= picked@.take(i as int));
        }
        i = i + 1;
    }
    assert(picked@.take(picked.len() as int) =~= picked@);
    if !player.has_super_jump && !player.has_speed {
        current = PowerLabel::Blank;
    }
    (current, color)
}

} // verus!
