//! Power-up cards: what each one looks like, and how the next one is drawn.

use crate::timekeeping::random_below;
use vstd::prelude::*;

verus! {

/// The three power-ups a card can carry.
#[derive(Clone, Copy, Debug, PartialEq, Eq, Structural)]
pub enum Superpower {
    ELEXIR,
    SPEEP,
    JUMP,
}

/// A colour given by its three 8-bit sRGB channels.
#[derive(Clone, Copy, Debug, PartialEq, Eq, Structural)]
pub struct Rgb8 {
    pub r: u8,
    pub g: u8,
    pub b: u8,
}

/// The colour in which each power is shown on screen.
pub open spec fn power_color(power: Superpower) -> Rgb8 {
    match power {
        Superpower::ELEXIR => Rgb8 { r: 255, g: 0, b: 0 },
        Superpower::SPEEP => Rgb8 { r: 35, g: 144, b: 99 },
        Superpower::JUMP => Rgb8 { r: 56, g: 89, b: 179 },
    }
}

/// The power named by a draw from `0..3`: 0 is the elixir, 1 speed, anything
/// else the jump.
pub open spec fn power_of_roll(roll: u32) -> Superpower {
    if roll == 0 {
        Superpower::ELEXIR
    } else if roll == 1 {
        Superpower::SPEEP
    } else {
        Superpower::JUMP
    }
}

impl Superpower {
    /// The colour of this power's card and screen flash.
    pub fn color(&self) -> (c: Rgb8)
        ensures
            c == power_color(*self),
    {
        match self {
            Superpower::ELEXIR => Rgb8 { r: 255, g: 0, b: 0 },
            Superpower::SPEEP => Rgb8 { r: 35, g: 144, b: 99 },
            Superpower::JUMP => Rgb8 { r: 56, g: 89, b: 179 },
        }
    }
}

/// The sprite drawn on a card of the given power.
pub fn card_texture(power: Superpower) -> (path: &'static str)
    ensures
        power == Superpower::ELEXIR ==> path@ == "sprites/coeur.png"@,
        power == Superpower::SPEEP ==> path@ == "sprites/speed.png"@,
        power == Superpower::JUMP ==> path@ == "sprites/jump.png"@,
{
    match power {
        Superpower::ELEXIR => "sprites/coeur.png",
        Superpower::SPEEP => "sprites/speed.png",
        Superpower::JUMP => "sprites/jump.png",
    }
}

/// The power of the last card that was spawned, if any.
pub struct LastCardSpawned {
    pub last_power: Option<Superpower>,
}

impl Default for LastCardSpawned {
    /// No card spawned yet.
    fn default() -> (s: Self)
        ensures
            s.last_power is None,
    {
        LastCardSpawned { last_power: None }
    }
}

/// Maps a draw from `0..3` to a power.
pub fn power_from_roll(roll: u32) -> (p: Superpower)
    ensures
        p == power_of_roll(roll),
{
    if roll == 0 {
        Superpower::ELEXIR
    } else if roll == 1 {
        Superpower::SPEEP
    } else {
        Superpower::JUMP
    }
}

/// The power named by a draw from `0..2` among the two powers other than
/// `last`, in the order elixir, speed, jump.
pub open spec fn other_power_of_roll(last: Superpower, roll: u32) -> Superpower {
    match last {
        Superpower::ELEXIR => if roll == 0 { Superpower::SPEEP } else { Superpower::JUMP },
        Superpower::SPEEP => if roll == 0 { Superpower::ELEXIR } else { Superpower::JUMP },
        Superpower::JUMP => if roll == 0 { Superpower::ELEXIR } else { Superpower::SPEEP },
    }
}

fn other_power_from_roll(last: Superpower, roll: u32) -> (p: Superpower)
    ensures
        p == other_power_of_roll(last, roll),
        p != last,
{
    match last {
        Superpower::ELEXIR => if roll == 0 { Superpower::SPEEP } else { Superpower::JUMP },
        Superpower::SPEEP => if roll == 0 { Superpower::ELEXIR } else { Superpower::JUMP },
        Superpower::JUMP => if roll == 0 { Superpower::ELEXIR } else { Superpower::SPEEP },
    }
}

/// Draws the power of the next card and records it as the last one.
///
/// The power is drawn uniformly among those that differ from the last card
/// spawned: among all three when there is none, else among the other two.
/// This is the distribution of drawing among all three until the draw
/// differs from the last card.
pub fn draw_card(last: &mut LastCardSpawned) -> (p: Superpower)
    ensures
        Some(p) != old(last).last_power,
        final(last).last_power == Some(p),
        old(last).last_power is None ==> exists|roll: u32| roll < 3 && p == power_of_roll(roll),
        old(last).last_power matches Some(l) ==> exists|roll: u32| roll < 2 && p == other_power_of_roll(l, roll),
{
    let p = match last.last_power {
        None => {
            let roll = random_below(3);
            let p = power_from_roll(roll);
            assert(roll < 3 && p == power_of_roll(roll));
            p
        },
        Some(l) => {
            let roll = random_below(2);
            let p = other_power_from_roll(l, roll);
            assert(roll < 2 && p == other_power_of_roll(l, roll));
            p
        },
    };
    last.last_power = Some(p);
    p
}

} // verus!
