//! The flow of a round: menu, play, game over; the enemy waves and cards that
//! the arena spawns as time goes on; and the trophy earned.

use crate::card::{draw_card, LastCardSpawned, Superpower};
use crate::enemy::{
    elite_skull, plain_skull, SkeletonEnemy, SkullEnemy, SKELETON_LIFE, SKELETON_REDIRECT_NS,
};
use crate::player::Player;
use crate::text::{decimal, push_decimal, push_two_digits, string_of, two_digits};
use crate::timekeeping::{after_tick, fresh_timer, random_below, with_duration, Countdown, TimerKind};
use crate::ui::GameTimer;
use vstd::prelude::*;

verus! {

/// Time between two enemy waves at the start, in nanoseconds.
pub const ENEMIES_SPAWN_NS: u64 = 8_000_000_000;

/// Time between two card draws at the start, in nanoseconds.
pub const CARDS_SPAWN_NS: u64 = 20_000_000_000;

/// The shortest time between two enemy waves, in nanoseconds.
pub const MIN_ENEMIES_SPAWN_NS: u64 = 2_000_000_000;

/// The shortest time between two card draws, in nanoseconds.
pub const MIN_CARDS_SPAWN_NS: u64 = 8_000_000_000;

/// Number of enemy spawn sounds to pick from.
pub const SPAWN_SOUNDS: u32 = 5;

/// The screen the game is on.
#[derive(Clone, Copy, Debug, PartialEq, Eq, Structural)]
pub enum GameState {
    Menu,
    Playing,
    GameOver,
}

/// What moves the game from one screen to another.
#[derive(Clone, Copy, Debug, PartialEq, Eq, Structural)]
pub enum GameEvent {
    /// Enter was pressed.
    Start,
    /// The player ran out of life.
    PlayerDied,
}

/// The game starts on the menu.
pub open spec fn initial_state() -> GameState {
    GameState::Menu
}

/// The screen after an event: Enter starts a round from the menu or the game
/// over screen; running out of life ends a round in play; anything else
/// leaves the screen as it is.
pub open spec fn next_game_state(state: GameState, event: GameEvent) -> GameState {
    match (state, event) {
        (GameState::Menu, GameEvent::Start) => GameState::Playing,
        (GameState::GameOver, GameEvent::Start) => GameState::Playing,
        (GameState::Playing, GameEvent::PlayerDied) => GameState::GameOver,
        _ => state,
    }
}

impl Default for GameState {
    /// The first screen.
    fn default() -> (s: GameState)
        ensures
            s == initial_state(),
    {
        GameState::Menu
    }
}

impl GameState {

    /// The screen after an event.
    pub fn on_event(self, event: GameEvent) -> (s: GameState)
        ensures
            s == next_game_state(self, event),
    {
        match (self, event) {
            (GameState::Menu, GameEvent::Start) => GameState::Playing,
            (GameState::GameOver, GameEvent::Start) => GameState::Playing,
            (GameState::Playing, GameEvent::PlayerDied) => GameState::GameOver,
            _ => self,
        }
    }
}

/// While playing: the round ends when the player has no life left.
pub fn check_player_death(player: &Player) -> (next: Option<GameState>)
    ensures
        next == (if player.current_life == 0 { Some(GameState::GameOver) } else { None::<GameState> }),
{
    if player.is_dead() { Some(GameState::GameOver) } else { None }
}

/// On the menu or the game over screen: Enter starts a round.
pub fn reset_input(enter_just_pressed: bool) -> (next: Option<GameState>)
    ensures
        next == (if enter_just_pressed { Some(GameState::Playing) } else { None::<GameState> }),
{
    if enter_just_pressed { Some(GameState::Playing) } else { None }
}

/// How many enemies of each kind a wave brings.
#[derive(Clone, Copy, Debug, PartialEq, Eq, Structural)]
pub struct Wave {
    pub skulls: u8,
    pub elites: u8,
    pub skeletons: u8,
}

/// The wave for the time played, in nanoseconds: two skulls up to 30 s;
/// a skeleton joins up to 2 min 30; three skulls up to 5 min; four skulls and
/// two elites up to 10 min; then five skulls, two elites and three skeletons.
pub open spec fn wave_at(elapsed_ns: u64) -> Wave {
    if elapsed_ns <= 30_000_000_000 {
        Wave { skulls: 2, elites: 0, skeletons: 0 }
    } else if elapsed_ns <= 150_000_000_000 {
        Wave { skulls: 2, elites: 0, skeletons: 1 }
    } else if elapsed_ns <= 300_000_000_000 {
        Wave { skulls: 3, elites: 0, skeletons: 1 }
    } else if elapsed_ns <= 600_000_000_000 {
        Wave { skulls: 4, elites: 2, skeletons: 1 }
    } else {
        Wave { skulls: 5, elites: 2, skeletons: 3 }
    }
}

/// The wave for the time played.
pub fn wave_for(elapsed_ns: u64) -> (w: Wave)
    ensures
        w == wave_at(elapsed_ns),
{
    if elapsed_ns <= 30_000_000_000 {
        Wave { skulls: 2, elites: 0, skeletons: 0 }
    } else if elapsed_ns <= 150_000_000_000 {
        Wave { skulls: 2, elites: 0, skeletons: 1 }
    } else if elapsed_ns <= 300_000_000_000 {
        Wave { skulls: 3, elites: 0, skeletons: 1 }
    } else if elapsed_ns <= 600_000_000_000 {
        Wave { skulls: 4, elites: 2, skeletons: 1 }
    } else {
        Wave { skulls: 5, elites: 2, skeletons: 3 }
    }
}

/// The card luck for the time played: 10 up to 2 min 30, 25 up to 5 min,
/// 50 up to 10 min, then 100. A draw succeeds when a roll from `[0, 1)` is
/// below it, so every draw succeeds.
pub open spec fn luck_at(elapsed_ns: u64) -> u32 {
    if elapsed_ns <= 150_000_000_000 {
        10
    } else if elapsed_ns <= 300_000_000_000 {
        25
    } else if elapsed_ns <= 600_000_000_000 {
        50
    } else {
        100
    }
}

/// The card luck for the time played.
pub fn card_luck(elapsed_ns: u64) -> (luck: u32)
    ensures
        luck == luck_at(elapsed_ns),
        luck >= 10,
{
    if elapsed_ns <= 150_000_000_000 {
        10
    } else if elapsed_ns <= 300_000_000_000 {
        25
    } else if elapsed_ns <= 600_000_000_000 {
        50
    } else {
        100
    }
}

/// Time between enemy waves: 8 s, a second less for every two minutes
/// played (one nanosecond less for every 120 ns), never below 2 s.
pub open spec fn enemy_interval_at(elapsed_ns: u64) -> u64 {
    if ENEMIES_SPAWN_NS - elapsed_ns / 120 > MIN_ENEMIES_SPAWN_NS {
        (ENEMIES_SPAWN_NS - elapsed_ns / 120) as u64
    } else {
        MIN_ENEMIES_SPAWN_NS
    }
}

/// Time between card draws: 20 s, one nanosecond less for every 100 ns
/// played, never below 8 s.
pub open spec fn card_interval_at(elapsed_ns: u64) -> u64 {
    if CARDS_SPAWN_NS - elapsed_ns / 100 > MIN_CARDS_SPAWN_NS {
        (CARDS_SPAWN_NS - elapsed_ns / 100) as u64
    } else {
        MIN_CARDS_SPAWN_NS
    }
}

/// Time between enemy waves, in nanoseconds.
pub fn enemy_spawn_interval(elapsed_ns: u64) -> (ns: u64)
    ensures
        ns == enemy_interval_at(elapsed_ns),
{
    let cut = elapsed_ns / 120;
    if cut < ENEMIES_SPAWN_NS && ENEMIES_SPAWN_NS - cut > MIN_ENEMIES_SPAWN_NS {
        ENEMIES_SPAWN_NS - cut
    } else {
        MIN_ENEMIES_SPAWN_NS
    }
}

/// Time between card draws, in nanoseconds.
pub fn card_spawn_interval(elapsed_ns: u64) -> (ns: u64)
    ensures
        ns == card_interval_at(elapsed_ns),
{
    let cut = elapsed_ns / 100;
    if cut < CARDS_SPAWN_NS && CARDS_SPAWN_NS - cut > MIN_CARDS_SPAWN_NS {
        CARDS_SPAWN_NS - cut
    } else {
        MIN_CARDS_SPAWN_NS
    }
}

/// The timer between enemy waves.
pub struct EnemySpawnTimer(pub Countdown);

/// The timer between card draws.
pub struct CardSpawnTimer(pub Countdown);

impl EnemySpawnTimer {
    /// A repeating timer of 8 s.
    pub fn new() -> (t: Self)
        ensures
            t.0@ == fresh_timer(ENEMIES_SPAWN_NS as nat, TimerKind::Repeating),
    {
        EnemySpawnTimer(Countdown::new(ENEMIES_SPAWN_NS, TimerKind::Repeating))
    }
}

impl CardSpawnTimer {
    /// A repeating timer of 20 s.
    pub fn new() -> (t: Self)
        ensures
            t.0@ == fresh_timer(CARDS_SPAWN_NS as nat, TimerKind::Repeating),
    {
        CardSpawnTimer(Countdown::new(CARDS_SPAWN_NS, TimerKind::Repeating))
    }
}

/// While playing: sets both spawn timers' durations from the time played
/// (nothing else of them changes). Returns the time played that was read, in
/// nanoseconds, and the two intervals set.
pub fn adjust_spawn_rate(
    enemy_timer: &mut EnemySpawnTimer,
    card_timer: &mut CardSpawnTimer,
    game_timer: &GameTimer,
) -> (r: (u64, u64, u64))
    ensures
        r.0 == game_timer.0,
        r.1 == enemy_interval_at(r.0),
        r.2 == card_interval_at(r.0),
        final(enemy_timer).0@ == with_duration(old(enemy_timer).0@, r.1 as nat),
        final(card_timer).0@ == with_duration(old(card_timer).0@, r.2 as nat),
{
    let elapsed = game_timer.0;
    let enemy_ns = enemy_spawn_interval(elapsed);
    enemy_timer.0.set_duration(enemy_ns);
    let card_ns = card_spawn_interval(elapsed);
    card_timer.0.set_duration(card_ns);
    (elapsed, enemy_ns, card_ns)
}

/// A wave to spawn, and which of the spawn sounds announces it, with the
/// record of each enemy: the plain skulls, then the elite ones, then the
/// skeletons.
pub struct WavePlan {
    pub wave: Wave,
    pub sound: u32,
    pub skulls: Vec<SkullEnemy>,
    pub skeletons: Vec<SkeletonEnemy>,
}

/// The skulls of a wave: its plain skulls, then its elite ones.
pub open spec fn wave_skulls(w: Wave) -> Seq<SkullEnemy> {
    Seq::new(w.skulls as nat, |i: int| plain_skull()) + Seq::new(w.elites as nat, |i: int| elite_skull())
}

/// The records of the enemies of a wave.
pub fn wave_enemies(w: Wave) -> (r: (Vec<SkullEnemy>, Vec<SkeletonEnemy>))
    ensures
        r.0@ == wave_skulls(w),
        r.1.len() == w.skeletons,
        forall|i: int| 0 <= i < r.1.len() ==> {
            &&& (#[trigger] r.1[i]).life == SKELETON_LIFE
            &&& r.1[i].redirect_timer@ == fresh_timer(SKELETON_REDIRECT_NS as nat, TimerKind::Repeating)
        },
{
    let mut skulls: Vec<SkullEnemy> = Vec::new();
    let mut i: u8 = 0;
    while i < w.skulls
        invariant
            i <= w.skulls,
            skulls@ =~= Seq::new(i as nat, |k: int| plain_skull()),
        decreases w.skulls - i,
    {
        skulls.push(SkullEnemy::default());
        i = i + 1;
    }
    let mut j: u8 = 0;
    while j < w.elites
        invariant
            j <= w.elites,
            skulls@ =~= Seq::new(w.skulls as nat, |k: int| plain_skull()) + Seq::new(j as nat, |k: int| elite_skull()),
        decreases w.elites - j,
    {
        skulls.push(SkullEnemy::elite());
        j = j + 1;
    }
    let mut skeletons: Vec<SkeletonEnemy> = Vec::new();
    let mut k: u8 = 0;
    while k < w.skeletons
        invariant
            k <= w.skeletons,
            skeletons.len() == k,
            forall|i: int| 0 <= i < skeletons.len() ==> {
                &&& (#[trigger] skeletons[i]).life == SKELETON_LIFE
                &&& skeletons[i].redirect_timer@ == fresh_timer(SKELETON_REDIRECT_NS as nat, TimerKind::Repeating)
            },
        decreases w.skeletons - k,
    {
        skeletons.push(SkeletonEnemy::default());
        k = k + 1;
    }
    (skulls, skeletons)
}

/// What the arena spawns in one frame. Where each enemy and card appears and
/// how fast a skull flies are drawn by the application.
pub struct SpawnPlan {
    /// The time played that the plan was made from, in nanoseconds.
    pub elapsed_ns: u64,
    pub wave: Option<WavePlan>,
    pub card: Option<Superpower>,
}

/// One frame of spawning.
///
/// Both spawn timers advance by `delta_ns` nanoseconds. When the enemy timer
/// wraps in this tick, a wave sized by the time played is due, announced by
/// one of the five spawn sounds drawn at random. When the card timer wraps, a
/// card is due: the luck (`card_luck`) is at least 10 and a luck roll falls in
/// `[0, 1)`, so the roll always succeeds and is not drawn. The card's power is
/// drawn so that it differs from the last card spawned, and is recorded as
/// the last one.
pub fn spawn_entities(
    enemy_timer: &mut EnemySpawnTimer,
    card_timer: &mut CardSpawnTimer,
    game_timer: &GameTimer,
    last_card: &mut LastCardSpawned,
    delta_ns: u64,
) -> (plan: SpawnPlan)
    ensures
        plan.elapsed_ns == game_timer.0,
        final(enemy_timer).0@ == after_tick(old(enemy_timer).0@, delta_ns as nat),
        final(card_timer).0@ == after_tick(old(card_timer).0@, delta_ns as nat),
        plan.wave is Some <==> final(enemy_timer).0@.just_finished,
        plan.wave matches Some(w) ==> {
            &&& w.wave == wave_at(plan.elapsed_ns)
            &&& w.sound < SPAWN_SOUNDS
            &&& w.skulls@ == wave_skulls(w.wave)
            &&& w.skeletons.len() == w.wave.skeletons
            &&& forall|i: int| 0 <= i < w.skeletons.len() ==> {
                &&& (#[trigger] w.skeletons[i]).life == SKELETON_LIFE
                &&& w.skeletons[i].redirect_timer@ == fresh_timer(SKELETON_REDIRECT_NS as nat, TimerKind::Repeating)
            }
        },
        plan.card is Some <==> final(card_timer).0@.just_finished,
        plan.card matches Some(c) ==> Some(c) != old(last_card).last_power
            && final(last_card).last_power == Some(c),
        plan.card is None ==> final(last_card).last_power == old(last_card).last_power,
{
    let elapsed = game_timer.0;
    enemy_timer.0.tick(delta_ns);
    let wave = if enemy_timer.0.just_finished() {
        let counts = wave_for(elapsed);
        let sound = random_below(SPAWN_SOUNDS);
        let (skulls, skeletons) = wave_enemies(counts);
        Some(WavePlan { wave: counts, sound, skulls, skeletons })
    } else {
        None
    };
    card_timer.0.tick(delta_ns);
    let card = if card_timer.0.just_finished() {
        Some(draw_card(last_card))
    } else {
        None
    };
    SpawnPlan { elapsed_ns: elapsed, wave, card }
}

/// The trophies a round can earn.
#[derive(Clone, Copy, Debug, PartialEq, Eq, Structural)]
pub enum Trophy {
    Bronze,
    Silver,
    Gold,
}

/// The time a trophy takes, in seconds.
pub open spec fn trophy_secs(t: Trophy) -> u64 {
    match t {
        Trophy::Bronze => 300,
        Trophy::Silver => 600,
        Trophy::Gold => 900,
    }
}

/// The menu's line for a trophy: ` : `, its minutes, ` min`, and a space
/// when the minutes take one digit.
pub open spec fn menu_label_of(t: Trophy) -> Seq<char> {
    let minutes = (trophy_secs(t) / 60) as nat;
    " : "@ + decimal(minutes) + " min"@ + (if minutes < 10 { " "@ } else { Seq::<char>::empty() })
}

/// The best trophy reached after the given time played: gold from 15 min,
/// silver from 10 min, bronze from 5 min, none before.
pub open spec fn rank_at(elapsed_ns: u64) -> Option<Trophy> {
    if elapsed_ns >= 900_000_000_000 {
        Some(Trophy::Gold)
    } else if elapsed_ns >= 600_000_000_000 {
        Some(Trophy::Silver)
    } else if elapsed_ns >= 300_000_000_000 {
        Some(Trophy::Bronze)
    } else {
        None
    }
}

impl Trophy {
    /// The time this trophy takes, in seconds.
    pub fn time_seconds(self) -> (s: u64)
        ensures
            s == trophy_secs(self),
    {
        match self {
            Trophy::Bronze => 300,
            Trophy::Silver => 600,
            Trophy::Gold => 900,
        }
    }

    /// The menu's line for this trophy: ` : `, its time in minutes, ` min`,
    /// padded with a space to the width of a two-digit minute count.
    pub fn menu_label(self) -> (s: String)
        ensures
            s@ == menu_label_of(self),
    {
        proof {
            reveal_strlit(" : ");
            reveal_strlit(" min");
            reveal_strlit(" ");
        }
        let minutes = self.time_seconds() / 60;
        let mut s = string_of(" : ");
        push_decimal(&mut s, minutes);
        s.append(" min");
        if minutes < 10 {
            s.append(" ");
        }
        s
    }

    /// The line shown with this trophy.
    pub fn sentence(self) -> (s: &'static str)
        ensures
            self == Trophy::Bronze ==> s@ == "Did you just come out of your mom ? Git gud !"@,
            self == Trophy::Silver ==> s@ == "Not bad, but your sister did better yesterday !"@,
            self == Trophy::Gold ==> s@ == "Bro, get out of your room, it's starting to smell !"@,
    {
        match self {
            Trophy::Bronze => "Did you just come out of your mom ? Git gud !",
            Trophy::Silver => "Not bad, but your sister did better yesterday !",
            Trophy::Gold => "Bro, get out of your room, it's starting to smell !",
        }
    }

    /// The picture of this trophy.
    pub fn sprite(self) -> (s: &'static str)
        ensures
            self == Trophy::Bronze ==> s@ == "sprites/bronze-trophy.png"@,
            self == Trophy::Silver ==> s@ == "sprites/silver-trophy.png"@,
            self == Trophy::Gold ==> s@ == "sprites/gold-trophy.png"@,
    {
        match self {
            Trophy::Bronze => "sprites/bronze-trophy.png",
            Trophy::Silver => "sprites/silver-trophy.png",
            Trophy::Gold => "sprites/gold-trophy.png",
        }
    }
}

/// The best trophy reached after the given time played.
pub fn rank(elapsed_ns: u64) -> (r: Option<Trophy>)
    ensures
        r == rank_at(elapsed_ns),
{
    if elapsed_ns >= 900_000_000_000 {
        Some(Trophy::Gold)
    } else if elapsed_ns >= 600_000_000_000 {
        Some(Trophy::Silver)
    } else if elapsed_ns >= 300_000_000_000 {
        Some(Trophy::Bronze)
    } else {
        None
    }
}

/// Minutes and seconds of a time in nanoseconds, as `MM:SS`, each with at
/// least two digits.
pub open spec fn clock(elapsed_ns: u64) -> Seq<char> {
    two_digits((elapsed_ns / 60_000_000_000) as nat) + seq![':'] + two_digits(((elapsed_ns / 1_000_000_000) % 60) as nat)
}

/// Writes a time in nanoseconds as `MM:SS`.
pub fn clock_text(elapsed_ns: u64) -> (s: String)
    ensures
        s@ == clock(elapsed_ns),
{
    let mut s = string_of("");
    proof {
        reveal_strlit("");
        reveal_strlit(":");
    }
    push_two_digits(&mut s, elapsed_ns / 60_000_000_000);
    s.append(":");
    push_two_digits(&mut s, (elapsed_ns / 1_000_000_000) % 60);
    s
}

/// What the game over screen shows: the time survived, and the trophy, if
/// one was earned.
pub struct GameOverSummary {
    pub time_text: String,
    pub trophy: Option<Trophy>,
}

/// The game over screen for the time survived: `Time : MM:SS` and the best
/// trophy reached.
pub fn setup_game_over(game_timer: &GameTimer) -> (r: (u64, GameOverSummary))
    ensures
        r.0 == game_timer.0,
        r.1.time_text@ == "Time : "@ + clock(r.0),
        r.1.trophy == rank_at(r.0),
{
    let elapsed = game_timer.0;
    let mut time_text = string_of("Time : ");
    let clock_part = clock_text(elapsed);
    time_text.append(clock_part.as_str());
    (elapsed, GameOverSummary { time_text, trophy: rank(elapsed) })
}

} // verus!
