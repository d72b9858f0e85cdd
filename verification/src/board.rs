use vstd::prelude::*;

use crate::health::{clamp_health, clamped_sum, health_in_range};
use crate::text::{push_signed, signed_decimal};

verus! {

/// Health of the relationship when the board starts.
pub const INITIAL_HEALTH: i8 = 20;

/// Shortest pause, in milliseconds, between two turns of an automatic actor.
pub const MIN_WAIT_MS: u32 = 200;

/// Bound (exclusive), in milliseconds, on the pause between two turns of an automatic actor.
pub const MAX_WAIT_MS: u32 = 2000;

/// How long the boyfriend's LED lights up after a press of his button.
pub const BOYFRIEND_FLASH_MS: u64 = 80;

/// How long the LED of an automatic actor lights up after its turn.
pub const ACTOR_FLASH_MS: u64 = 150;

/// Number of flashes that announce the end of the relationship.
pub const FAREWELL_FLASHES: u32 = 20;

/// Length of each farewell flash, in milliseconds.
pub const FAREWELL_FLASH_MS: u64 = 20;

/// Pause after each farewell flash, in milliseconds.
pub const FAREWELL_GAP_MS: u64 = 40;

/// Pause between two looks of the monitor at the health, in milliseconds.
pub const MONITOR_PERIOD_MS: u64 = 100;

/// The unsigned integer whose little-endian bytes are `bytes`.
pub open spec fn le_u32(bytes: [u8; 4]) -> int {
    bytes@[0] + 256 * bytes@[1] + 65536 * bytes@[2] + 16777216 * bytes@[3]
}

/// A number in `min..max` drawn from four bytes of the random number generator:
/// `min` plus their little-endian value modulo the width of the range.
pub fn next_random(bytes: [u8; 4], min: u32, max: u32) -> (value: u32)
    requires
        min < max,
    ensures
        value == min + le_u32(bytes) % (max - min) as int,
        min <= value < max,
{
    let raw: u32 = bytes[0] as u32 + 256 * (bytes[1] as u32) + 65536 * (bytes[2] as u32)
        + 16777216 * (bytes[3] as u32);
    min + raw % (max - min)
}

/// The line written when `actor` brought health to `health` by `description`:
/// `[actor] description -> health = health`.
pub open spec fn change_line(actor: Seq<char>, description: Seq<char>, health: int) -> Seq<char> {
    "["@ + actor + "] "@ + description + " -> health = "@ + signed_decimal(health)
}

/// Adds `delta` to `health`, clamped into `0..=100`, and returns the line that
/// reports the change.
pub fn apply_delta(health: &mut i8, delta: i8, actor: &str, description: &str) -> (line: String)
    ensures
        *final(health) == clamp_health(*old(health) + delta),
        line@ == change_line(actor@, description@, *final(health) as int),
{
    *health = clamped_sum(*health, delta);
    let mut line = String::from_str("[");
    line.append(actor);
    line.append("] ");
    line.append(description);
    line.append(" -> health = ");
    push_signed(&mut line, *health);
    line
}

/// The LEDs of the board, one per actor.
#[derive(Clone, Copy, Debug, PartialEq, Eq, Structural)]
pub enum Led {
    /// The blue LED, on GPIO 12.
    Boyfriend,
    /// The red LED, on GPIO 14; it also flashes the farewell.
    Girlfriend,
    /// The yellow LED, on GPIO 15.
    OtherHotGuy,
}

/// What one turn of an actor did, and what the board is to show of it.
pub struct Turn {
    /// The line that reports the change of health.
    pub change_line: String,
    /// The line that names the actor and what it did.
    pub event_line: String,
    /// The LED to flash.
    pub led: Led,
    /// How long the LED stays lit, in milliseconds.
    pub flash_ms: u64,
    /// How long the actor waits after the flash before its next turn, in
    /// milliseconds; `None` for the boyfriend, who waits for his button.
    pub pause_ms: Option<u32>,
}

/// The pause, in `MIN_WAIT_MS..MAX_WAIT_MS`, that four bytes of the random
/// number generator give an automatic actor before its next turn.
pub open spec fn pause_from(bytes: [u8; 4]) -> int {
    MIN_WAIT_MS + le_u32(bytes) % (MAX_WAIT_MS - MIN_WAIT_MS) as int
}

/// The events of the boyfriend: how much each changes health, and its description.
pub open spec fn boyfriend_table(i: int) -> (int, Seq<char>) {
    if i == 0 {
        (-3, "used the word 'optimized' unprompted"@)
    } else if i == 1 {
        (-5, "explained something nobody asked about"@)
    } else {
        (10, "actually did something nice"@)
    }
}

/// The events of the girlfriend: how much each changes health, and its description.
pub open spec fn girlfriend_table(i: int) -> (int, Seq<char>) {
    if i == 0 {
        (6, "planned a nice evening"@)
    } else if i == 1 {
        (-4, "gave the silent treatment"@)
    } else {
        (-10, "went completely cold on NYE"@)
    }
}

/// The events of the other hot guy: how much each changes health, and its description.
pub open spec fn other_hot_guy_table(i: int) -> (int, Seq<char>) {
    if i == 0 {
        (-2, "liked a story"@)
    } else {
        (-2, "showed up at the gym"@)
    }
}

/// Number of events in the boyfriend's and in the girlfriend's repertoire.
pub const COUPLE_EVENTS: u32 = 3;

/// Number of events in the other hot guy's repertoire.
pub const OTHER_HOT_GUY_EVENTS: u32 = 2;

/// Whether `turn` is what the event numbered by `bytes` among `count` from
/// `events` does to health `before`, leaving `after`: the change is reported
/// as done by `actor`, the event under `tag`, on `led` for `flash_ms`, and the
/// actor then pauses for `pause_ms`.
pub open spec fn turn_matches(
    turn: Turn,
    before: int,
    after: int,
    bytes: [u8; 4],
    count: int,
    events: spec_fn(int) -> (int, Seq<char>),
    actor: Seq<char>,
    tag: Seq<char>,
    led: Led,
    flash_ms: u64,
    pause_ms: Option<int>,
) -> bool {
    let event = events(le_u32(bytes) % count);
    &&& after == clamp_health(before + event.0)
    &&& turn.change_line@ == change_line(actor, event.1, after)
    &&& turn.event_line@ == "["@ + tag + "] "@ + event.1
    &&& turn.led == led
    &&& turn.flash_ms == flash_ms
    &&& match pause_ms {
        Some(p) => turn.pause_ms == Some(p as u32),
        None => turn.pause_ms is None,
    }
}

/// Plays `(delta, description)` by `actor` on `health` and reports it under `tag`.
fn play(
    health: &mut i8,
    delta: i8,
    description: &str,
    actor: &str,
    tag: &str,
    led: Led,
    flash_ms: u64,
    pause_ms: Option<u32>,
) -> (turn: Turn)
    ensures
        *final(health) == clamp_health(*old(health) + delta),
        turn.change_line@ == change_line(actor@, description@, *final(health) as int),
        turn.event_line@ == "["@ + tag@ + "] "@ + description@,
        turn.led == led,
        turn.flash_ms == flash_ms,
        turn.pause_ms == pause_ms,
{
    let change_line = apply_delta(health, delta, actor, description);
    let mut event_line = String::from_str("[");
    event_line.append(tag);
    event_line.append("] ");
    event_line.append(description);
    Turn { change_line, event_line, led, flash_ms, pause_ms }
}

/// The blue actor, played by a button.
#[derive(Debug)]
pub struct Boyfriend {}

impl Boyfriend {
    pub fn used_word_optimised_too_often() -> (e: (i8, &'static str))
        ensures
            (e.0 as int, e.1@) == boyfriend_table(0),
    {
        (-3, "used the word 'optimized' unprompted")
    }

    pub fn explained_something_nobody_asked_about() -> (e: (i8, &'static str))
        ensures
            (e.0 as int, e.1@) == boyfriend_table(1),
    {
        (-5, "explained something nobody asked about")
    }

    pub fn actually_did_something_nice() -> (e: (i8, &'static str))
        ensures
            (e.0 as int, e.1@) == boyfriend_table(2),
    {
        (10, "actually did something nice")
    }
}

/// One press of the boyfriend's button: `bytes` from the random number
/// generator pick his event, which is played on `health`.
pub fn boyfriend_event(health: &mut i8, bytes: [u8; 4]) -> (turn: Turn)
    ensures
        turn_matches(
            turn,
            *old(health) as int,
            *final(health) as int,
            bytes,
            COUPLE_EVENTS as int,
            |i: int| boyfriend_table(i),
            "Boyfriend"@,
            "Boyfriend Button"@,
            Led::Boyfriend,
            BOYFRIEND_FLASH_MS,
            None,
        ),
{
    let event_idx = next_random(bytes, 0, COUPLE_EVENTS);
    let (delta, description) = if event_idx == 0 {
        Boyfriend::used_word_optimised_too_often()
    } else if event_idx == 1 {
        Boyfriend::explained_something_nobody_asked_about()
    } else {
        Boyfriend::actually_did_something_nice()
    };
    play(
        health,
        delta,
        description,
        "Boyfriend",
        "Boyfriend Button",
        Led::Boyfriend,
        BOYFRIEND_FLASH_MS,
        None,
    )
}

/// The green actor, played by the board.
#[derive(Debug)]
pub struct Girlfriend {}

impl Girlfriend {
    pub fn planned_a_nice_evening() -> (e: (i8, &'static str))
        ensures
            (e.0 as int, e.1@) == girlfriend_table(0),
    {
        (6, "planned a nice evening")
    }

    pub fn gave_the_silent_treatment() -> (e: (i8, &'static str))
        ensures
            (e.0 as int, e.1@) == girlfriend_table(1),
    {
        (-4, "gave the silent treatment")
    }

    pub fn went_completely_cold_on_nye() -> (e: (i8, &'static str))
        ensures
            (e.0 as int, e.1@) == girlfriend_table(2),
    {
        (-10, "went completely cold on NYE")
    }
}

/// One turn of the girlfriend: `bytes` from the random number generator pick
/// her event, which is played on `health`, and `wait_bytes` her pause after it.
pub fn girlfriend_turn(health: &mut i8, bytes: [u8; 4], wait_bytes: [u8; 4]) -> (turn: Turn)
    ensures
        turn_matches(
            turn,
            *old(health) as int,
            *final(health) as int,
            bytes,
            COUPLE_EVENTS as int,
            |i: int| girlfriend_table(i),
            "Girlfriend"@,
            "Girlfriend"@,
            Led::Girlfriend,
            ACTOR_FLASH_MS,
            Some(pause_from(wait_bytes)),
        ),
{
    let event_idx = next_random(bytes, 0, COUPLE_EVENTS);
    let (delta, description) = if event_idx == 0 {
        Girlfriend::planned_a_nice_evening()
    } else if event_idx == 1 {
        Girlfriend::gave_the_silent_treatment()
    } else {
        Girlfriend::went_completely_cold_on_nye()
    };
    let pause = next_random(wait_bytes, MIN_WAIT_MS, MAX_WAIT_MS);
    play(
        health,
        delta,
        description,
        "Girlfriend",
        "Girlfriend",
        Led::Girlfriend,
        ACTOR_FLASH_MS,
        Some(pause),
    )
}

/// The yellow actor, played by the board.
#[derive(Debug)]
pub struct OtherHotGuy {}

impl OtherHotGuy {
    pub fn liked_a_story() -> (e: (i8, &'static str))
        ensures
            (e.0 as int, e.1@) == other_hot_guy_table(0),
    {
        (-2, "liked a story")
    }

    pub fn showed_up_at_the_gym() -> (e: (i8, &'static str))
        ensures
            (e.0 as int, e.1@) == other_hot_guy_table(1),
    {
        (-2, "showed up at the gym")
    }
}

/// One turn of the other hot guy: `bytes` from the random number generator
/// pick his event, which is played on `health`, and `wait_bytes` his pause
/// after it.
pub fn other_hot_guy_turn(health: &mut i8, bytes: [u8; 4], wait_bytes: [u8; 4]) -> (turn: Turn)
    ensures
        turn_matches(
            turn,
            *old(health) as int,
            *final(health) as int,
            bytes,
            OTHER_HOT_GUY_EVENTS as int,
            |i: int| other_hot_guy_table(i),
            "Other Hot Guy"@,
            "Other Hot Guy"@,
            Led::OtherHotGuy,
            ACTOR_FLASH_MS,
            Some(pause_from(wait_bytes)),
        ),
{
    let event_idx = next_random(bytes, 0, OTHER_HOT_GUY_EVENTS);
    let (delta, description) = if event_idx == 0 {
        OtherHotGuy::liked_a_story()
    } else {
        OtherHotGuy::showed_up_at_the_gym()
    };
    let pause = next_random(wait_bytes, MIN_WAIT_MS, MAX_WAIT_MS);
    play(
        health,
        delta,
        description,
        "Other Hot Guy",
        "Other Hot Guy",
        Led::OtherHotGuy,
        ACTOR_FLASH_MS,
        Some(pause),
    )
}

/// What the monitor does after a look at the health.
#[derive(Clone, Copy, Debug, PartialEq, Eq, Structural)]
pub enum MonitorAction {
    /// Flash the farewell on `led` `flashes` times, each `flash_ms` long and
    /// followed by `gap_ms` of darkness, without looking at the health again,
    /// then stop the board.
    Terminate { led: Led, flashes: u32, flash_ms: u64, gap_ms: u64 },
    /// Look again after `wait_ms`.
    Wait { wait_ms: u64 },
}

/// The monitor's decision on seeing `health`: the relationship ends once
/// health is down to zero.
pub fn monitor_step(health: i8) -> (action: MonitorAction)
    ensures
        health <= 0 ==> action == (MonitorAction::Terminate {
            led: Led::Girlfriend,
            flashes: FAREWELL_FLASHES,
            flash_ms: FAREWELL_FLASH_MS,
            gap_ms: FAREWELL_GAP_MS,
        }),
        health > 0 ==> action == (MonitorAction::Wait { wait_ms: MONITOR_PERIOD_MS }),
{
    if health <= 0 {
        MonitorAction::Terminate {
            led: Led::Girlfriend,
            flashes: FAREWELL_FLASHES,
            flash_ms: FAREWELL_FLASH_MS,
            gap_ms: FAREWELL_GAP_MS,
        }
    } else {
        MonitorAction::Wait { wait_ms: MONITOR_PERIOD_MS }
    }
}

/// Whatever event the other hot guy plays, health does not go up.
pub proof fn lemma_other_hot_guy_never_raises_health(before: int, event: int)
    requires
        health_in_range(before),
        0 <= event < OTHER_HOT_GUY_EVENTS,
    ensures
        clamp_health(before + other_hot_guy_table(event).0) <= before,
{
}

/// An automatic actor's pause lies in `MIN_WAIT_MS..MAX_WAIT_MS`, so two of
/// its turns are at least its flash plus `MIN_WAIT_MS` apart: 350 ms.
pub proof fn lemma_automatic_turns_are_spaced(turn: Turn, wait_bytes: [u8; 4])
    requires
        turn.flash_ms == ACTOR_FLASH_MS,
        turn.pause_ms == Some(pause_from(wait_bytes) as u32),
    ensures
        MIN_WAIT_MS <= pause_from(wait_bytes) < MAX_WAIT_MS,
        turn.pause_ms->0 == pause_from(wait_bytes),
        turn.flash_ms + turn.pause_ms->0 >= 350,
{
}

} // verus!
