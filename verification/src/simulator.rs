use vstd::prelude::*;

use crate::chance::random_in_range;
use crate::health::{clamp_health, clamped_sum, health_in_range};
use crate::text::{forced_sign_decimal, push_forced_sign, push_signed, signed_decimal};

verus! {

/// Health of a new relationship in the threaded simulation.
pub const START_HEALTH: i8 = 100;

/// Shortest pause, in milliseconds, before an actor acts.
pub const MIN_DELAY_MS: u64 = 200;

/// Bound (exclusive), in milliseconds, on the pause before an actor acts.
pub const MAX_DELAY_MS: u64 = 2000;

/// The line written when `actor` changed health by `delta` to `health`:
/// `[actor] description (+delta) -> health = health`.
pub open spec fn change_line(actor: Seq<char>, description: Seq<char>, delta: int, health: int) -> Seq<char> {
    "["@ + actor + "] "@ + description + " ("@ + forced_sign_decimal(delta) + ") -> health = "@
        + signed_decimal(health)
}

/// The shared state of the simulation: the health of the relationship.
pub struct Relationship {
    health: i8,
    /// Every random draw that chose an event played on this relationship, in
    /// order, as `(low, high, value)`: `value` was drawn from `low..high`.
    draws: Ghost<Seq<(int, int, int)>>,
}

impl View for Relationship {
    type V = int;

    closed spec fn view(&self) -> int {
        self.health as int
    }
}

impl Relationship {
    #[verifier::type_invariant]
    spec fn health_stays_in_range(&self) -> bool {
        health_in_range(self.health as int)
    }

    /// The random draws that chose the events played on this relationship,
    /// oldest first, each as `(low, high, value)` with `value` in `low..high`.
    pub closed spec fn draws(&self) -> Seq<(int, int, int)> {
        self.draws@
    }

    /// A relationship in perfect health, on which nothing was played yet.
    pub fn new() -> (rel: Relationship)
        ensures
            rel@ == START_HEALTH,
            rel.draws() == Seq::<(int, int, int)>::empty(),
    {
        Relationship { health: START_HEALTH, draws: Ghost(Seq::empty()) }
    }

    /// Notes that `value` was drawn from `low..high` to choose an event.
    fn record_draw(&mut self, Ghost(drawn): Ghost<(int, int, int)>)
        ensures
            final(self)@ == old(self)@,
            final(self).draws() == old(self).draws().push(drawn),
    {
        proof {
            use_type_invariant(&*self);
        }
        self.draws = Ghost(self.draws@.push(drawn));
    }

    /// The current health.
    pub fn health(&self) -> (health: i8)
        ensures
            health == self@,
            health_in_range(health as int),
    {
        proof {
            use_type_invariant(self);
        }
        self.health
    }

    /// Whether the relationship is over: the simulation runs while this is false.
    pub fn is_over(&self) -> (over: bool)
        ensures
            over == (self@ == 0),
    {
        self.health == 0
    }

    /// Adds `delta` to the health, clamped into `0..=100`, and returns the
    /// line that reports the change.
    pub fn apply_delta(&mut self, delta: i8, actor: &str, description: &str) -> (line: String)
        ensures
            final(self)@ == clamp_health(old(self)@ + delta),
            final(self).draws() == old(self).draws(),
            line@ == change_line(actor@, description@, delta as int, final(self)@),
    {
        let next = clamped_sum(self.health, delta);
        self.health = next;
        let mut line = String::from_str("[");
        line.append(actor);
        line.append("] ");
        line.append(description);
        line.append(" (");
        push_forced_sign(&mut line, delta);
        line.append(") -> health = ");
        push_signed(&mut line, next);
        line
    }
}

/// The events of the boyfriend: how much each changes health, and its description.
pub open spec fn boyfriend_table(i: int) -> (int, Seq<char>) {
    if i == 0 {
        (-3, "used the word 'optimized' unprompted"@)
    } else if i == 1 {
        (-5, "explained something nobody asked about"@)
    } else {
        (4, "actually did something nice"@)
    }
}

/// The events of the girlfriend: how much each changes health, and its description.
pub open spec fn girlfriend_table(i: int) -> (int, Seq<char>) {
    if i == 0 {
        (6, "used the word 'optimized' unprompted"@)
    } else if i == 1 {
        (-7, "explained something nobody asked about"@)
    } else {
        (10, "actually did something nice"@)
    }
}

/// The events of the other hot guy: how much each changes health, and its description.
pub open spec fn other_hot_guy_table(i: int) -> (int, Seq<char>) {
    if i == 0 {
        (-2, "liked a story"@)
    } else {
        (-2, "showed up at the gym"@)
    }
}

/// Number of events in the boyfriend's and in the girlfriend's repertoire.
pub const COUPLE_EVENTS: u64 = 3;

/// Number of events in the other hot guy's repertoire.
pub const OTHER_HOT_GUY_EVENTS: u64 = 2;

/// The effect of the event `(delta, description)` by `actor` on `before`:
/// the health after it and the line that reports it.
pub open spec fn event_effect(before: int, actor: Seq<char>, event: (int, Seq<char>)) -> (int, Seq<char>) {
    let after = clamp_health(before + event.0);
    (after, change_line(actor, event.1, event.0, after))
}

/// Whether `after` and `line` are what an act of `actor` made of `before`: one
/// value drawn from `0..count` was added to the draws, and the event of `table`
/// that it numbers was played.
pub open spec fn played_drawn_event(
    before: Relationship,
    after: Relationship,
    line: Seq<char>,
    count: int,
    actor: Seq<char>,
    table: spec_fn(int) -> (int, Seq<char>),
) -> bool {
    let draw = after.draws().last();
    &&& after.draws() == before.draws().push(draw)
    &&& draw.0 == 0
    &&& draw.1 == count
    &&& 0 <= draw.2 < count
    &&& (after@, line) == event_effect(before@, actor, table(draw.2))
}

/// The blue actor.
#[derive(Debug)]
pub struct Boyfriend {}

impl Boyfriend {
    pub fn used_word_optimised_too_often() -> (e: (i8, &'static str))
        ensures
            (e.0 as int, e.1@) == boyfriend_table(0),
    {
        (-3, "used the word 'optimized' unprompted")
    }

    pub fn explained_something_nobody_asked_about() -> (e: (i8, &'static str))
        ensures
            (e.0 as int, e.1@) == boyfriend_table(1),
    {
        (-5, "explained something nobody asked about")
    }

    pub fn actually_did_something_nice() -> (e: (i8, &'static str))
        ensures
            (e.0 as int, e.1@) == boyfriend_table(2),
    {
        (4, "actually did something nice")
    }

    /// Plays event number `event` on `rel` and returns the line that reports it.
    pub fn act_event(&self, rel: &mut Relationship, event: u64) -> (line: String)
        requires
            event < COUPLE_EVENTS,
        ensures
            (final(rel)@, line@) == event_effect(old(rel)@, "Boyfriend"@, boyfriend_table(event as int)),
            final(rel).draws() == old(rel).draws(),
    {
        let (delta, description) = if event == 0 {
            Boyfriend::used_word_optimised_too_often()
        } else if event == 1 {
            Boyfriend::explained_something_nobody_asked_about()
        } else {
            Boyfriend::actually_did_something_nice()
        };
        rel.apply_delta(delta, "Boyfriend", description)
    }

    /// Plays one of the boyfriend's events, drawn at random, on `rel`.
    pub fn act(&self, rel: &mut Relationship) -> (line: String)
        ensures
            exists|i: int|
                0 <= i < COUPLE_EVENTS && (final(rel)@, line@) == #[trigger] event_effect(
                    old(rel)@,
                    "Boyfriend"@,
                    boyfriend_table(i),
                ),
            played_drawn_event(*old(rel), *final(rel), line@, COUPLE_EVENTS as int, "Boyfriend"@, |i: int| boyfriend_table(i)),
    {
        let (event, Ghost(range)) = random_in_range(0, COUPLE_EVENTS);
        let line = self.act_event(rel, event);
        rel.record_draw(Ghost((range.0, range.1, event as int)));
        line
    }
}

/// The green actor.
#[derive(Debug)]
pub struct Girlfriend {}

impl Girlfriend {
    pub fn planned_a_nice_evening() -> (e: (i8, &'static str))
        ensures
            (e.0 as int, e.1@) == girlfriend_table(0),
    {
        (6, "used the word 'optimized' unprompted")
    }

    pub fn gave_the_silent_treatment() -> (e: (i8, &'static str))
        ensures
            (e.0 as int, e.1@) == girlfriend_table(1),
    {
        (-7, "explained something nobody asked about")
    }

    pub fn forgave_something() -> (e: (i8, &'static str))
        ensures
            (e.0 as int, e.1@) == girlfriend_table(2),
    {
        (10, "actually did something nice")
    }

    /// Plays event number `event` on `rel` and returns the line that reports it.
    pub fn act_event(&self, rel: &mut Relationship, event: u64) -> (line: String)
        requires
            event < COUPLE_EVENTS,
        ensures
            (final(rel)@, line@) == event_effect(old(rel)@, "Girlfriend"@, girlfriend_table(event as int)),
            final(rel).draws() == old(rel).draws(),
    {
        let (delta, description) = if event == 0 {
            Girlfriend::planned_a_nice_evening()
        } else if event == 1 {
            Girlfriend::gave_the_silent_treatment()
        } else {
            Girlfriend::forgave_something()
        };
        rel.apply_delta(delta, "Girlfriend", description)
    }

    /// Plays one of the girlfriend's events, drawn at random, on `rel`.
    pub fn act(&self, rel: &mut Relationship) -> (line: String)
        ensures
            exists|i: int|
                0 <= i < COUPLE_EVENTS && (final(rel)@, line@) == #[trigger] event_effect(
                    old(rel)@,
                    "Girlfriend"@,
                    girlfriend_table(i),
                ),
            played_drawn_event(*old(rel), *final(rel), line@, COUPLE_EVENTS as int, "Girlfriend"@, |i: int| girlfriend_table(i)),
    {
        let (event, Ghost(range)) = random_in_range(0, COUPLE_EVENTS);
        let line = self.act_event(rel, event);
        rel.record_draw(Ghost((range.0, range.1, event as int)));
        line
    }
}

/// The red actor.
#[derive(Debug)]
pub struct OtherHotGuy {}

impl OtherHotGuy {
    pub fn liked_a_story() -> (e: (i8, &'static str))
        ensures
            (e.0 as int, e.1@) == other_hot_guy_table(0),
    {
        (-2, "liked a story")
    }

    pub fn showed_up_at_the_gym() -> (e: (i8, &'static str))
        ensures
            (e.0 as int, e.1@) == other_hot_guy_table(1),
    {
        (-2, "showed up at the gym")
    }

    /// Plays event number `event` on `rel` and returns the line that reports it.
    pub fn act_event(&self, rel: &mut Relationship, event: u64) -> (line: String)
        requires
            event < OTHER_HOT_GUY_EVENTS,
        ensures
            (final(rel)@, line@) == event_effect(old(rel)@, "OtherHotGuy"@, other_hot_guy_table(event as int)),
            final(rel).draws() == old(rel).draws(),
    {
        let (delta, description) = if event == 0 {
            OtherHotGuy::liked_a_story()
        } else {
            OtherHotGuy::showed_up_at_the_gym()
        };
        rel.apply_delta(delta, "OtherHotGuy", description)
    }

    /// Plays one of the other hot guy's events, drawn at random, on `rel`.
    pub fn act(&self, rel: &mut Relationship) -> (line: String)
        ensures
            exists|i: int|
                0 <= i < OTHER_HOT_GUY_EVENTS && (final(rel)@, line@) == #[trigger] event_effect(
                    old(rel)@,
                    "OtherHotGuy"@,
                    other_hot_guy_table(i),
                ),
            played_drawn_event(*old(rel), *final(rel), line@, OTHER_HOT_GUY_EVENTS as int, "OtherHotGuy"@, |i: int| other_hot_guy_table(i)),
    {
        let (event, Ghost(range)) = random_in_range(0, OTHER_HOT_GUY_EVENTS);
        let line = self.act_event(rel, event);
        rel.record_draw(Ghost((range.0, range.1, event as int)));
        line
    }
}

/// A pause, in milliseconds, drawn at random from `MIN_DELAY_MS..MAX_DELAY_MS`.
pub fn random_delay_ms() -> (ms: u64)
    ensures
        MIN_DELAY_MS <= ms < MAX_DELAY_MS,
{
    random_in_range(MIN_DELAY_MS, MAX_DELAY_MS).0
}

/// Whatever event the other hot guy plays, health does not go up.
pub proof fn lemma_other_hot_guy_never_raises_health(before: int, event: int)
    requires
        health_in_range(before),
        0 <= event < OTHER_HOT_GUY_EVENTS,
    ensures
        event_effect(before, "OtherHotGuy"@, other_hot_guy_table(event)).0 <= before,
{
}

/// Whatever event an actor plays, health stays in `0..=100`.
pub proof fn lemma_event_keeps_health_in_range(before: int, actor: Seq<char>, event: (int, Seq<char>))
    ensures
        health_in_range(event_effect(before, actor, event).0),
{
}

/// Every event of the boyfriend's table can come out of his act: the act
/// draws from `0..COUPLE_EVENTS`, and each value `i` of that range is an outcome of
/// the draw under which the act plays event `i` of the table; the outcome is
/// returned. No two values of the draw play the same event.
pub proof fn lemma_boyfriend_act_can_play_every_event(before: Relationship, i: int) -> (outcome: (
    Relationship,
    Seq<char>,
))
    requires
        0 <= i < COUPLE_EVENTS,
    ensures
        played_drawn_event(
            before,
            outcome.0,
            outcome.1,
            COUPLE_EVENTS as int,
            "Boyfriend"@,
            |k: int| boyfriend_table(k),
        ),
        outcome.0.draws().last() == (0int, COUPLE_EVENTS as int, i),
        (outcome.0@, outcome.1) == event_effect(before@, "Boyfriend"@, boyfriend_table(i)),
        forall|j: int| 0 <= j < COUPLE_EVENTS && j != i ==> #[trigger] boyfriend_table(j) != boyfriend_table(i),
{
    let effect = event_effect(before@, "Boyfriend"@, boyfriend_table(i));
    let after = Relationship {
        health: effect.0 as i8,
        draws: Ghost(before.draws().push((0int, COUPLE_EVENTS as int, i))),
    };
    assert(after.draws().drop_last() =~= before.draws());
    (after, effect.1)
}

/// Every event of the girlfriend's table can come out of her act: the act
/// draws from `0..COUPLE_EVENTS`, and each value `i` of that range is an outcome of
/// the draw under which the act plays event `i` of the table; the outcome is
/// returned. No two values of the draw play the same event.
pub proof fn lemma_girlfriend_act_can_play_every_event(before: Relationship, i: int) -> (outcome: (
    Relationship,
    Seq<char>,
))
    requires
        0 <= i < COUPLE_EVENTS,
    ensures
        played_drawn_event(
            before,
            outcome.0,
            outcome.1,
            COUPLE_EVENTS as int,
            "Girlfriend"@,
            |k: int| girlfriend_table(k),
        ),
        outcome.0.draws().last() == (0int, COUPLE_EVENTS as int, i),
        (outcome.0@, outcome.1) == event_effect(before@, "Girlfriend"@, girlfriend_table(i)),
        forall|j: int| 0 <= j < COUPLE_EVENTS && j != i ==> #[trigger] girlfriend_table(j) != girlfriend_table(i),
{
    let effect = event_effect(before@, "Girlfriend"@, girlfriend_table(i));
    let after = Relationship {
        health: effect.0 as i8,
        draws: Ghost(before.draws().push((0int, COUPLE_EVENTS as int, i))),
    };
    assert(after.draws().drop_last() =~= before.draws());
    (after, effect.1)
}

/// Every event of the other hot guy's table can come out of his act: the act
/// draws from `0..OTHER_HOT_GUY_EVENTS`, and each value `i` of that range is an outcome of
/// the draw under which the act plays event `i` of the table; the outcome is
/// returned. No two values of the draw play the same event.
pub proof fn lemma_other_hot_guy_act_can_play_every_event(before: Relationship, i: int) -> (outcome: (
    Relationship,
    Seq<char>,
))
    requires
        0 <= i < OTHER_HOT_GUY_EVENTS,
    ensures
        played_drawn_event(
            before,
            outcome.0,
            outcome.1,
            OTHER_HOT_GUY_EVENTS as int,
            "OtherHotGuy"@,
            |k: int| other_hot_guy_table(k),
        ),
        outcome.0.draws().last() == (0int, OTHER_HOT_GUY_EVENTS as int, i),
        (outcome.0@, outcome.1) == event_effect(before@, "OtherHotGuy"@, other_hot_guy_table(i)),
        forall|j: int| 0 <= j < OTHER_HOT_GUY_EVENTS && j != i ==> #[trigger] other_hot_guy_table(j) != other_hot_guy_table(i),
{
    reveal_strlit("liked a story");
    reveal_strlit("showed up at the gym");
    let effect = event_effect(before@, "OtherHotGuy"@, other_hot_guy_table(i));
    let after = Relationship {
        health: effect.0 as i8,
        draws: Ghost(before.draws().push((0int, OTHER_HOT_GUY_EVENTS as int, i))),
    };
    assert(after.draws().drop_last() =~= before.draws());
    (after, effect.1)
}

} // verus!
