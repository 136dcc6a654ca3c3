use vstd::prelude::*;

verus! {

/// Where the process stands with the engine's global setup.
#[derive(Clone, Copy, Debug, PartialEq, Eq, Structural)]
pub enum Phase {
    /// No setup has run yet.
    Uninitialized,
    /// Setup has run; the engine may be used.
    Ready,
    /// The process is ending; nothing more is set up or torn down.
    Finished,
}

/// Something that happens to the process-wide engine state.
#[derive(Clone, Copy, Debug, PartialEq, Eq, Structural)]
pub enum Event {
    /// A thread is about to use the engine.
    Use,
    /// The process is exiting.
    Exit,
}

/// The next phase after `e` in phase `p`, and whether the engine's global
/// setup (on `Use`) or teardown (on `Exit`) must run now.
pub open spec fn step(p: Phase, e: Event) -> (Phase, bool) {
    match (p, e) {
        (Phase::Uninitialized, Event::Use) => (Phase::Ready, true),
        (Phase::Ready, Event::Use) => (Phase::Ready, false),
        (Phase::Ready, Event::Exit) => (Phase::Finished, true),
        (Phase::Uninitialized, Event::Exit) => (Phase::Finished, false),
        (Phase::Finished, _) => (Phase::Finished, false),
    }
}

/// The phase reached from `p` after `events`, in order.
pub open spec fn run(p: Phase, events: Seq<Event>) -> Phase
    decreases events.len(),
{
    if events.len() == 0 {
        p
    } else {
        run(step(p, events[0]).0, events.drop_first())
    }
}

/// How many times `events`, from phase `p`, run the action of kind `kind`
/// (`Use` counts setups, `Exit` counts teardowns).
pub open spec fn actions(p: Phase, events: Seq<Event>, kind: Event) -> nat
    decreases events.len(),
{
    if events.len() == 0 {
        0
    } else {
        let (next, act) = step(p, events[0]);
        let here: nat = if act && events[0] == kind {
            1
        } else {
            0
        };
        here + actions(next, events.drop_first(), kind)
    }
}

/// Once the process is finishing, no further setup or teardown runs.
proof fn lemma_finished_is_quiet(events: Seq<Event>, kind: Event)
    ensures
        actions(Phase::Finished, events, kind) == 0,
    decreases events.len(),
{
    if events.len() > 0 {
        lemma_finished_is_quiet(events.drop_first(), kind);
    }
}

/// Once setup has run, it never runs again, and teardown runs at most once.
proof fn lemma_ready_runs(events: Seq<Event>)
    ensures
        actions(Phase::Ready, events, Event::Use) == 0,
        actions(Phase::Ready, events, Event::Exit) <= 1,
    decreases events.len(),
{
    if events.len() > 0 {
        if events[0] == Event::Use {
            lemma_ready_runs(events.drop_first());
        } else {
            lemma_finished_is_quiet(events.drop_first(), Event::Use);
            lemma_finished_is_quiet(events.drop_first(), Event::Exit);
        }
    }
}

/// Whatever the order of uses and exit, global setup runs at most once,
/// exactly once when the first event is a use, and teardown runs at most as
/// often as setup: so at most once, and never without setup before it.
pub proof fn lemma_single_setup(events: Seq<Event>)
    ensures
        actions(Phase::Uninitialized, events, Event::Use) <= 1,
        events.len() > 0 && events[0] == Event::Use ==> actions(
            Phase::Uninitialized,
            events,
            Event::Use,
        ) == 1,
        actions(Phase::Uninitialized, events, Event::Exit) <= actions(
            Phase::Uninitialized,
            events,
            Event::Use,
        ),
{
    if events.len() > 0 {
        if events[0] == Event::Use {
            lemma_ready_runs(events.drop_first());
        } else {
            lemma_finished_is_quiet(events.drop_first(), Event::Use);
            lemma_finished_is_quiet(events.drop_first(), Event::Exit);
        }
    }
}

/// Any number of uses in a row, from a fresh process, set the engine up
/// exactly once.
pub proof fn lemma_uses_set_up_once(events: Seq<Event>)
    requires
        events.len() > 0,
        forall|i: int| 0 <= i < events.len() ==> events[i] == Event::Use,
    ensures
        actions(Phase::Uninitialized, events, Event::Use) == 1,
        actions(Phase::Uninitialized, events, Event::Exit) == 0,
{
    lemma_single_setup(events);
    lemma_uses_no_teardown(Phase::Uninitialized, events);
}

/// Uses alone never tear the engine down.
proof fn lemma_uses_no_teardown(p: Phase, events: Seq<Event>)
    requires
        forall|i: int| 0 <= i < events.len() ==> events[i] == Event::Use,
    ensures
        actions(p, events, Event::Exit) == 0,
    decreases events.len(),
{
    if events.len() > 0 {
        lemma_uses_no_teardown(step(p, events[0]).0, events.drop_first());
    }
}

/// The process-wide record of the engine's setup and teardown. Whoever holds
/// it must hand it every use and the exit in the order they happen, as one
/// guarded sequence, and perform exactly the actions it answers with.
pub struct Lifecycle {
    phase: Phase,
}

impl Lifecycle {
    /// The phase this record is in.
    pub closed spec fn spec_phase(&self) -> Phase {
        self.phase
    }

    /// A record for a process that has not set the engine up.
    pub fn new() -> (r: Lifecycle)
        ensures
            r.spec_phase() == Phase::Uninitialized,
    {
        Lifecycle { phase: Phase::Uninitialized }
    }

    /// The phase this record is in.
    pub fn phase(&self) -> (r: Phase)
        ensures
            r == self.spec_phase(),
    {
        self.phase
    }

    /// Records one event; returns whether setup (for a use) or teardown (for
    /// the exit) must be performed now.
    pub fn record(&mut self, e: Event) -> (act: bool)
        ensures
            (final(self).spec_phase(), act) == step(old(self).spec_phase(), e),
    {
        let (next, act) = match (self.phase, e) {
            (Phase::Uninitialized, Event::Use) => (Phase::Ready, true),
            (Phase::Ready, Event::Use) => (Phase::Ready, false),
            (Phase::Ready, Event::Exit) => (Phase::Finished, true),
            (Phase::Uninitialized, Event::Exit) => (Phase::Finished, false),
            (Phase::Finished, _) => (Phase::Finished, false),
        };
        self.phase = next;
        act
    }

    /// Records that a thread is about to use the engine; returns whether the
    /// engine's global setup must run now.
    pub fn begin_use(&mut self) -> (set_up: bool)
        ensures
            (final(self).spec_phase(), set_up) == step(old(self).spec_phase(), Event::Use),
    {
        self.record(Event::Use)
    }

    /// Records that the process is exiting; returns whether the engine's
    /// teardown must run now.
    pub fn begin_exit(&mut self) -> (tear_down: bool)
        ensures
            (final(self).spec_phase(), tear_down) == step(old(self).spec_phase(), Event::Exit),
    {
        self.record(Event::Exit)
    }
}

} // verus!
