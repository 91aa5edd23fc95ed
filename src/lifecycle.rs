use vstd::prelude::*;

verus! {

/// A notification that the host process gives the loaded module.
#[derive(Debug, Clone, Copy, PartialEq, Eq, Structural)]
pub enum ProcessEvent {
    /// The module was attached to the process.
    Attach,
    /// The module is being detached.
    Detach,
    /// Any other notification (thread start or exit).
    Other,
}

/// Remembers whether initialization has been started, so that it is
/// started on the first attach only.
pub struct InitGate {
    started: bool,
}

/// Whether an event starts initialization, given whether it was started.
pub open spec fn starts_init(started: bool, e: ProcessEvent) -> bool {
    e == ProcessEvent::Attach && !started
}

/// How many events of `events` start initialization, beginning in a state
/// where it was started or not.
pub open spec fn init_runs(started: bool, events: Seq<ProcessEvent>) -> nat
    decreases events.len(),
{
    if events.len() == 0 {
        0
    } else {
        (if starts_init(started, events[0]) {
            1nat
        } else {
            0nat
        }) + init_runs(started || events[0] == ProcessEvent::Attach, events.drop_first())
    }
}

impl InitGate {
    /// Whether an attach has been seen.
    pub closed spec fn is_started(&self) -> bool {
        self.started
    }

    /// A gate before any event.
    pub fn new() -> (r: InitGate)
        ensures
            !r.is_started(),
    {
        InitGate { started: false }
    }

    /// Whether initialization has been started.
    pub fn started(&self) -> (r: bool)
        ensures
            r == self.is_started(),
    {
        self.started
    }

    /// Takes in one event; returns whether initialization is to run now.
    pub fn on_event(&mut self, e: ProcessEvent) -> (run: bool)
        ensures
            run == starts_init(old(self).is_started(), e),
            final(self).is_started() == (old(self).is_started() || e == ProcessEvent::Attach),
    {
        let run = !self.started && e == ProcessEvent::Attach;
        if e == ProcessEvent::Attach {
            self.started = true;
        }
        run
    }
}

/// Once initialization has been started, no event starts it again.
pub proof fn lemma_no_run_after_start(events: Seq<ProcessEvent>)
    ensures
        init_runs(true, events) == 0,
    decreases events.len(),
{
    if events.len() > 0 {
        lemma_no_run_after_start(events.drop_first());
    }
}

/// Whatever events arrive, however many attaches among them, initialization
/// is started at most once.
pub proof fn lemma_init_at_most_once(events: Seq<ProcessEvent>)
    ensures
        init_runs(false, events) <= 1,
    decreases events.len(),
{
    if events.len() > 0 {
        if events[0] == ProcessEvent::Attach {
            lemma_no_run_after_start(events.drop_first());
        } else {
            lemma_init_at_most_once(events.drop_first());
        }
    }
}

} // verus!
