//! The shutdown coordinator: races two cancellation sources — an
//! interactive interrupt and a platform termination request — and resolves
//! as soon as either fires. The winner surfaces a single completion to the
//! serving loop; the loser's eventual firing, and any repeated firing, is
//! discarded, so shutdown is never requested twice.

use vstd::prelude::*;

verus! {

/// Capability of the platform termination source: a real signal wait on
/// platforms with a termination signal distinct from interrupt, or a
/// permanently pending placeholder on platforms without the distinction,
/// which registers fine but can never fire.
#[derive(Clone, Copy, PartialEq, Eq, Structural, Debug)]
pub enum TerminateSource {
    RealTrigger,
    NeverTrigger,
}

/// One firing of an external trigger source.
#[derive(Clone, Copy, PartialEq, Eq, Structural, Debug)]
pub enum Trigger {
    Interrupt,
    Terminate,
}

/// The coordinator's state: `Armed` while waiting for the first trigger,
/// `Fired` (terminal) once one trigger has won the race.
#[derive(Clone, Copy, PartialEq, Eq, Structural, Debug)]
pub enum CoordinatorState {
    Armed,
    Fired,
}

/// A fatal startup failure: a signal observer could not be registered, so
/// the coordinator cannot function and the process must not serve traffic.
#[derive(Clone, Copy, PartialEq, Eq, Structural, Debug)]
pub enum StartupError {
    InterruptRegistration,
    TerminateRegistration,
}

/// The shutdown coordinator. `completions` counts how many completion
/// signals it has surfaced to the serving loop; well-formedness keeps that
/// count in step with the state, so a fired coordinator has surfaced
/// exactly one completion and an armed one none.
#[derive(Clone, Copy, PartialEq, Eq, Structural, Debug)]
pub struct Coordinator {
    pub state: CoordinatorState,
    pub terminate_source: TerminateSource,
    pub completions: u64,
}

impl Coordinator {
    /// The coordinator's invariant: the completion count never exceeds one,
    /// and it reads one exactly when the race has resolved.
    pub open spec fn wf(self) -> bool {
        &&& self.completions <= 1
        &&& (self.state is Fired <==> self.completions == 1)
    }

    /// Whether a firing of `t` can reach the race at all: the interrupt
    /// source is always real, while the termination source fires only on
    /// platforms that have a real one — a placeholder never fires.
    pub open spec fn fires(self, t: Trigger) -> bool {
        match t {
            Trigger::Interrupt => true,
            Trigger::Terminate => self.terminate_source is RealTrigger,
        }
    }

    /// Whether delivering `t` resolves the race, i.e. surfaces the single
    /// shutdown completion: only the first firing to reach an armed race.
    pub open spec fn completes(self, t: Trigger) -> bool {
        self.state is Armed && self.fires(t)
    }

    /// The coordinator after one firing of `t` is delivered: the transition
    /// `Armed` to `Fired` happens on the first firing and is irreversible;
    /// every later or non-firing delivery leaves the coordinator unchanged.
    pub open spec fn next(self, t: Trigger) -> Coordinator {
        if self.completes(t) {
            Coordinator {
                state: CoordinatorState::Fired,
                terminate_source: self.terminate_source,
                completions: (self.completions + 1) as u64,
            }
        } else {
            self
        }
    }

    /// Arm a new coordinator at startup. `interrupt_registered` and
    /// `terminate_registered` report whether the respective signal
    /// observers could be installed; a `NeverTrigger` placeholder needs no
    /// registration, so `terminate_registered` is ignored for it. A failed
    /// registration is fatal: no coordinator is produced, and the caller
    /// must exit before it binds a listening socket.
    pub fn arm(
        interrupt_registered: bool,
        terminate_source: TerminateSource,
        terminate_registered: bool,
    ) -> (r: Result<Coordinator, StartupError>)
        ensures
            r is Ok <==> (interrupt_registered && (terminate_source is RealTrigger
                ==> terminate_registered)),
            !interrupt_registered ==> r == Result::<Coordinator, StartupError>::Err(
                StartupError::InterruptRegistration,
            ),
            interrupt_registered && terminate_source is RealTrigger && !terminate_registered
                ==> r == Result::<Coordinator, StartupError>::Err(
                StartupError::TerminateRegistration,
            ),
            r matches Ok(c) ==> c == (Coordinator {
                state: CoordinatorState::Armed,
                terminate_source,
                completions: 0u64,
            }),
            r matches Ok(c) ==> c.wf(),
    {
        if !interrupt_registered {
            Err(StartupError::InterruptRegistration)
        } else if terminate_source == TerminateSource::RealTrigger && !terminate_registered {
            Err(StartupError::TerminateRegistration)
        } else {
            Ok(Coordinator {
                state: CoordinatorState::Armed,
                terminate_source,
                completions: 0,
            })
        }
    }

    /// Deliver one firing of a trigger source to the race. Returns whether
    /// this delivery resolved it — surfaced the single shutdown completion.
    /// A firing that loses the race, repeats a win, or comes from the
    /// placeholder source is discarded without effect.
    pub fn observe(&mut self, t: Trigger) -> (completed: bool)
        requires
            old(self).wf(),
        ensures
            final(self).wf(),
            *final(self) == old(self).next(t),
            completed == old(self).completes(t),
    {
        let t_fires = match t {
            Trigger::Interrupt => true,
            Trigger::Terminate => self.terminate_source == TerminateSource::RealTrigger,
        };
        if self.state == CoordinatorState::Armed && t_fires {
            self.state = CoordinatorState::Fired;
            self.completions = self.completions + 1;
            true
        } else {
            false
        }
    }

    /// Whether shutdown has been requested: the serving loop consults this
    /// to stop accepting new connections once the race has resolved.
    pub fn shutdown_requested(&self) -> (r: bool)
        ensures
            r == (self.state is Fired),
    {
        self.state == CoordinatorState::Fired
    }
}

/// The coordinator after a whole series of trigger firings is delivered,
/// one step per firing, in order.
pub open spec fn run(c: Coordinator, ts: Seq<Trigger>) -> Coordinator
    decreases ts.len(),
{
    if ts.len() == 0 {
        c
    } else {
        run(c.next(ts[0]), ts.subrange(1, ts.len() as int))
    }
}

/// How many shutdown completions a series of trigger firings surfaces to
/// the serving loop.
pub open spec fn completions_of(c: Coordinator, ts: Seq<Trigger>) -> nat
    decreases ts.len(),
{
    if ts.len() == 0 {
        0
    } else {
        (if c.completes(ts[0]) {
            1nat
        } else {
            0nat
        }) + completions_of(c.next(ts[0]), ts.subrange(1, ts.len() as int))
    }
}

/// A run preserves well-formedness and the platform capability, and the
/// completion counter tallies exactly the completions the run surfaced.
pub proof fn lemma_run_tallies_completions(c: Coordinator, ts: Seq<Trigger>)
    requires
        c.wf(),
    ensures
        run(c, ts).wf(),
        run(c, ts).terminate_source == c.terminate_source,
        run(c, ts).completions == c.completions + completions_of(c, ts),
    decreases ts.len(),
{
    if ts.len() > 0 {
        lemma_run_tallies_completions(c.next(ts[0]), ts.subrange(1, ts.len() as int));
    }
}

/// No double fire: from any well-formed coordinator, a series of firings —
/// whatever arrives, from whichever sources, in whatever interleaving —
/// surfaces at most one completion in total, past wins included.
pub proof fn lemma_at_most_one_completion(c: Coordinator, ts: Seq<Trigger>)
    requires
        c.wf(),
    ensures
        c.completions + completions_of(c, ts) <= 1,
    decreases ts.len(),
{
    if ts.len() > 0 {
        lemma_at_most_one_completion(c.next(ts[0]), ts.subrange(1, ts.len() as int));
    }
}

/// Exactly one completion: on a platform exposing both sources, any
/// nonempty series of firings — either source alone or both concurrently —
/// resolves an armed race exactly once, and the coordinator ends fired.
pub proof fn lemma_exactly_one_completion(c: Coordinator, ts: Seq<Trigger>)
    requires
        c.wf(),
        c.state is Armed,
        c.terminate_source is RealTrigger,
        ts.len() >= 1,
    ensures
        completions_of(c, ts) == 1,
        run(c, ts).state is Fired,
{
    let c1 = c.next(ts[0]);
    let rest = ts.subrange(1, ts.len() as int);
    lemma_at_most_one_completion(c1, rest);
    lemma_run_tallies_completions(c1, rest);
}

/// Firing either source alone — one or more deliveries of one trigger, the
/// other source never firing — resolves an armed race exactly once, never
/// twice, on a platform exposing both sources.
pub proof fn lemma_one_source_alone_completes_once(c: Coordinator, ts: Seq<Trigger>, t: Trigger)
    requires
        c.wf(),
        c.state is Armed,
        c.terminate_source is RealTrigger,
        ts.len() >= 1,
        forall|i: int| 0 <= i < ts.len() ==> ts[i] == t,
    ensures
        completions_of(c, ts) == 1,
        run(c, ts).state is Fired,
{
    lemma_exactly_one_completion(c, ts);
}

/// On a platform lacking a distinct termination source, the placeholder
/// never resolves the race: however many termination firings arrive, if the
/// interrupt source never fires the coordinator stays armed indefinitely
/// and no completion is surfaced.
pub proof fn lemma_placeholder_never_completes(c: Coordinator, ts: Seq<Trigger>)
    requires
        c.wf(),
        c.state is Armed,
        c.terminate_source is NeverTrigger,
        forall|i: int| 0 <= i < ts.len() ==> ts[i] is Terminate,
    ensures
        run(c, ts) == c,
        completions_of(c, ts) == 0,
    decreases ts.len(),
{
    if ts.len() > 0 {
        let rest = ts.subrange(1, ts.len() as int);
        lemma_placeholder_never_completes(c, rest);
    }
}

} // verus!
