//! Shutting down in order when a signal asks for it.
use vstd::prelude::*;

use crate::failure::{refused, Failure};

verus! {

/// Whether the program was asked to end.
#[derive(Debug, Clone, Copy, PartialEq, Eq, Structural)]
pub struct ShutdownState {
    pub requested: bool,
}

/// The signals that ask the program to end.
#[derive(Debug, Clone, Copy, PartialEq, Eq, Structural)]
pub enum EndSignal {
    /// From the terminal.
    Interrupt,
    /// From another process.
    Terminate,
}

/// What a handled signal makes of the state: the program is asked to end.
pub open spec fn after_signal(state: ShutdownState) -> ShutdownState {
    ShutdownState { requested: true }
}

/// What a signal does: from then on the program is asked to end.
pub fn handle_signal(state: ShutdownState) -> (r: ShutdownState)
    ensures
        r == after_signal(state),
{
    ShutdownState { requested: true }
}

/// Whether a signal asked the program to end.
pub fn shutdown_requested(state: ShutdownState) -> (r: bool)
    ensures
        r == state.requested,
{
    state.requested
}

/// Fails where a signal asked the program to end.
pub fn check_shutdown(state: ShutdownState) -> (r: Result<(), Failure>)
    ensures
        match r {
            Ok(_) => !state.requested,
            Err(failure) => state.requested && failure@ == refused(
                "Interrupted by signal — cleaning up"@,
            ),
        },
{
    if shutdown_requested(state) {
        return Err(Failure::refused("Interrupted by signal — cleaning up"));
    }
    Ok(())
}

/// The handlers of both signals, as the system knows them.
#[derive(Debug, Clone, Copy, PartialEq, Eq, Structural)]
pub struct Handlers {
    pub interrupt: usize,
    pub terminate: usize,
}

impl Handlers {
    /// The handlers after the system was told the handler of a signal.
    pub open spec fn with(self, signal: EndSignal, handler: usize) -> Handlers {
        match signal {
            EndSignal::Interrupt => Handlers { interrupt: handler, ..self },
            EndSignal::Terminate => Handlers { terminate: handler, ..self },
        }
    }

    /// The handler of a signal.
    pub open spec fn of(self, signal: EndSignal) -> usize {
        match signal {
            EndSignal::Interrupt => self.interrupt,
            EndSignal::Terminate => self.terminate,
        }
    }
}

/// What the system is told, in order: each signal with its handler.
pub open spec fn told_handlers(
    handlers: Handlers,
    told: Seq<(EndSignal, usize)>,
) -> Handlers
    decreases told.len(),
{
    if told.len() == 0 {
        handlers
    } else {
        told_handlers(handlers, told.drop_last()).with(told.last().0, told.last().1)
    }
}

/// Keeps the handlers that were in place before, to restore them at the end.
#[derive(Debug)]
pub struct SignalGuard {
    prev: Handlers,
}

impl View for SignalGuard {
    type V = Handlers;

    closed spec fn view(&self) -> Handlers {
        self.prev
    }
}

/// The signals for which a handler is installed, in order.
pub open spec fn handled_signals() -> Seq<EndSignal> {
    seq![EndSignal::Interrupt, EndSignal::Terminate]
}

/// What the system is told to install a handler, in order.
pub open spec fn installing(handler: usize) -> Seq<(EndSignal, usize)> {
    handled_signals().map_values(|signal: EndSignal| (signal, handler))
}

/// The signals for which a handler is installed, in order.
pub fn install_handlers() -> (r: [EndSignal; 2])
    ensures
        r@ == handled_signals(),
{
    let signals: [EndSignal; 2] = [EndSignal::Interrupt, EndSignal::Terminate];
    proof {
        assert(signals@ =~= handled_signals());
    }
    signals
}

impl SignalGuard {
    /// Keeps what the system gave back when the handlers were installed, in the
    /// order of [`install_handlers`].
    pub fn new(interrupt: usize, terminate: usize) -> (r: Self)
        ensures
            r@ == (Handlers { interrupt, terminate }),
    {
        SignalGuard { prev: Handlers { interrupt, terminate } }
    }

    /// What the system is told to restore the handlers, in order.
    pub fn restore_handlers(&self) -> (r: [(EndSignal, usize); 2])
        ensures
            r@ == restoring(self@),
    {
        let told: [(EndSignal, usize); 2] = [
            (EndSignal::Interrupt, self.prev.interrupt),
            (EndSignal::Terminate, self.prev.terminate),
        ];
        proof {
            assert(told@ =~= restoring(self@));
        }
        told
    }
}

/// What the system is told to restore handlers, in order.
pub open spec fn restoring(prev: Handlers) -> Seq<(EndSignal, usize)> {
    seq![(EndSignal::Interrupt, prev.interrupt), (EndSignal::Terminate, prev.terminate)]
}

/// After any handlers were installed, restoring brings back those that were in
/// place before.
pub proof fn restoring_undoes_installing(before: Handlers, installed: Seq<(EndSignal, usize)>)
    ensures
        told_handlers(told_handlers(before, installed), restoring(before)) == before,
{
    let now = told_handlers(before, installed);
    let told = restoring(before);
    let first = told.drop_last();
    assert(first.drop_last() =~= seq![]);
    assert(told_handlers(now, first.drop_last()) == now);
    assert(told_handlers(now, first) == now.with(EndSignal::Interrupt, before.interrupt));
}

/// What happens to the program, as far as signals go.
pub ghost enum SignalEvent {
    /// The handlers are installed, and what was there before is kept in a guard.
    Install,
    /// One of the guards restores what it keeps.
    DropGuard(int),
    /// A signal is delivered.
    Deliver(EndSignal),
    /// [`shutdown_requested`] is called.
    Ask,
    /// [`check_shutdown`] is called.
    Check,
}

/// Where the program stands, as far as signals go.
pub ghost struct SignalWorld {
    pub state: ShutdownState,
    pub handlers: Handlers,
    /// What each guard keeps that is not dropped yet.
    pub guards: Seq<Handlers>,
}

impl SignalWorld {
    /// What one event makes of it. The program's own handler is `ours`; a signal
    /// that finds another one in place does not reach the program's state.
    pub open spec fn after(self, event: SignalEvent, ours: usize) -> SignalWorld {
        match event {
            SignalEvent::Install => SignalWorld {
                handlers: told_handlers(self.handlers, installing(ours)),
                guards: self.guards.push(self.handlers),
                ..self
            },
            SignalEvent::DropGuard(at) => if 0 <= at < self.guards.len() {
                SignalWorld {
                    handlers: told_handlers(self.handlers, restoring(self.guards[at])),
                    guards: self.guards.remove(at),
                    ..self
                }
            } else {
                self
            },
            SignalEvent::Deliver(signal) => if self.handlers.of(signal) == ours {
                SignalWorld { state: after_signal(self.state), ..self }
            } else {
                self
            },
            SignalEvent::Ask | SignalEvent::Check => self,
        }
    }

    /// What events make of it, one after the other.
    pub open spec fn after_all(self, events: Seq<SignalEvent>, ours: usize) -> SignalWorld
        decreases events.len(),
    {
        if events.len() == 0 {
            self
        } else {
            self.after_all(events.drop_last(), ours).after(events.last(), ours)
        }
    }

    /// Whether the event at a place is a signal that finds the program's own
    /// handler in place.
    pub open spec fn is_handled(self, events: Seq<SignalEvent>, ours: usize, at: int) -> bool {
        &&& 0 <= at < events.len()
        &&& events[at] matches SignalEvent::Deliver(signal)
        &&& self.after_all(events.take(at), ours).handlers.of(signal) == ours
    }
}

/// The program is asked to end exactly where a signal was delivered while the
/// program's own handler was in place for it, whatever else happened before or
/// since: how often handlers were installed, in which order guards were dropped,
/// and how often the state was looked at.
pub proof fn shutdown_is_requested_by_handled_signals(
    before: SignalWorld,
    events: Seq<SignalEvent>,
    ours: usize,
)
    requires
        !before.state.requested,
    ensures
        before.after_all(events, ours).state.requested <==> exists|at: int|
            before.is_handled(events, ours, at),
    decreases events.len(),
{
    if events.len() > 0 {
        let init = events.drop_last();
        let last = events.len() - 1;
        shutdown_is_requested_by_handled_signals(before, init, ours);
        assert(events.take(last) =~= init);
        assert forall|at: int| 0 <= at < last implies #[trigger] before.is_handled(
            events,
            ours,
            at,
        ) == before.is_handled(init, ours, at) by {
            assert(events.take(at) =~= init.take(at));
        }
        if before.after_all(init, ours).state.requested {
            let at = choose|at: int| before.is_handled(init, ours, at);
            assert(before.is_handled(events, ours, at));
        } else if before.after_all(events, ours).state.requested {
            assert(before.is_handled(events, ours, last));
        }
        if exists|at: int| before.is_handled(events, ours, at) {
            let at = choose|at: int| before.is_handled(events, ours, at);
            if at < last {
                assert(before.is_handled(init, ours, at));
            }
        }
    }
}

/// Once the program is asked to end it stays so, whatever follows.
pub proof fn shutdown_requests_stay(
    before: SignalWorld,
    events: Seq<SignalEvent>,
    ours: usize,
    at: int,
)
    requires
        0 <= at <= events.len(),
        before.after_all(events.take(at), ours).state.requested,
    ensures
        before.after_all(events, ours).state.requested,
    decreases events.len(),
{
    if at < events.len() {
        assert(events.take(at) =~= events.drop_last().take(at));
        shutdown_requests_stay(before, events.drop_last(), ours, at);
    } else {
        assert(events.take(at) =~= events);
    }
}

/// Looking at the state changes nothing. Installing handlers and dropping guards
/// does not change the state.
pub proof fn only_signals_change_the_state(world: SignalWorld, event: SignalEvent, ours: usize)
    ensures
        event is Ask || event is Check ==> world.after(event, ours) == world,
        !(event is Deliver) ==> world.after(event, ours).state == world.state,
{
}

/// From when the handlers are installed, both signals find the program's own.
pub proof fn installed_handlers_are_in_place(world: SignalWorld, signal: EndSignal, ours: usize)
    ensures
        world.after(SignalEvent::Install, ours).handlers.of(signal) == ours,
        world.after(SignalEvent::Install, ours).guards.last() == world.handlers,
{
    let told = installing(ours);
    let first = told.drop_last();
    assert(told.len() == 2);
    assert(told[0] == (EndSignal::Interrupt, ours));
    assert(told[1] == (EndSignal::Terminate, ours));
    assert(first.drop_last() =~= seq![]);
    assert(told_handlers(world.handlers, first.drop_last()) == world.handlers);
    assert(told_handlers(world.handlers, first) == world.handlers.with(EndSignal::Interrupt, ours));
}

} // verus!
