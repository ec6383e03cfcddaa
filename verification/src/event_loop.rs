//! The backend side: the state's single owner and the requests it runs.

use vstd::prelude::*;

verus! {

/// Marks a type as the domain state that a backend owns. The dispatcher never
/// looks inside it.
pub trait BackendState {

}

/// The single owner of the backend state. Requests are run against it one at
/// a time, each with exclusive access.
pub struct BackendEventLoop<S: BackendState> {
    pub state: S,
}

/// How one run of a request ended.
#[derive(Clone, Copy, Debug, PartialEq, Eq, Structural)]
pub enum RunOutcome {
    /// The request was cancelled before it started. The action did not run.
    Skipped,
    /// The action ran, the request was cancelled meanwhile, and the result was
    /// dropped.
    Discarded,
    /// The action ran and its result was handed to the result channel.
    Delivered,
    /// The action ran, but the receiving end of the result channel was gone.
    ReceiverGone,
}

impl RunOutcome {
    /// Whether the action ran.
    pub open spec fn ran(self) -> bool {
        !(self is Skipped)
    }

    /// How a run ends that was not cancelled and got `sent` when it handed
    /// its result to the result channel, together with the result where the
    /// channel gave it back.
    pub fn of_send<T>(sent: Result<(), T>) -> (ended: (RunOutcome, Option<T>))
        ensures
            sent is Ok ==> ended == (RunOutcome::Delivered, None::<T>),
            sent matches Err(refused) ==> ended == (RunOutcome::ReceiverGone, Some(refused)),
    {
        match sent {
            Ok(_) => (RunOutcome::Delivered, None),
            Err(refused) => (RunOutcome::ReceiverGone, Some(refused)),
        }
    }
}

/// A unit of work that the backend can run, whatever the type of its result.
pub trait BackendRequest<S: BackendState>: Send {
    /// The label given to the request when it was made.
    spec fn label(&self) -> Seq<char>;

    /// Whether the request's action can make of the backend what `run` says.
    /// `run` stands for the exclusive borrow that the action is given: its
    /// value at the start is the backend before the action, its final value
    /// the backend after it.
    spec fn effect(&self, run: &mut BackendEventLoop<S>) -> bool;

    /// Runs the request and destroys it, so that no request runs twice.
    /// Either the action did not run and the backend is as it was, or the
    /// action ran exactly once.
    fn run_on_backend(self: Box<Self>, backend: &mut BackendEventLoop<S>) -> (outcome: RunOutcome)
        ensures
            !outcome.ran() ==> *final(backend) == *old(backend),
            outcome.ran() ==> exists|run: &mut BackendEventLoop<S>|
                *run == *old(backend) && *final(run) == *final(backend) && #[trigger] self.effect(
                    run,
                ),
    ;

    /// The label for logs and diagnostics.
    fn describe(&self) -> (label: &str)
        ensures
            label@ == self.label(),
    ;
}

impl<S: BackendState> BackendEventLoop<S> {
    /// A backend that owns `state`.
    pub fn new(state: S) -> (backend: Self)
        ensures
            backend.state == state,
    {
        BackendEventLoop { state }
    }

    /// Runs one request taken off the queue and destroys it.
    pub fn execute(&mut self, request: Box<dyn BackendRequest<S>>) -> (outcome: RunOutcome)
        ensures
            !outcome.ran() ==> *final(self) == *old(self),
            outcome.ran() ==> exists|run: &mut BackendEventLoop<S>|
                *run == *old(self) && *final(run) == *final(self) && #[trigger] request.effect(run),
    {
        request.run_on_backend(self)
    }

    /// Runs the requests in the order in which they were taken off the queue,
    /// each exactly once, and destroys them. `outcomes[i]` is how the run of
    /// `requests[i]` ended. The backend passes through a trace of states, one
    /// more than there are requests: run number `i` starts from `trace[i]` and
    /// leaves `trace[i + 1]`.
    pub fn execute_all(&mut self, requests: Vec<Box<dyn BackendRequest<S>>>) -> (outcomes: Vec<
        RunOutcome,
    >)
        ensures
            outcomes@.len() == requests@.len(),
            exists|trace: Seq<BackendEventLoop<S>>|
                #![trigger trace.len()]
                {
                    &&& trace.len() == requests@.len() + 1
                    &&& trace.first() == *old(self)
                    &&& trace.last() == *final(self)
                    &&& forall|i: int|
                        #![trigger outcomes@[i]]
                        0 <= i < requests@.len() ==> if outcomes@[i].ran() {
                            exists|run: &mut BackendEventLoop<S>|
                                *run == trace[i] && *final(run) == trace[i + 1]
                                    && #[trigger] requests@[i].effect(run)
                        } else {
                            trace[i + 1] == trace[i]
                        }
                },
    {
        let mut outcomes: Vec<RunOutcome> = Vec::new();
        let ghost mut trace: Seq<BackendEventLoop<S>> = seq![*self];
        let ghost queued = requests@;
        proof {
            vstd::std_specs::vec::axiom_spec_into_iter(requests);
        }
        for request in pending: requests.into_iter()
            invariant
                pending.seq() == queued,
                outcomes@.len() == pending.index(),
                trace.len() == pending.index() + 1,
                trace.first() == *old(self),
                trace.last() == *self,
                forall|k: int|
                    #![trigger outcomes@[k]]
                    0 <= k < pending.index() ==> if outcomes@[k].ran() {
                        exists|run: &mut BackendEventLoop<S>|
                            *run == trace[k] && *final(run) == trace[k + 1]
                                && #[trigger] queued[k].effect(run)
                    } else {
                        trace[k + 1] == trace[k]
                    },
        {
            let outcome = request.run_on_backend(self);
            outcomes.push(outcome);
            proof {
                trace = trace.push(*self);
            }
        }
        outcomes
    }
}

} // verus!
