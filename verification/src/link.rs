//! A request and the receiver of its result.

use crate::channel::open;
use crate::channel::poll;
use crate::channel::send;
use crate::channel::wait;
use crate::channel::RecvTimeoutError;
use crate::channel::TryRecvError;
use crate::event_loop::BackendEventLoop;
use crate::event_loop::BackendRequest;
use crate::event_loop::BackendState;
use crate::event_loop::RunOutcome;
use crate::flag::CancellationFlag;
use crate::parameter::UIParameter;
use std::marker::PhantomData;
use std::sync::mpsc::Receiver;
use std::sync::mpsc::Sender;
use std::time::Duration;
use vstd::prelude::*;

verus! {

/// The sending end of a backend's request queue.
pub type DynRequestSender<S> = Sender<Box<dyn BackendRequest<S>>>;

/// Said where a request cannot be queued because no backend takes requests
/// off the queue any more.
pub const BACKEND_HUNG_UP_MSG: &'static str = "backend has hung up";

/// The queue refused a request: its consumer is gone.
#[derive(Clone, Copy, Debug, PartialEq, Eq, Structural)]
pub struct BackendHungUp;

impl BackendHungUp {
    /// What the producer is told, given what the queue answered when the
    /// request was handed to it.
    pub fn unless<R>(sent: Result<(), R>) -> (queued: Result<(), BackendHungUp>)
        ensures
            queued is Ok <==> sent is Ok,
    {
        match sent {
            Ok(_) => Ok(()),
            Err(_) => Err(BackendHungUp),
        }
    }
}

/// Whether `action` may be called on every backend.
pub open spec fn total<T, F, S>(action: F) -> bool where
    F: Fn(&mut BackendEventLoop<S>) -> T,
    S: BackendState,
 {
    forall|backend: &mut BackendEventLoop<S>| call_requires(action, (backend,))
}

/// A request: an action for the backend, the sending end of the channel for
/// its result, and the flag by which the frontend withdraws its interest.
/// Running a request consumes it, so no request runs twice.
#[verifier::reject_recursive_types(T)]
#[verifier::reject_recursive_types(S)]
pub struct BackendLink<T, F, S> where F: Fn(&mut BackendEventLoop<S>) -> T, S: BackendState {
    backchannel: Sender<T>,
    action: F,
    is_cancelled: CancellationFlag,
    description: String,
    _marker: PhantomData<S>,
}

/// What is left of a request once its action has run: the value returned,
/// not delivered yet, with the sending end of the result channel and the
/// flag.
#[verifier::reject_recursive_types(T)]
pub struct Computed<T> {
    value: T,
    backchannel: Sender<T>,
    is_cancelled: CancellationFlag,
    description: String,
}

/// The frontend's handle on a request: the receiving end of the result
/// channel and the cancellation flag. Dropping it cancels the request.
#[derive(Debug)]
#[verifier::reject_recursive_types(T)]
pub struct LinkReceiver<T> {
    rx: Receiver<T>,
    is_cancelled: CancellationFlag,
    description: String,
}

impl<T, F, S> BackendLink<T, F, S> where F: Fn(&mut BackendEventLoop<S>) -> T, S: BackendState {
    #[verifier::type_invariant]
    spec fn action_is_total(&self) -> bool {
        total(self.action)
    }

    /// The action that the request carries.
    pub closed spec fn action(&self) -> F {
        self.action
    }

    /// The label that the request carries.
    pub closed spec fn description(&self) -> Seq<char> {
        self.description@
    }

    /// The request's handle on the cancellation flag.
    pub closed spec fn flag(&self) -> CancellationFlag {
        self.is_cancelled
    }

    /// Whether the request and `receiver` hold handles of one flag, so that
    /// dropping `receiver` cancels this request.
    pub open spec fn shares_flag_with(&self, receiver: &LinkReceiver<T>) -> bool {
        self.flag().cell() == receiver.flag().cell()
    }

    /// A request for `action` and the receiver of its result. The two share a
    /// fresh result channel and a fresh cancellation flag, lowered.
    pub fn new(description: &str, action: F) -> (pair: (LinkReceiver<T>, Self))
        requires
            total(action),
        ensures
            pair.1.action() == action,
            pair.1.description() == description@,
            pair.0.description() == description@,
            pair.1.shares_flag_with(&pair.0),
    {
        let (tx, rx) = open();
        let is_cancelled = CancellationFlag::new();
        let rx = LinkReceiver {
            rx,
            is_cancelled: is_cancelled.share(),
            description: description.to_owned(),
        };
        (
            rx,
            Self {
                backchannel: tx,
                action,
                description: description.to_owned(),
                is_cancelled,
                _marker: PhantomData,
            },
        )
    }

    /// What the cancellation flag shows at this moment.
    pub fn is_cancelled(&self) -> bool {
        self.is_cancelled.is_raised()
    }

    /// The first half of a run, for a caller that has just read the flag as
    /// `cancelled`. The request is consumed. A cancelled request leaves the
    /// backend untouched and has no result. Any other runs its action once,
    /// and what is left holds the value returned.
    pub fn perform(self, backend: &mut BackendEventLoop<S>, cancelled: bool) -> (performed: Option<
        Computed<T>,
    >)
        ensures
            cancelled ==> performed is None && *final(backend) == *old(backend),
            !cancelled ==> performed is Some,
            performed matches Some(computed) ==> {
                &&& computed.description() == self.description()
                &&& computed.flag().cell() == self.flag().cell()
                &&& exists|run: &mut BackendEventLoop<S>|
                    *run == *old(backend) && *final(run) == *final(backend)
                        && #[trigger] call_ensures(self.action(), (run,), computed.value())
            },
    {
        if cancelled {
            return None;
        }
        proof {
            use_type_invariant(&self);
        }
        let value = (self.action)(backend);
        let ghost before = *old(backend);
        let ghost after = *backend;
        let ghost run = choose|run: &mut BackendEventLoop<S>|
            *run == before && *final(run) == after && call_ensures(self.action, (run,), value);
        let performed = Some(
            Computed {
                value,
                backchannel: self.backchannel,
                is_cancelled: self.is_cancelled,
                description: self.description,
            },
        );
        proof {
            assert(call_ensures(self.action(), (run,), performed->0.value()));
        }
        performed
    }
}

impl<T> Computed<T> {
    /// The value that the action returned.
    pub closed spec fn value(&self) -> T {
        self.value
    }

    /// The label of the request.
    pub closed spec fn description(&self) -> Seq<char> {
        self.description@
    }

    /// The request's handle on the cancellation flag.
    pub closed spec fn flag(&self) -> CancellationFlag {
        self.is_cancelled
    }

    /// What the cancellation flag shows at this moment.
    pub fn is_cancelled(&self) -> bool {
        self.is_cancelled.is_raised()
    }

    /// The second half of a run, for a caller that has just read the flag as
    /// `cancelled`. The value of a cancelled request is not delivered. Any
    /// other is handed to the result channel, which takes it unless the
    /// receiver is gone. A value that was not delivered comes back to the
    /// caller.
    pub fn conclude(self, cancelled: bool) -> (ended: (RunOutcome, Option<T>))
        ensures
            cancelled ==> ended == (RunOutcome::Discarded, Some(self.value())),
            !cancelled ==> ended == (RunOutcome::Delivered, None::<T>) || ended == (
                RunOutcome::ReceiverGone,
                Some(self.value()),
            ),
    {
        if cancelled {
            return (RunOutcome::Discarded, Some(self.value));
        }
        RunOutcome::of_send(send(&self.backchannel, self.value))
    }
}

impl<T, F, S> BackendLink<T, F, S> where
    F: Fn(&mut BackendEventLoop<S>) -> T + Send + 'static,
    S: BackendState + Send + 'static,
    T: Clone + Send + 'static,
 {
    /// Makes a request for `action` and makes `parameter` wait for its result
    /// in place of whatever it waited for. The receiver that the parameter
    /// held before is dropped, which cancels the request it belonged to.
    pub fn rewire(parameter: &mut UIParameter<T>, description: &str, action: F) -> (link: Self)
        requires
            total(action),
        ensures
            link.action() == action,
            link.description() == description@,
            final(parameter).current() == old(parameter).current(),
            final(parameter).receiver() matches Some(rx) && rx.description() == description@
                && link.shares_flag_with(&rx),
    {
        let (rx, link) = Self::new(description, action);
        parameter.set_recv(rx);
        link
    }

    /// Rewires `parameter` to a new request for `action` and puts that request
    /// on the queue. The parameter is rewired whether or not the queue takes
    /// the request.
    pub fn request_parameter_update(
        parameter: &mut UIParameter<T>,
        description: &str,
        action: F,
        request_tx: &mut DynRequestSender<S>,
    ) -> (queued: Result<(), BackendHungUp>)
        requires
            total(action),
        ensures
            final(parameter).current() == old(parameter).current(),
            final(parameter).receiver() matches Some(rx) && rx.description() == description@,
            *final(request_tx) == *old(request_tx),
    {
        let link = Self::rewire(parameter, description, action);
        enqueue(request_tx, Box::new(link))
    }
}

/// Puts `request` on the queue. The queue is unbounded, so this never blocks.
/// It fails only where nothing consumes the queue any more, and the request
/// is then destroyed without having run.
pub fn enqueue<S: BackendState>(
    request_tx: &DynRequestSender<S>,
    request: Box<dyn BackendRequest<S>>,
) -> (queued: Result<(), BackendHungUp>) {
    BackendHungUp::unless(send(request_tx, request))
}

impl<T, F, S> BackendRequest<S> for BackendLink<T, F, S> where
    F: Fn(&mut BackendEventLoop<S>) -> T + Send,
    S: BackendState + Send,
    T: Send,
 {
    open spec fn label(&self) -> Seq<char> {
        self.description()
    }

    open spec fn effect(&self, run: &mut BackendEventLoop<S>) -> bool {
        exists|result: T| call_ensures(self.action(), (run,), result)
    }

    fn run_on_backend(self: Box<Self>, backend: &mut BackendEventLoop<S>) -> (outcome: RunOutcome)
        ensures
            outcome.ran() ==> exists|run: &mut BackendEventLoop<S>, result: T|
                *run == *old(backend) && *final(run) == *final(backend) && #[trigger] call_ensures(
                    self.action(),
                    (run,),
                    result,
                ),
    {
        let link = *self;
        let cancelled_before = link.is_cancelled.is_raised();
        match link.perform(backend, cancelled_before) {
            None => RunOutcome::Skipped,
            Some(computed) => {
                proof {
                    let before = *old(backend);
                    let after = *backend;
                    let run = choose|run: &mut BackendEventLoop<S>|
                        *run == before && *final(run) == after && call_ensures(
                            self.action(),
                            (run,),
                            computed.value(),
                        );
                    assert(self.effect(run));
                }
                // The flag is read again: the receiver may have been dropped
                // while the action ran. What the action did to the backend
                // stays; only the delivery is left out.
                let cancelled_after = computed.is_cancelled();
                let (outcome, _undelivered) = computed.conclude(cancelled_after);
                outcome
            },
        }
    }

    fn describe(&self) -> (label: &str)
        ensures
            label@ == self.description(),
    {
        self.description.as_str()
    }
}

impl<T> LinkReceiver<T> {
    /// The label of the request that this receiver belongs to.
    pub closed spec fn description(&self) -> Seq<char> {
        self.description@
    }

    /// The receiver's handle on the cancellation flag.
    pub closed spec fn flag(&self) -> CancellationFlag {
        self.is_cancelled
    }

    /// Polls for the result without blocking. The answer is the result if it
    /// has arrived, `Empty` while the request is pending, and `Disconnected`
    /// once the request was destroyed without a result for this receiver.
    pub fn try_recv(&self) -> (polled: Result<T, TryRecvError>) {
        poll(&self.rx)
    }

    /// Waits for the result and blocks the calling thread for `duration` at
    /// most. The answer is the result if it arrived in time, `Timeout` if the
    /// request is still pending then, and `Disconnected` once the request was
    /// destroyed without a result for this receiver. Giving up does not cancel
    /// the request.
    pub fn recv_timeout(&self, duration: Duration) -> (waited: Result<T, RecvTimeoutError>) {
        wait(&self.rx, duration)
    }

    /// The label for logs and diagnostics.
    pub fn describe(&self) -> (label: &str)
        ensures
            label@ == self.description(),
    {
        self.description.as_str()
    }
}

impl<T> Drop for LinkReceiver<T> {
    /// Cancels the request: raises the flag, whatever it showed before.
    fn drop(&mut self)
        opens_invariants none
        no_unwind
    {
        self.is_cancelled.raise();
    }
}

} // verus!
