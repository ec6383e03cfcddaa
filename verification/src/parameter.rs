//! A value shown by the frontend that a request to the backend may replace.

use crate::channel::TryRecvError;
use crate::link::LinkReceiver;
use vstd::prelude::*;

verus! {

/// A value together with the receiver of the request that will replace it, if
/// one is under way.
#[verifier::reject_recursive_types(T)]
pub struct UIParameter<T> {
    value: T,
    pending: Option<LinkReceiver<T>>,
}

impl<T> UIParameter<T> {
    /// The value held.
    pub closed spec fn current(&self) -> T {
        self.value
    }

    /// The receiver held, if any.
    pub closed spec fn receiver(&self) -> Option<LinkReceiver<T>> {
        self.pending
    }

    /// A parameter that holds `value` and waits for nothing.
    pub fn new(value: T) -> (parameter: Self)
        ensures
            parameter.current() == value,
            parameter.receiver() is None,
    {
        UIParameter { value, pending: None }
    }

    /// The value held.
    pub fn value(&self) -> (value: &T)
        ensures
            *value == self.current(),
    {
        &self.value
    }

    /// Whether a request is under way whose result has not arrived.
    pub fn is_pending(&self) -> (pending: bool)
        ensures
            pending == self.receiver() is Some,
    {
        self.pending.is_some()
    }

    /// Makes the parameter wait for `rx`. A receiver held before is dropped,
    /// which cancels its request.
    pub fn set_recv(&mut self, rx: LinkReceiver<T>)
        ensures
            final(self).current() == old(self).current(),
            final(self).receiver() == Some(rx),
    {
        self.pending = Some(rx);
    }

    /// Whether taking in `polled` makes `after` of this parameter, with
    /// `updated` as the answer. A value replaces the one held and ends the
    /// wait. A disconnected channel ends the wait too, since nothing can
    /// arrive any more. An empty channel changes nothing.
    pub open spec fn absorbs(
        &self,
        polled: Result<T, TryRecvError>,
        after: &Self,
        updated: bool,
    ) -> bool {
        &&& updated == polled is Ok
        &&& after.current() == match polled {
            Ok(value) => value,
            Err(_) => self.current(),
        }
        &&& after.receiver() == match polled {
            Err(TryRecvError::Empty) => self.receiver(),
            _ => None,
        }
    }

    /// Takes in what a poll of the receiver returned, and says whether the
    /// value was replaced.
    pub fn absorb(&mut self, polled: Result<T, TryRecvError>) -> (updated: bool)
        ensures
            old(self).absorbs(polled, final(self), updated),
    {
        match polled {
            Ok(value) => {
                self.value = value;
                self.pending = None;
                true
            },
            Err(TryRecvError::Empty) => false,
            Err(TryRecvError::Disconnected) => {
                self.pending = None;
                false
            },
        }
    }

    /// Polls the receiver held, if any, and takes in what it returned. Says
    /// whether the value was replaced. A parameter that waits for nothing
    /// stays as it is.
    pub fn try_update(&mut self) -> (updated: bool)
        ensures
            old(self).receiver() is None ==> !updated && *final(self) == *old(self),
            old(self).receiver() is Some ==> exists|polled: Result<T, TryRecvError>|
                old(self).absorbs(polled, final(self), updated),
    {
        let polled = match &self.pending {
            Some(rx) => rx.try_recv(),
            None => {
                return false;
            },
        };
        self.absorb(polled)
    }
}

} // verus!
