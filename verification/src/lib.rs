//! A dispatcher that links many frontend call sites to one backend.
//!
//! A frontend wraps a closure in a [`BackendLink`], keeps the paired
//! [`LinkReceiver`] and puts the link on the backend's request queue. The
//! backend is the only owner of its state: it takes the requests off the queue
//! one at a time and runs each against that state. The result travels back
//! over a channel of its own. Dropping the receiver raises a cancellation flag
//! that the link checks before and after its action.
//!
//! The flag and both channels are shared between threads, so what a load or a
//! receive returns is not a function of the values at hand. The contracts here
//! therefore say what holds for every observation, and the functions that take
//! an observation as an argument say exactly what follows from it. A request
//! is consumed by its run, so none runs twice.

pub mod channel;
pub mod event_loop;
pub mod flag;
pub mod link;
pub mod parameter;

pub use channel::RecvTimeoutError;
pub use channel::TryRecvError;
pub use event_loop::BackendEventLoop;
pub use event_loop::BackendRequest;
pub use event_loop::BackendState;
pub use event_loop::RunOutcome;
pub use flag::CancellationFlag;
pub use link::enqueue;
pub use link::BackendHungUp;
pub use link::BackendLink;
pub use link::Computed;
pub use link::DynRequestSender;
pub use link::LinkReceiver;
pub use link::BACKEND_HUNG_UP_MSG;
pub use parameter::UIParameter;
