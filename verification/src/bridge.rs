//! Signal dispatch bridge: turns the asynchronous process interrupt into an
//! ordered event stream consumed by the service body. The channel is built
//! first and the process-wide handler registered after, so no interrupt can
//! slip between the two; the handler's only work is to enqueue a stop
//! event. Registration happens at most once per process.

use vstd::prelude::*;

use std::sync::mpsc::Receiver;
use std::sync::mpsc::Sender;

use crate::errors::Error;
use crate::events::ServiceEvent;

verus! {

#[verifier::external_type_specification]
#[verifier::external_body]
#[verifier::reject_recursive_types(T)]
pub struct ExSender<T>(Sender<T>);

#[verifier::external_type_specification]
#[verifier::external_body]
#[verifier::reject_recursive_types(T)]
pub struct ExReceiver<T>(Receiver<T>);

/// Relies on std::sync::mpsc::channel: an unbounded queue whose sender can
/// be cloned and shared across threads while the one receiver consumes the
/// events in the order they were sent; sending never blocks.
#[verifier::external_body]
fn event_channel() -> (Sender<ServiceEvent>, Receiver<ServiceEvent>) {
    std::sync::mpsc::channel()
}

/// Relies on std::sync::mpsc::Sender::send: enqueues the event without
/// blocking; it fails only when the receiving end is gone. Returns whether
/// the event was accepted.
#[verifier::external_body]
fn send_event(sender: &Sender<ServiceEvent>, event: ServiceEvent) -> bool {
    sender.send(event).is_ok()
}

/// Relies on std::sync::mpsc::Sender::clone: the clone feeds the same
/// queue as the original.
#[verifier::external_body]
fn clone_sender(sender: &Sender<ServiceEvent>) -> Sender<ServiceEvent> {
    sender.clone()
}

/// Enqueue a stop event. This is the whole body of the interrupt handler:
/// it neither blocks nor panics nor does any other work, and an event that
/// finds no receiver is dropped silently.
pub fn notify_stop(sender: &Sender<ServiceEvent>) {
    let _accepted = send_event(sender, ServiceEvent::Stop);
}

/// Relies on ctrlc::set_handler: registers the process-wide interrupt
/// handler — here, `notify_stop` on the given sender — starting a dedicated
/// signal-delivery thread. A second registration in the same process, or a
/// refusal by the operating system, comes back as the error text.
#[verifier::external_body]
fn set_stop_handler(sender: Sender<ServiceEvent>) -> Result<(), String> {
    match ctrlc::set_handler(move || notify_stop(&sender)) {
        Ok(()) => Ok(()),
        Err(e) => Err(format!("{}", e)),
    }
}

/// Open the event channel and register the process-wide interrupt handler
/// that feeds it. On success the service body receives the consuming end
/// and a cloneable sender of its own, so "the operating system asked us to
/// stop" and "we decided to stop" arrive on one and the same stream. The
/// channel exists before the handler is registered. A second call in the
/// same process fails: exactly one handler may ever be registered, and a
/// body must not run without signal delivery.
pub fn prepare_dispatch() -> (r: Result<(Receiver<ServiceEvent>, Sender<ServiceEvent>), Error>)
    ensures
        r matches Err(e) ==> e is HandlerRegistrationFailure,
{
    let (sender, receiver) = event_channel();
    let body_sender = clone_sender(&sender);
    match set_stop_handler(sender) {
        Ok(()) => Ok((receiver, body_sender)),
        Err(message) => Err(Error::HandlerRegistrationFailure { message }),
    }
}

} // verus!
