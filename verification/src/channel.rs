//! Cross-thread dispatch: a component loop fed by a `may` mpsc channel.
//!
//! A sequentially owned [`EventStream`](crate::stream::EventStream) cannot
//! be shared with producer threads, so background work hands its results
//! over a channel instead: worker threads or coroutines keep the sender
//! and emit messages into it, while the consumer calls
//! [`run_component_step`] until the channel reports the end of the
//! stream.  The receive may block indefinitely — for how long is up to
//! the producers — so the loop around the step carries no termination
//! measure and is left to the caller; each step's effect on the
//! component is pinned down here.

use vstd::prelude::*;

use crate::dispatch::{update_component, Update, WarningSink};
use crate::stream::EndOfStream;

verus! {

#[verifier::external_type_specification]
#[verifier::external_body]
#[verifier::reject_recursive_types(T)]
pub struct ExReceiver<T>(may::sync::mpsc::Receiver<T>);

/// Relies on may::sync::mpsc::Receiver::recv: blocks until a message
/// arrives, and reports an error exactly when every sender has been
/// dropped and the queue is drained.  Which message arrives depends on
/// the producers, so nothing is promised of the result.
#[verifier::external_body]
fn recv_event<M>(events: &may::sync::mpsc::Receiver<M>) -> Result<M, EndOfStream> {
    match events.recv() {
        Ok(event) => Ok(event),
        Err(_) => Err(EndOfStream),
    }
}

/// One iteration of a channel-fed dispatch loop: block until the next
/// message, dispatch it to the component as [`update_component`] does,
/// and hand a slow-update warning, if any, to the sink.  Returns whether
/// the loop should go on: `false` exactly when the channel reported the
/// end of the stream, in which case the component is untouched; on `true`
/// the component has advanced by one application of its update
/// specification, to whichever message the channel delivered.
pub fn run_component_step<C: Update, S: WarningSink>(
    events: &may::sync::mpsc::Receiver<C::Msg>,
    component: &mut C,
    instrumented: bool,
    sink: &mut S,
) -> (more: bool)
    ensures
        more ==> exists|m: C::Msg| *final(component) == C::next(*old(component), m),
        !more ==> *final(component) == *old(component),
{
    let r = recv_event(events);
    match r {
        Ok(event) => {
            let warning = update_component(component, event, instrumented);
            match warning {
                Some(w) => sink.warn(&w),
                None => (),
            }
            true
        },
        Err(_) => false,
    }
}

} // verus!
