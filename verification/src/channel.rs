//! The audio thread's end of the cross-thread message channel.  The channel
//! itself is std's single-producer queue; the control thread owns the
//! sending half, the engine owns the receiving half.  Nothing can be
//! promised about what a drain yields — that depends on the control thread —
//! so the engine states what holds of its own state for every sequence of
//! received messages.

use vstd::prelude::*;

use std::sync::mpsc::Receiver;

verus! {

/// std's mpsc receiving half, declared so the engine can own it as a field.
/// Verus treats a value of it as opaque.
#[verifier::external_type_specification]
#[verifier::external_body]
#[verifier::reject_recursive_types(T)]
pub struct ExReceiver<T>(Receiver<T>);

/// Relies on std's mpsc `Receiver::try_iter`, whose iterator yields the
/// messages sent since the previous drain, in send order, each exactly
/// once, and stops without blocking once the queue is empty; the messages
/// are collected into a vector.  What they are depends on the control
/// thread, so nothing is promised of the result.
#[verifier::external_body]
pub(crate) fn drain_pending<T>(rx: &Receiver<T>) -> Vec<T> {
    rx.try_iter().collect()
}

} // verus!
