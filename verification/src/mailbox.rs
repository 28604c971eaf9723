//! The receiving end of a worker's mailbox.

use std::sync::mpsc::Receiver;
use vstd::prelude::*;

verus! {

/// The receiving end of a channel of the standard library. Nothing of its
/// contents is visible to proofs.
#[verifier::external_type_specification]
#[verifier::external_body]
#[verifier::reject_recursive_types(T)]
pub struct ExReceiver<T>(std::sync::mpsc::Receiver<T>);

/// Calls `Receiver::try_iter` and collects what it yields: the messages
/// that wait in the mailbox, oldest first. The call does not wait for
/// more. Which messages wait depends on how far the sender has come, so
/// nothing is claimed of the result.
#[verifier::external_body]
pub(crate) fn drain<T>(mailbox: &Receiver<T>) -> (waiting: Vec<T>) {
    mailbox.try_iter().collect()
}

} // verus!
