//! The way out: the channel on which the engine and the store hand their
//! actions on.

use vstd::prelude::*;
use crate::error::{Error, Result};
use crate::state::Action;

verus! {

/// `tokio::sync::mpsc::UnboundedSender`, the sending half of a channel
/// without bound. Nothing is known of what is inside.
#[verifier::external_type_specification]
#[verifier::external_body]
#[verifier::reject_recursive_types(T)]
pub struct ExUnboundedSender<T>(tokio::sync::mpsc::UnboundedSender<T>);

/// The sending half of the channel of actions.
pub type ActionSender = tokio::sync::mpsc::UnboundedSender<Action>;

/// `tokio::sync::mpsc::UnboundedSender::send`: hands the action to the
/// receiver, or fails, with the failure in words, where the receiver is
/// gone. Which of the two happens depends on the receiver: nothing is
/// claimed of it.
#[verifier::external_body]
pub(crate) fn send_action(tx: &ActionSender, action: Action) -> (r: core::result::Result<(), String>) {
    match tx.send(action) {
        Ok(()) => Ok(()),
        Err(e) => Err(e.to_string()),
    }
}

/// What a hand-over to the channel comes to for the library: done where the
/// channel took the action, and a channel error with the channel's own
/// words where it did not.
pub fn delivery(outcome: core::result::Result<(), String>) -> (r: Result<()>)
    ensures
        outcome is Ok ==> r is Ok,
        outcome matches Err(words) ==> r matches Err(Error::Channel(m)) && m@ == words@,
{
    match outcome {
        Ok(()) => Ok(()),
        Err(words) => Err(Error::channel(words.as_str())),
    }
}

} // verus!
