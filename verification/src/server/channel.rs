//! The channels through which the server's threads talk.

use std::sync::mpsc::{Receiver, Sender};

use vstd::prelude::*;

verus! {

/// `std::sync::mpsc::Sender`: the sending end of a channel.
#[verifier::external_type_specification]
#[verifier::external_body]
#[verifier::reject_recursive_types(T)]
pub struct ExSender<T>(Sender<T>);

/// `std::sync::mpsc::Receiver`: the receiving end of a channel.
#[verifier::external_type_specification]
#[verifier::external_body]
#[verifier::reject_recursive_types(T)]
pub struct ExReceiver<T>(Receiver<T>);

/// `Sender::send`: hands `value` to the channel. Whether it arrives depends on
/// the receiving thread still listening, so nothing is said of the outcome; a
/// refusal is handed back as the error's display text.
#[verifier::external_body]
pub(crate) fn send<T>(tx: &Sender<T>, value: T) -> (r: Result<(), String>) {
    tx.send(value).map_err(|e| e.to_string())
}

/// `Receiver::recv`: waits for the next value of the channel. What arrives comes
/// from another thread, so nothing is said of it; a closed channel is handed
/// back as the error's display text.
#[verifier::external_body]
pub(crate) fn recv<T>(rx: &Receiver<T>) -> (r: Result<T, String>) {
    rx.recv().map_err(|e| e.to_string())
}

} // verus!
