//! The one-shot cancellation signal, as `tokio::sync::oneshot` provides it.
//!
//! Nothing in this file is proved: it tells the verifier which outside types
//! and functions the session supervisor relies on, and what it may assume of
//! them.

use tokio::sync::oneshot::error::RecvError;
use tokio::sync::oneshot::{Receiver, Sender};
use vstd::prelude::*;

verus! {

/// `tokio::sync::oneshot::Sender`: the sending half of a one-shot channel.
/// The verifier sees nothing inside it.
#[verifier::external_type_specification]
#[verifier::external_body]
#[verifier::reject_recursive_types(T)]
pub struct ExSender<T>(Sender<T>);

/// `tokio::sync::oneshot::Receiver`: the receiving half of a one-shot
/// channel. The verifier sees nothing inside it.
#[verifier::external_type_specification]
#[verifier::external_body]
#[verifier::reject_recursive_types(T)]
pub struct ExReceiver<T>(Receiver<T>);

/// `tokio::sync::oneshot::error::RecvError`: what awaiting a receiver yields
/// once its sender is gone. No function of this crate handles one. It is
/// declared because `Receiver` is a `Future` with this type in its output,
/// and the verifier refuses `Receiver` while that type is unknown to it.
/// The verifier sees nothing inside it.
#[verifier::external_type_specification]
#[verifier::external_body]
pub struct ExRecvError(RecvError);

/// `tokio::sync::oneshot::channel` returns the two halves of a fresh channel.
/// Nothing is claimed of them.
pub assume_specification<T>[ tokio::sync::oneshot::channel::<T> ]() -> (halves: (
    Sender<T>,
    Receiver<T>,
));

/// `tokio::sync::oneshot::Sender::send` consumes the sender and never waits.
/// Whether the value was accepted depends on the receiver, so only this is
/// claimed: a value that was refused comes back unchanged.
pub assume_specification<T>[ Sender::<T>::send ](sender: Sender<T>, t: T) -> (outcome: Result<
    (),
    T,
>)
    ensures
        outcome matches Err(returned) ==> returned == t,
;

} // verus!
