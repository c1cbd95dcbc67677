use vstd::prelude::*;

use crossbeam_channel::Sender;

verus! {

/// The sending half of a `crossbeam_channel` channel, carried through opaque.
#[verifier::external_type_specification]
#[verifier::external_body]
#[verifier::reject_recursive_types(T)]
pub struct ExSender<T>(Sender<T>);

/// Calls `crossbeam_channel::Sender::try_send`, which hands `msg` to the
/// channel without blocking and fails when the channel is full or its
/// receiver is gone; the error carries the message back (`into_inner`).
/// Trusted: a failure gives back exactly the message handed in. Whether the
/// call succeeds depends on the other threads, so that is left open.
#[verifier::external_body]
pub(crate) fn try_send<T>(tx: &Sender<T>, msg: T) -> (r: Result<(), T>)
    ensures
        r matches Err(m) ==> m == msg,
{
    match tx.try_send(msg) {
        Ok(()) => Ok(()),
        Err(e) => Err(e.into_inner()),
    }
}

} // verus!
