//! The receiving end of the channel through which answers reach the
//! application when it reads them itself.
use vstd::prelude::*;

use embassy_sync::channel::DynamicReceiver;

verus! {

/// The receiving end of an `embassy_sync` channel, of any capacity.
#[verifier::external_type_specification]
#[verifier::external_body]
#[verifier::reject_recursive_types(T)]
pub struct ExDynamicReceiver<'ch, T>(DynamicReceiver<'ch, T>);

/// Calls `embassy_sync::channel::DynamicReceiver::try_receive`, turning the
/// empty-channel error into `None`. What it returns depends on what other
/// tasks have sent, so nothing is claimed about it.
#[verifier::external_body]
pub(crate) fn try_receive<T>(receiver: &DynamicReceiver<'_, T>) -> (r: Option<T>) {
    receiver.try_receive().ok()
}

/// What a channel delivery sends for one answer it receives: the answer in
/// its owned form when the conversion succeeded (sent once), nothing when it
/// failed.
pub fn channel_item<O, E>(converted: Result<O, E>) -> (r: Option<O>)
    ensures
        match converted {
            Ok(o) => r == Some(o),
            Err(_) => r is None,
        },
{
    match converted {
        Ok(o) => Some(o),
        Err(_) => None,
    }
}

} // verus!
