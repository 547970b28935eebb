use async_channel::{Receiver as ChannelRx, Sender as ChannelTx};
use std::sync::RwLock;
use vstd::prelude::*;

use crate::error::{TryRecvError, TrySendError};
use crate::fan_out::Answer;

verus! {

#[verifier::external_type_specification]
#[verifier::external_body]
#[verifier::reject_recursive_types(T)]
pub struct ExChannelTx<T>(ChannelTx<T>);

#[verifier::external_type_specification]
#[verifier::external_body]
#[verifier::reject_recursive_types(T)]
pub struct ExChannelRx<T>(ChannelRx<T>);

#[verifier::external_type_specification]
#[verifier::external_body]
#[verifier::reject_recursive_types(T)]
pub struct ExRwLock<T: ?Sized>(std::sync::RwLock<T>);

/// Relies on async_channel::bounded: a fresh channel with room for `cap` messages. It
/// panics when `cap` is zero.
#[verifier::external_body]
pub(crate) fn open_bounded<T>(cap: usize) -> (ChannelTx<T>, ChannelRx<T>)
    requires
        cap > 0,
{
    async_channel::bounded(cap)
}

/// Relies on async_channel::unbounded: a fresh channel without a bound.
#[verifier::external_body]
pub(crate) fn open_unbounded<T>() -> (ChannelTx<T>, ChannelRx<T>) {
    async_channel::unbounded()
}

/// RwLock::new wraps a value in a fresh, unlocked reader/writer lock.
pub assume_specification<T>[ std::sync::RwLock::<T>::new ](t: T) -> RwLock<T>;

/// Relies on async_channel::Sender::try_send: the message is queued, or handed back
/// unchanged inside `Full` (no room) or `Closed` (every receiver of the channel is gone).
#[verifier::external_body]
pub(crate) fn deliver<T>(entry: &ChannelTx<T>, msg: T) -> (r: Answer<T>)
    ensures
        r matches Err(e) ==> e.message() == msg,
{
    match entry.try_send(msg) {
        Ok(()) => Ok(()),
        Err(async_channel::TrySendError::Full(m)) => Err(TrySendError::Full(m)),
        Err(async_channel::TrySendError::Closed(m)) => Err(TrySendError::Closed(m)),
    }
}

/// Relies on async_channel::Receiver::try_recv: the oldest waiting message, or `Empty` or
/// `Closed` when none is waiting.
#[verifier::external_body]
pub(crate) fn take<T>(channel: &ChannelRx<T>) -> Result<T, TryRecvError> {
    match channel.try_recv() {
        Ok(m) => Ok(m),
        Err(async_channel::TryRecvError::Empty) => Err(TryRecvError::Empty),
        Err(async_channel::TryRecvError::Closed) => Err(TryRecvError::Closed),
    }
}

/// Relies on RwLock::read: a copy of the registry's entries, taken under the shared lock
/// and released before any entry is used. The lock is poisoned only if a holder panicked
/// inside it; the group then cannot go on, and this panics.
#[verifier::external_body]
pub(crate) fn snapshot<T>(registry: &RwLock<Vec<ChannelTx<T>>>) -> Vec<
    ChannelTx<T>,
> {
    registry.read().expect("broadcast registry lock poisoned").clone()
}

/// Relies on RwLock::write: appends `entry` to the registry under the exclusive lock,
/// panicking as `snapshot` does on a poisoned lock.
#[verifier::external_body]
pub(crate) fn register<T>(
    registry: &RwLock<Vec<ChannelTx<T>>>,
    entry: ChannelTx<T>,
) {
    registry.write().expect("broadcast registry lock poisoned").push(entry)
}

} // verus!
