use async_channel::{Receiver as ChannelRx, Sender as ChannelTx};
use std::sync::{Arc, RwLock};
use vstd::prelude::*;

use crate::channel::{deliver, open_bounded, open_unbounded, register, snapshot, take};
use crate::error::{TryRecvError, TrySendError};
use crate::fan_out::{fan_out_result, fan_out_with, is_fan_out, Answer};

verus! {

/// The producer halves of every receiver's channel, in the order the receivers joined.
type Registry<T> = Arc<RwLock<Vec<ChannelTx<T>>>>;

/// Opens the point-to-point channel of one receiver: bounded at `cap` messages, or
/// unbounded for `None`.
fn open_channel<T>(cap: Option<usize>) -> (ChannelTx<T>, ChannelRx<T>)
    requires
        cap matches Some(n) ==> n > 0,
{
    match cap {
        Some(n) => open_bounded(n),
        None => open_unbounded(),
    }
}

/// The sending side of a broadcast group. Clones share the group's registry.
#[derive(Debug)]
#[verifier::reject_recursive_types(T)]
pub struct Sender<T> {
    registry: Registry<T>,
}

impl<T> Sender<T> {
    /// The registry of the group this sender broadcasts to.
    pub closed spec fn group(self) -> Registry<T> {
        self.registry
    }
}

impl<T> Clone for Sender<T> {
    /// Another handle on the same group: it shares the registry and adds no entry.
    fn clone(&self) -> (r: Self)
        ensures
            r.group() == self.group(),
    {
        Sender { registry: self.registry.clone() }
    }
}

impl<T: Clone> Sender<T> {
    /// Hands a copy of `msg` to every receiver of the group, in the order they joined,
    /// without waiting. The first entry that is full or closed ends the send with that
    /// error, carrying `msg`; the entries before it keep their copy, those after it get
    /// none. With no entry at all the send succeeds.
    pub fn try_send(&self, msg: T) -> (r: Result<(), TrySendError<T>>)
        ensures
            r matches Err(e) ==> e.message() == msg,
            exists|answers: Seq<Answer<T>>, n: nat|
                is_fan_out(answers, n) && r == fan_out_result(answers, msg),
    {
        let entries = snapshot(&self.registry);
        let targets = &entries;
        let (r, Ghost(answers)) = fan_out_with(
            entries.len(),
            msg,
            (|i: usize, m: T|
                requires
                    i < targets@.len(),
                { deliver(&targets[i], m) }),
        );
        assert(is_fan_out(answers, entries@.len() as nat));
        r
    }
}

impl<T> Sender<T> {
    /// The registry's entries as they stand now, in the order their receivers joined.
    pub fn entries(&self) -> Vec<ChannelTx<T>> {
        snapshot(&self.registry)
    }
}

/// The receiving side of a broadcast group, with its own channel. A clone is a new
/// member of the group: it gets a fresh channel of the same capacity and sees only the
/// messages sent after it joined.
#[derive(Debug)]
#[verifier::reject_recursive_types(T)]
pub struct Receiver<T> {
    registry: Registry<T>,
    channel: ChannelRx<T>,
    cap: Option<usize>,
}

impl<T> Receiver<T> {
    /// A bounded group never has a capacity of zero.
    #[verifier::type_invariant]
    spec fn wf(self) -> bool {
        self.cap matches Some(n) ==> n > 0
    }

    /// The registry of the group this receiver belongs to.
    pub closed spec fn group(self) -> Registry<T> {
        self.registry
    }

    /// The capacity of this receiver's channel: `None` when unbounded.
    pub closed spec fn capacity(self) -> Option<usize> {
        self.cap
    }

    /// Takes the oldest message waiting for this receiver, without waiting.
    pub fn try_recv(&self) -> Result<T, TryRecvError> {
        take(&self.channel)
    }

    /// This receiver's own point-to-point channel.
    pub fn channel(&self) -> &ChannelRx<T> {
        &self.channel
    }
}

impl<T> Clone for Receiver<T> {
    fn clone(&self) -> (r: Self)
        ensures
            r.capacity() == self.capacity(),
            r.group() == self.group(),
    {
        proof {
            use_type_invariant(self);
        }
        let (entry, channel) = open_channel(self.cap);
        register(&self.registry, entry);
        Receiver { registry: self.registry.clone(), channel, cap: self.cap }
    }
}

/// Creates a broadcast group whose receivers each hold at most `cap` messages.
pub fn bounded<T>(cap: usize) -> (r: (Sender<T>, Receiver<T>))
    requires
        cap > 0,
    ensures
        r.1.capacity() == Some(cap),
        r.0.group() == r.1.group(),
{
    broadcast_channel(Some(cap))
}

/// Creates a broadcast group whose receivers hold any number of messages.
pub fn unbounded<T>() -> (r: (Sender<T>, Receiver<T>))
    ensures
        r.1.capacity() == None::<usize>,
        r.0.group() == r.1.group(),
{
    broadcast_channel(None)
}

/// A group of one sender and one receiver, whose channel is the registry's only entry.
fn broadcast_channel<T>(cap: Option<usize>) -> (r: (Sender<T>, Receiver<T>))
    requires
        cap matches Some(n) ==> n > 0,
    ensures
        r.1.capacity() == cap,
        r.0.group() == r.1.group(),
{
    let (entry, channel) = open_channel(cap);
    let mut entries = Vec::new();
    entries.push(entry);
    let registry = Arc::new(RwLock::new(entries));
    (Sender { registry: registry.clone() }, Receiver { registry, channel, cap })
}

} // verus!
