use vstd::prelude::*;

verus! {

/// Why a non-suspending broadcast send failed; the message comes back to the caller.
#[derive(PartialEq, Eq, Clone, Copy, Debug)]
pub enum TrySendError<T> {
    /// An entry of the group had no room for the message.
    Full(T),
    /// An entry of the group belongs to a receiver that is gone.
    Closed(T),
}

impl<T> TrySendError<T> {
    /// The message that the error carries.
    pub open spec fn message(self) -> T {
        match self {
            TrySendError::Full(m) => m,
            TrySendError::Closed(m) => m,
        }
    }

    /// Takes the message back out of the error.
    pub fn into_inner(self) -> (r: T)
        ensures
            r == self.message(),
    {
        match self {
            TrySendError::Full(m) => m,
            TrySendError::Closed(m) => m,
        }
    }

    pub fn is_full(&self) -> (r: bool)
        ensures
            r == (*self is Full),
    {
        match self {
            TrySendError::Full(_) => true,
            TrySendError::Closed(_) => false,
        }
    }

    pub fn is_closed(&self) -> (r: bool)
        ensures
            r == (*self is Closed),
    {
        match self {
            TrySendError::Full(_) => false,
            TrySendError::Closed(_) => true,
        }
    }
}

/// A suspending send reached an entry whose receiver is gone; the message comes back.
#[derive(PartialEq, Eq, Clone, Copy, Debug)]
pub struct SendError<T>(pub T);

/// Why a non-suspending receive returned no message.
#[derive(PartialEq, Eq, Clone, Copy, Debug)]
pub enum TryRecvError {
    /// No message is waiting.
    Empty,
    /// No message is waiting and no entry can deliver one any more.
    Closed,
}

/// A suspending receive found its channel empty and closed.
#[derive(PartialEq, Eq, Clone, Copy, Debug)]
pub struct RecvError;

} // verus!
