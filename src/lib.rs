//! A multi-producer, multi-consumer broadcast channel.
//!
//! Every message sent on the channel is delivered to every receiver of the group, each
//! receiver holding its own point-to-point channel. A receiver joins the group only by
//! cloning an existing receiver; it then sees the messages sent after it joined.

mod broadcast;
mod channel;
mod error;
mod fan_out;

pub use broadcast::{bounded, unbounded, Receiver, Sender};
pub use error::{RecvError, SendError, TryRecvError, TrySendError};
pub use fan_out::{
    answered_by, fan_out_result, fan_out_with, is_fan_out, lemma_empty_registry_accepts, lemma_fan_out_push,
    lemma_refusal_surfaces, lemma_success_iff_all_delivered, settle, settle_send, settled, Answer,
};
