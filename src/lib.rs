//! A two-party payment-channel ledger with probabilistic redemption tickets.
//!
//! Two identities lock funds into a shared channel, exchange signed tickets
//! off-chain and redeem the winning ones to move the agreed balance split,
//! with a timed settlement procedure for leaving the channel.

pub mod bytes;
pub mod codec;
pub mod host;
pub mod laws;
pub mod ledger;
pub mod module;
pub mod table;
pub mod types;

pub use codec::{encode_balance, encode_channel, encode_pair, encode_recovery, encode_ticket};
pub use host::Trait;
pub use ledger::PENDING_WINDOW;
pub use module::Module;
pub use types::{
    AccountId, Balance, Channel, ChannelBalance, ChannelId, Effect, Error, H256, Moment, Public,
    Signature, State,
};
