//! The data model: channel balances, channel states, party records, errors
//! and the effects that an operation hands back to its host.

use vstd::prelude::*;
use crate::bytes::Bytes32;

verus! {

/// An identity: the public key that a party signs with, ordered bytewise.
pub type AccountId = Bytes32;

/// An output of the host's hash function.
pub type H256 = Bytes32;

/// The identifier of a channel: the hash of its two parties in canonical order.
pub type ChannelId = H256;

/// A public key that signatures are checked against.
pub type Public = Bytes32;

/// A signature over an encoded message.
pub type Signature = [u8; 64];

/// An amount of currency.
pub type Balance = u128;

/// A point in time on the host's clock.
pub type Moment = u64;

/// The funds locked in a channel and the share of its lower-ordered party.
#[derive(Clone, Copy, PartialEq, Eq, Debug, Structural)]
pub struct ChannelBalance {
    /// Everything locked in the channel.
    pub balance: Balance,
    /// The share of party A, the lower-ordered identity; the other party holds
    /// `balance - balance_a`.
    pub balance_a: Balance,
}

impl ChannelBalance {
    /// Party A's share never exceeds what the channel holds.
    pub open spec fn wf(self) -> bool {
        self.balance_a <= self.balance
    }
}

/// The lifecycle state of a channel.
#[derive(Clone, Copy, PartialEq, Eq, Debug, Structural)]
pub enum Channel {
    /// No channel exists between the two parties.
    Uninitialized,
    /// Funds were deposited; the channel is not yet usable for tickets.
    Funded(ChannelBalance),
    /// Both parties agreed on the channel; tickets can be redeemed.
    Active(ChannelBalance),
    /// Settlement was initiated; tickets may be redeemed until the deadline,
    /// after which the funds can be withdrawn.
    PendingSettlement(ChannelBalance, Moment),
}

impl Channel {
    /// The balance that the channel holds, if it exists.
    pub open spec fn balance_of(self) -> Option<ChannelBalance> {
        match self {
            Channel::Uninitialized => None,
            Channel::Funded(b) => Some(b),
            Channel::Active(b) => Some(b),
            Channel::PendingSettlement(b, _) => Some(b),
        }
    }

    /// Every balance that the channel holds is well formed.
    pub open spec fn wf(self) -> bool {
        match self.balance_of() {
            Some(b) => b.wf(),
            None => true,
        }
    }
}

impl Default for Channel {
    /// A channel that does not exist.
    fn default() -> (r: Self)
        ensures
            r == Channel::Uninitialized,
    {
        Channel::Uninitialized
    }
}

/// What the ledger records of a registered party.
#[derive(Clone, Copy, PartialEq, Eq, Debug)]
pub struct State {
    /// The head of the party's hash chain.
    pub secret: H256,
    /// The key that the party's signatures are checked against.
    pub pubkey: Public,
}

/// Why an operation was rejected. A rejected operation changes nothing.
#[derive(Clone, Copy, PartialEq, Eq, Debug, Structural)]
pub enum Error {
    /// The party has registered before.
    AlreadyInitialized,
    /// A party has not registered.
    NotInitialized,
    /// The new secret equals the stored one.
    NoOpUpdate,
    /// Caller and counterparty are the same identity.
    SameParty,
    /// The amount is zero.
    NonPositiveAmount,
    /// A party cannot reserve the amount.
    InsufficientFunds,
    /// An addition or subtraction left the range of its type.
    IntegerOverflow,
    /// The channel is not in a state that the operation accepts.
    InvalidChannelState,
    /// The signature does not verify.
    InvalidSignature,
    /// The revealed value does not hash to the caller's secret.
    InvalidPreimage,
    /// The ticket's hash is not below its win probability.
    NotAWinningTicket,
    /// The transfer would give party A more than the channel holds.
    BalanceExceeded,
    /// The signature was accepted before.
    NonceReused,
    /// The settlement window of the channel has closed.
    WindowExpired,
    /// No channel exists between the two parties.
    ChannelNotFound,
}

/// What a successful operation asks of its host: fund movements for the
/// currency ledger, and events for observers.
#[derive(Clone, Copy, PartialEq, Eq, Debug)]
pub enum Effect {
    /// Reserve the amount from the identity's free funds.
    Reserve(AccountId, Balance),
    /// Release the amount of the identity's reserved funds.
    Unreserve(AccountId, Balance),
    /// A channel became active, with its total and party A's share.
    Opened(ChannelId, Balance, Balance),
    /// Settlement of a channel began, with party A's share.
    InitiatedSettlement(ChannelId, Balance),
}

} // verus!
