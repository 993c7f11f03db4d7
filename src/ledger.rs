//! The mathematical model of the ledger and what each operation does to it.
//!
//! Each operation is stated as a function from the ledger before the call to
//! either an error, or the ledger after the call together with the effects
//! that the host must carry out. Validation always precedes mutation: on an
//! error the ledger is left as it was.

use vstd::prelude::*;
use crate::bytes::seq_lt;
use crate::codec::{channel_bytes, recovery_bytes, ticket_bytes};
use crate::host::Trait;
use crate::types::{
    AccountId, Balance, Channel, ChannelBalance, ChannelId, Effect, Error, H256, Public, Signature,
    State,
};

verus! {

/// How long a channel stays open to disputes after settlement begins.
pub const PENDING_WINDOW: u64 = 60;

/// The ledger's state: the channel table, the party registry and the set of
/// consumed signature hashes.
pub ghost struct LedgerView {
    pub channels: Map<ChannelId, Channel>,
    pub states: Map<AccountId, State>,
    pub nonces: Set<H256>,
}

/// What an operation does: the ledger after it and the effects it asks for,
/// or the reason it was rejected.
pub type Outcome = Result<(LedgerView, Seq<Effect>), Error>;

impl LedgerView {
    /// The ledger with no channels, no parties and no consumed signatures.
    pub open spec fn empty() -> LedgerView {
        LedgerView { channels: Map::empty(), states: Map::empty(), nonces: Set::empty() }
    }

    /// The channel stored under `id`; an absent entry is an uninitialized channel.
    pub open spec fn channel(self, id: ChannelId) -> Channel {
        if self.channels.contains_key(id) {
            self.channels[id]
        } else {
            Channel::Uninitialized
        }
    }

    /// Whether `who` has registered.
    pub open spec fn registered(self, who: AccountId) -> bool {
        self.states.contains_key(who)
    }

    /// Every stored channel exists and has a well-formed balance.
    pub open spec fn wf(self) -> bool {
        forall|id: ChannelId| #[trigger]
            self.channels.contains_key(id) ==> self.channels[id].wf() && self.channels[id]
                != Channel::Uninitialized
    }

    /// The ledger with `c` stored under `id`.
    pub open spec fn set_channel(self, id: ChannelId, c: Channel) -> LedgerView {
        LedgerView { channels: self.channels.insert(id, c), states: self.states, nonces: self.nonces }
    }

    /// The ledger without a channel under `id`.
    pub open spec fn remove_channel(self, id: ChannelId) -> LedgerView {
        LedgerView { channels: self.channels.remove(id), states: self.states, nonces: self.nonces }
    }

    /// The ledger with `s` as the record of `who`.
    pub open spec fn set_state(self, who: AccountId, s: State) -> LedgerView {
        LedgerView { channels: self.channels, states: self.states.insert(who, s), nonces: self.nonces }
    }

    /// The ledger with `nonce` among the consumed signatures.
    pub open spec fn consume(self, nonce: H256) -> LedgerView {
        LedgerView { channels: self.channels, states: self.states, nonces: self.nonces.insert(nonce) }
    }
}

/// Party A of a channel is the lower-ordered of its two identities.
pub open spec fn party_a(a: AccountId, b: AccountId) -> bool {
    seq_lt(a@, b@)
}

/// The channel of two identities: the hash of both, lower-ordered first, so
/// that it does not depend on who asks.
pub open spec fn channel_id<H: Trait>(host: H, a: AccountId, b: AccountId) -> ChannelId {
    if party_a(a, b) {
        host.spec_hash(a@ + b@)
    } else {
        host.spec_hash(b@ + a@)
    }
}

/// The key under which a signature is recorded once it has been accepted.
pub open spec fn nonce_of<H: Trait>(host: H, signature: Signature) -> H256 {
    host.spec_hash(signature@)
}

/// The key that the registry holds for `who`.
pub open spec fn pubkey_of(v: LedgerView, who: AccountId) -> Public {
    v.states[who].pubkey
}

/// Whether `r` and the ledger after a call are what `expected` says, and an
/// error left the ledger as it was.
pub open spec fn applied(
    r: Result<Vec<Effect>, Error>,
    before: LedgerView,
    after: LedgerView,
    expected: Outcome,
) -> bool {
    match (r, expected) {
        (Ok(effects), Ok((v, es))) => effects@ == es && after == v,
        (Err(e), Err(x)) => e == x && after == before,
        _ => false,
    }
}

/// Registers `caller` with its key and the head of its hash chain.
pub open spec fn init_step(v: LedgerView, caller: AccountId, pubkey: Public, secret: H256) -> Outcome {
    if v.registered(caller) {
        Err(Error::AlreadyInitialized)
    } else {
        Ok((v.set_state(caller, State { secret, pubkey }), Seq::empty()))
    }
}

/// Replaces the head of `caller`'s hash chain.
pub open spec fn set_secret_step(v: LedgerView, caller: AccountId, secret: H256) -> Outcome {
    if !v.registered(caller) {
        Err(Error::NotInitialized)
    } else if v.states[caller].secret == secret {
        Err(Error::NoOpUpdate)
    } else {
        Ok((v.set_state(caller, State { secret, pubkey: v.states[caller].pubkey }), Seq::empty()))
    }
}

/// Deposits `funds` of `caller` into its channel with `counterparty`,
/// creating the channel if it does not exist. The deposit adds to the total,
/// and to party A's share when the caller is party A.
pub open spec fn create_step<H: Trait>(
    v: LedgerView,
    host: H,
    caller: AccountId,
    funds: Balance,
    counterparty: AccountId,
) -> Outcome {
    let id = channel_id(host, caller, counterparty);
    let is_a = party_a(caller, counterparty);
    if caller == counterparty {
        Err(Error::SameParty)
    } else if funds == 0 {
        Err(Error::NonPositiveAmount)
    } else if !v.registered(caller) || !v.registered(counterparty) {
        Err(Error::NotInitialized)
    } else if !host.spec_can_reserve(caller, funds) {
        Err(Error::InsufficientFunds)
    } else {
        match v.channel(id) {
            Channel::Uninitialized => {
                let b = ChannelBalance { balance: funds, balance_a: if is_a { funds } else { 0 } };
                Ok((v.set_channel(id, Channel::Funded(b)), seq![Effect::Reserve(caller, funds)]))
            },
            Channel::Funded(b) => {
                if b.balance + funds > u128::MAX || (is_a && b.balance_a + funds > u128::MAX) {
                    Err(Error::IntegerOverflow)
                } else {
                    let nb = ChannelBalance {
                        balance: (b.balance + funds) as u128,
                        balance_a: if is_a { (b.balance_a + funds) as u128 } else { b.balance_a },
                    };
                    Ok((v.set_channel(id, Channel::Funded(nb)), seq![Effect::Reserve(caller, funds)]))
                }
            },
            _ => Err(Error::InvalidChannelState),
        }
    }
}

/// Activates a funded channel with the counterparty's signature over the
/// channel as it stands.
///
/// Every operation that takes a signature refuses one that was accepted
/// before, ahead of any other check, so that a replayed message always fails
/// the same way.
pub open spec fn set_active_step<H: Trait>(
    v: LedgerView,
    host: H,
    caller: AccountId,
    counterparty: AccountId,
    signature: Signature,
) -> Outcome {
    let id = channel_id(host, caller, counterparty);
    let nonce = nonce_of(host, signature);
    if v.nonces.contains(nonce) {
        Err(Error::NonceReused)
    } else if !v.registered(counterparty) {
        Err(Error::NotInitialized)
    } else {
        match v.channel(id) {
            Channel::Uninitialized => Err(Error::ChannelNotFound),
            Channel::Funded(b) => {
                if !host.spec_verify(signature, channel_bytes(Channel::Funded(b)), pubkey_of(v, counterparty)) {
                    Err(Error::InvalidSignature)
                } else {
                    Ok((
                        v.set_channel(id, Channel::Active(b)).consume(nonce),
                        seq![Effect::Opened(id, b.balance, b.balance_a)],
                    ))
                }
            },
            _ => Err(Error::InvalidChannelState),
        }
    }
}

/// Opens an active channel in one step, each party depositing `funds`, with
/// the counterparty's signature over the resulting channel.
pub open spec fn create_funded_step<H: Trait>(
    v: LedgerView,
    host: H,
    caller: AccountId,
    counterparty: AccountId,
    signature: Signature,
    funds: Balance,
) -> Outcome {
    let id = channel_id(host, caller, counterparty);
    let nonce = nonce_of(host, signature);
    let b = ChannelBalance { balance: (2 * funds) as u128, balance_a: funds };
    if v.nonces.contains(nonce) {
        Err(Error::NonceReused)
    } else if caller == counterparty {
        Err(Error::SameParty)
    } else if funds == 0 {
        Err(Error::NonPositiveAmount)
    } else if !v.registered(counterparty) {
        Err(Error::NotInitialized)
    } else if 2 * funds > u128::MAX {
        Err(Error::IntegerOverflow)
    } else if v.channel(id) != Channel::Uninitialized {
        Err(Error::InvalidChannelState)
    } else if !host.spec_verify(signature, channel_bytes(Channel::Active(b)), pubkey_of(v, counterparty)) {
        Err(Error::InvalidSignature)
    } else if !host.spec_can_reserve(caller, funds) || !host.spec_can_reserve(counterparty, funds) {
        Err(Error::InsufficientFunds)
    } else {
        Ok((
            v.set_channel(id, Channel::Active(b)).consume(nonce),
            seq![
                Effect::Reserve(caller, funds),
                Effect::Reserve(counterparty, funds),
                Effect::Opened(id, b.balance, b.balance_a),
            ],
        ))
    }
}

/// The challenge of a ticket: the hash of the hashes of both key shares.
pub open spec fn challenge_of<H: Trait>(host: H, s_a: H256, s_b: H256) -> H256 {
    host.spec_hash(host.spec_hash(s_a@)@ + host.spec_hash(s_b@)@)
}

/// The encoded ticket that the counterparty signs.
pub open spec fn ticket_message<H: Trait>(
    host: H,
    pre_image: H256,
    s_a: H256,
    s_b: H256,
    amount: Balance,
    win_prob: H256,
) -> Seq<u8> {
    ticket_bytes(challenge_of(host, s_a, s_b), pre_image, amount, win_prob)
}

/// A ticket wins when its hash, read as a big-endian number, is below its
/// win probability.
pub open spec fn is_win<H: Trait>(host: H, message: Seq<u8>, win_prob: H256) -> bool {
    seq_lt(host.spec_hash(message)@, win_prob@)
}

/// The balance of a channel, with the deadline of a pending settlement, that
/// a ticket can be redeemed against at time `now`.
pub open spec fn redeemable(c: Channel, now: u64) -> Result<ChannelBalance, Error> {
    match c {
        Channel::Uninitialized => Err(Error::ChannelNotFound),
        Channel::Active(b) => Ok(b),
        Channel::PendingSettlement(b, deadline) => if now > deadline {
            Err(Error::WindowExpired)
        } else {
            Ok(b)
        },
        Channel::Funded(_) => Err(Error::InvalidChannelState),
    }
}

/// Party A's share after the caller redeems `amount`: it grows when the caller
/// is party A and shrinks otherwise.
pub open spec fn shifted(b: ChannelBalance, is_a: bool, amount: Balance) -> Result<ChannelBalance, Error> {
    if is_a {
        if b.balance_a + amount > u128::MAX {
            Err(Error::IntegerOverflow)
        } else if b.balance_a + amount > b.balance {
            Err(Error::BalanceExceeded)
        } else {
            Ok(ChannelBalance { balance: b.balance, balance_a: (b.balance_a + amount) as u128 })
        }
    } else {
        if amount > b.balance_a {
            Err(Error::IntegerOverflow)
        } else {
            Ok(ChannelBalance { balance: b.balance, balance_a: (b.balance_a - amount) as u128 })
        }
    }
}

/// The channel with a new balance, in the same state and with the same deadline.
pub open spec fn with_balance(c: Channel, b: ChannelBalance) -> Channel {
    match c {
        Channel::PendingSettlement(_, deadline) => Channel::PendingSettlement(b, deadline),
        _ => Channel::Active(b),
    }
}

/// Redeems a winning ticket that `counterparty` signed, paying `amount` to
/// `caller`, who reveals the next link of its hash chain.
pub open spec fn redeem_ticket_step<H: Trait>(
    v: LedgerView,
    host: H,
    caller: AccountId,
    signature: Signature,
    counterparty: AccountId,
    pre_image: H256,
    s_a: H256,
    s_b: H256,
    amount: Balance,
    win_prob: H256,
) -> Outcome {
    let id = channel_id(host, caller, counterparty);
    let nonce = nonce_of(host, signature);
    let message = ticket_message(host, pre_image, s_a, s_b, amount, win_prob);
    if v.nonces.contains(nonce) {
        Err(Error::NonceReused)
    } else if !v.registered(caller) {
        Err(Error::NotInitialized)
    } else if host.spec_hash(pre_image@) != v.states[caller].secret {
        Err(Error::InvalidPreimage)
    } else if !v.registered(counterparty) {
        Err(Error::NotInitialized)
    } else {
        match redeemable(v.channel(id), host.spec_now()) {
            Err(e) => Err(e),
            Ok(b) => match shifted(b, party_a(caller, counterparty), amount) {
                Err(e) => Err(e),
                Ok(nb) => if !is_win(host, message, win_prob) {
                    Err(Error::NotAWinningTicket)
                } else if !host.spec_verify(signature, message, pubkey_of(v, counterparty)) {
                    Err(Error::InvalidSignature)
                } else {
                    Ok((
                        v.consume(nonce).set_state(
                            caller,
                            State { secret: pre_image, pubkey: v.states[caller].pubkey },
                        ).set_channel(id, with_balance(v.channel(id), nb)),
                        Seq::empty(),
                    ))
                },
            },
        }
    }
}

/// The deadline of a settlement that begins now, if the clock leaves room for it.
pub open spec fn deadline_from(now: u64) -> Option<u64> {
    if now + PENDING_WINDOW > u64::MAX {
        None
    } else {
        Some((now + PENDING_WINDOW) as u64)
    }
}

/// Begins settlement of an active channel without the counterparty.
pub open spec fn initiate_settlement_step<H: Trait>(
    v: LedgerView,
    host: H,
    caller: AccountId,
    counterparty: AccountId,
) -> Outcome {
    let id = channel_id(host, caller, counterparty);
    if caller == counterparty {
        Err(Error::SameParty)
    } else {
        match v.channel(id) {
            Channel::Uninitialized => Err(Error::ChannelNotFound),
            Channel::Active(b) => match deadline_from(host.spec_now()) {
                None => Err(Error::IntegerOverflow),
                Some(deadline) => Ok((
                    v.set_channel(id, Channel::PendingSettlement(b, deadline)),
                    seq![Effect::InitiatedSettlement(id, b.balance_a)],
                )),
            },
            _ => Err(Error::InvalidChannelState),
        }
    }
}

/// Begins settlement on a balance that the counterparty signed before, which
/// must be the channel's current balance.
pub open spec fn initiate_recovery_step<H: Trait>(
    v: LedgerView,
    host: H,
    caller: AccountId,
    counterparty: AccountId,
    signature: Signature,
    claimed: ChannelBalance,
) -> Outcome {
    let id = channel_id(host, caller, counterparty);
    let nonce = nonce_of(host, signature);
    if v.nonces.contains(nonce) {
        Err(Error::NonceReused)
    } else if caller == counterparty {
        Err(Error::SameParty)
    } else if !v.registered(caller) || !v.registered(counterparty) {
        Err(Error::NotInitialized)
    } else {
        match v.channel(id) {
            Channel::Uninitialized => Err(Error::ChannelNotFound),
            Channel::PendingSettlement(_, _) => Err(Error::InvalidChannelState),
            Channel::Funded(b) | Channel::Active(b) => {
                if b != claimed {
                    Err(Error::InvalidChannelState)
                } else if !host.spec_verify(signature, recovery_bytes(id, claimed), pubkey_of(v, counterparty)) {
                    Err(Error::InvalidSignature)
                } else {
                    match deadline_from(host.spec_now()) {
                        None => Err(Error::IntegerOverflow),
                        Some(deadline) => Ok((
                            v.set_channel(id, Channel::PendingSettlement(b, deadline)).consume(nonce),
                            seq![Effect::InitiatedSettlement(id, b.balance_a)],
                        )),
                    }
                }
            },
        }
    }
}

/// Closes a channel whose settlement deadline has come, releasing party A's
/// share to party A and the rest to the other party.
pub open spec fn withdraw_step<H: Trait>(
    v: LedgerView,
    host: H,
    caller: AccountId,
    counterparty: AccountId,
) -> Outcome {
    let id = channel_id(host, caller, counterparty);
    if caller == counterparty {
        Err(Error::SameParty)
    } else if !v.registered(caller) || !v.registered(counterparty) {
        Err(Error::NotInitialized)
    } else {
        match v.channel(id) {
            Channel::Uninitialized => Err(Error::ChannelNotFound),
            Channel::PendingSettlement(b, deadline) => {
                if host.spec_now() < deadline {
                    Err(Error::InvalidChannelState)
                } else if b.balance_a > b.balance {
                    Err(Error::IntegerOverflow)
                } else {
                    let rest = (b.balance - b.balance_a) as u128;
                    let effects = if party_a(caller, counterparty) {
                        seq![Effect::Unreserve(caller, b.balance_a), Effect::Unreserve(counterparty, rest)]
                    } else {
                        seq![Effect::Unreserve(caller, rest), Effect::Unreserve(counterparty, b.balance_a)]
                    };
                    Ok((v.remove_channel(id), effects))
                }
            },
            _ => Err(Error::InvalidChannelState),
        }
    }
}

} // verus!
