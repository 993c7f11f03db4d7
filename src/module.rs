//! The ledger itself: the channel table, the party registry and the set of
//! consumed signatures, with the operations that change them.

use vstd::prelude::*;
use crate::bytes::{be_value, bytes_eq, bytes_lt, lemma_order_is_numeric, seq_lt};
use crate::codec::{encode_channel, encode_pair, encode_recovery, encode_ticket};
use crate::host::Trait;
use crate::ledger::{
    applied, channel_id, create_funded_step, create_step, init_step, initiate_recovery_step,
    initiate_settlement_step, party_a, redeem_ticket_step, set_active_step, set_secret_step,
    withdraw_step, LedgerView, PENDING_WINDOW,
};
use crate::table::Table;
use crate::types::{
    AccountId, Balance, Channel, ChannelBalance, ChannelId, Effect, Error, H256, Public, Signature,
    State,
};

verus! {

/// The ledger's state, owned by one context and handed to each operation.
pub struct Module {
    channels: Table<Channel>,
    states: Table<State>,
    nonces: Table<bool>,
}

proof fn lemma_set_channel_wf(v: LedgerView, id: ChannelId, c: Channel)
    requires
        v.wf(),
        c.wf(),
        c != Channel::Uninitialized,
    ensures
        v.set_channel(id, c).wf(),
{
    let w = v.set_channel(id, c);
    assert forall|k: ChannelId| #[trigger] w.channels.contains_key(k) implies w.channels[k].wf()
        && w.channels[k] != Channel::Uninitialized by {
        if k != id {
            assert(v.channels.contains_key(k));
        }
    }
}

proof fn lemma_remove_channel_wf(v: LedgerView, id: ChannelId)
    requires
        v.wf(),
    ensures
        v.remove_channel(id).wf(),
{
    let w = v.remove_channel(id);
    assert forall|k: ChannelId| #[trigger] w.channels.contains_key(k) implies w.channels[k].wf()
        && w.channels[k] != Channel::Uninitialized by {
        assert(v.channels.contains_key(k));
    }
}

impl Module {
    /// The ledger that the tables hold.
    pub closed spec fn view(&self) -> LedgerView {
        LedgerView { channels: self.channels@, states: self.states@, nonces: self.nonces@.dom() }
    }

    /// The tables are well formed and every stored channel balance is within bounds.
    pub closed spec fn wf(&self) -> bool {
        &&& self.channels.wf()
        &&& self.states.wf()
        &&& self.nonces.wf()
        &&& self@.wf()
    }

    /// In a ledger that the operations have kept well formed, every channel
    /// holds `0 <= balance_a <= balance`.
    pub proof fn lemma_balances_bounded(&self, id: ChannelId)
        requires
            self.wf(),
        ensures
            self@.wf(),
            self@.channel(id).wf(),
    {
    }

    /// An empty ledger.
    pub fn new() -> (r: Module)
        ensures
            r.wf(),
            r@ == LedgerView::empty(),
    {
        let r = Module { channels: Table::new(), states: Table::new(), nonces: Table::new() };
        assert(r@.nonces =~= Set::<H256>::empty());
        r
    }

    /// Whether `a` is party A of a channel with `b`: the lower-ordered identity.
    pub fn is_party_a(a: &AccountId, b: &AccountId) -> (r: bool)
        ensures
            r == party_a(*a, *b),
    {
        bytes_lt(a, b)
    }

    /// Whether the first hash, read as a big-endian number, is below the second.
    pub fn cmp_hash(first_hash: &H256, second_hash: &H256) -> (r: bool)
        ensures
            r == seq_lt(first_hash@, second_hash@),
            r == (be_value(first_hash@) < be_value(second_hash@)),
    {
        proof {
            lemma_order_is_numeric(first_hash@, second_hash@);
        }
        bytes_lt(first_hash, second_hash)
    }

    /// The identifier of the channel between `a` and `b`, the same whichever asks.
    pub fn get_id<H: Trait>(host: &H, a: &AccountId, b: &AccountId) -> (r: ChannelId)
        ensures
            r == channel_id(*host, *a, *b),
    {
        if Self::is_party_a(a, b) {
            let pair = encode_pair(a, b);
            host.hash(pair.as_slice())
        } else {
            let pair = encode_pair(b, a);
            host.hash(pair.as_slice())
        }
    }

    /// The channel stored under `id`, uninitialized if there is none.
    pub fn channels(&self, id: &ChannelId) -> (r: Channel)
        requires
            self.wf(),
        ensures
            r == self@.channel(*id),
    {
        match self.channels.get(id) {
            Some(c) => c,
            None => Channel::Uninitialized,
        }
    }

    /// The registry's record of `who`, if it has registered.
    pub fn state(&self, who: &AccountId) -> (r: Option<State>)
        requires
            self.wf(),
        ensures
            r == (if self@.registered(*who) { Some(self@.states[*who]) } else { None::<State> }),
    {
        self.states.get(who)
    }

    /// Whether a signature with this hash has been accepted.
    pub fn nonce_exists(&self, nonce: &H256) -> (r: bool)
        requires
            self.wf(),
        ensures
            r == self@.nonces.contains(*nonce),
    {
        self.nonces.contains(nonce)
    }

    /// Records an accepted signature.
    fn consume_nonce(&mut self, nonce: H256)
        requires
            old(self).wf(),
        ensures
            final(self).wf(),
            final(self)@ == old(self)@.consume(nonce),
    {
        self.nonces.insert(nonce, true);
        assert(self.nonces@.dom() =~= old(self).nonces@.dom().insert(nonce));
    }

    /// Stores a channel.
    fn put_channel(&mut self, id: ChannelId, c: Channel)
        requires
            old(self).wf(),
            c.wf(),
            c != Channel::Uninitialized,
        ensures
            final(self).wf(),
            final(self)@ == old(self)@.set_channel(id, c),
    {
        proof {
            lemma_set_channel_wf(self@, id, c);
        }
        self.channels.insert(id, c);
    }

    /// Stores a party's record.
    fn put_state(&mut self, who: AccountId, s: State)
        requires
            old(self).wf(),
        ensures
            final(self).wf(),
            final(self)@ == old(self)@.set_state(who, s),
    {
        self.states.insert(who, s);
    }

    /// Registers the caller with its public key and the head of its hash chain.
    /// Each identity registers once.
    pub fn init(&mut self, caller: AccountId, pubkey: Public, hash: H256) -> (r: Result<Vec<Effect>, Error>)
        requires
            old(self).wf(),
        ensures
            final(self).wf(),
            applied(r, old(self)@, final(self)@, init_step(old(self)@, caller, pubkey, hash)),
    {
        if self.states.contains(&caller) {
            return Err(Error::AlreadyInitialized);
        }
        self.put_state(caller, State { secret: hash, pubkey });
        Ok(Vec::new())
    }

    /// Replaces the head of the caller's hash chain with a different value.
    pub fn set_secret(&mut self, caller: AccountId, hash: H256) -> (r: Result<Vec<Effect>, Error>)
        requires
            old(self).wf(),
        ensures
            final(self).wf(),
            applied(r, old(self)@, final(self)@, set_secret_step(old(self)@, caller, hash)),
    {
        let current = match self.states.get(&caller) {
            Some(s) => s,
            None => return Err(Error::NotInitialized),
        };
        if bytes_eq(&current.secret, &hash) {
            return Err(Error::NoOpUpdate);
        }
        self.put_state(caller, State { secret: hash, pubkey: current.pubkey });
        Ok(Vec::new())
    }
    /// Deposits `funds` of the caller into its channel with `counterparty`,
    /// creating the channel as funded if it does not exist. On success the
    /// host reserves `funds` from the caller.
    pub fn create<H: Trait>(&mut self, host: &H, caller: AccountId, funds: Balance, counterparty: AccountId) -> (r: Result<Vec<Effect>, Error>)
        requires
            old(self).wf(),
        ensures
            final(self).wf(),
            applied(r, old(self)@, final(self)@, create_step(old(self)@, *host, caller, funds, counterparty)),
    {
        if bytes_eq(&caller, &counterparty) {
            return Err(Error::SameParty);
        }
        if funds == 0 {
            return Err(Error::NonPositiveAmount);
        }
        if !self.states.contains(&caller) || !self.states.contains(&counterparty) {
            return Err(Error::NotInitialized);
        }
        if !host.can_reserve(&caller, funds) {
            return Err(Error::InsufficientFunds);
        }
        let id = Self::get_id(host, &caller, &counterparty);
        let is_a = Self::is_party_a(&caller, &counterparty);
        let updated = match self.channels(&id) {
            Channel::Uninitialized => Channel::Funded(
                ChannelBalance { balance: funds, balance_a: if is_a { funds } else { 0 } },
            ),
            Channel::Funded(b) => {
                if funds > u128::MAX - b.balance || (is_a && funds > u128::MAX - b.balance_a) {
                    return Err(Error::IntegerOverflow);
                }
                Channel::Funded(
                    ChannelBalance {
                        balance: b.balance + funds,
                        balance_a: if is_a { b.balance_a + funds } else { b.balance_a },
                    },
                )
            },
            _ => return Err(Error::InvalidChannelState),
        };
        proof {
            assert(self@.channels.contains_key(id) ==> self@.channels[id].wf());
        }
        self.put_channel(id, updated);
        let mut effects: Vec<Effect> = Vec::new();
        effects.push(Effect::Reserve(caller, funds));
        assert(effects@ =~= seq![Effect::Reserve(caller, funds)]);
        Ok(effects)
    }

    /// Redeems a winning ticket signed by `counterparty`, moving `amount` of
    /// the channel's balance to the caller. The caller reveals `pre_image`, the
    /// next link of its hash chain, which becomes its new secret; the ticket's
    /// challenge is the hash of the hashes of `s_a` and `s_b`.
    pub fn redeem_ticket<H: Trait>(
        &mut self,
        host: &H,
        caller: AccountId,
        signature: Signature,
        counterparty: AccountId,
        pre_image: H256,
        s_a: H256,
        s_b: H256,
        amount: Balance,
        win_prob: H256,
    ) -> (r: Result<Vec<Effect>, Error>)
        requires
            old(self).wf(),
        ensures
            final(self).wf(),
            applied(
                r,
                old(self)@,
                final(self)@,
                redeem_ticket_step(old(self)@, *host, caller, signature, counterparty, pre_image, s_a, s_b, amount, win_prob),
            ),
    {
        let nonce = host.hash(&signature);
        if self.nonces.contains(&nonce) {
            return Err(Error::NonceReused);
        }
        let own = match self.states.get(&caller) {
            Some(s) => s,
            None => return Err(Error::NotInitialized),
        };
        let revealed = host.hash(&pre_image);
        if !bytes_eq(&revealed, &own.secret) {
            return Err(Error::InvalidPreimage);
        }
        let other = match self.states.get(&counterparty) {
            Some(s) => s,
            None => return Err(Error::NotInitialized),
        };
        let id = Self::get_id(host, &caller, &counterparty);
        let channel = self.channels(&id);
        let now = host.now();
        let b = match channel {
            Channel::Uninitialized => return Err(Error::ChannelNotFound),
            Channel::Active(b) => b,
            Channel::PendingSettlement(b, deadline) => {
                if now > deadline {
                    return Err(Error::WindowExpired);
                }
                b
            },
            Channel::Funded(_) => return Err(Error::InvalidChannelState),
        };
        let updated_balance = if Self::is_party_a(&caller, &counterparty) {
            if amount > u128::MAX - b.balance_a {
                return Err(Error::IntegerOverflow);
            }
            if b.balance_a + amount > b.balance {
                return Err(Error::BalanceExceeded);
            }
            ChannelBalance { balance: b.balance, balance_a: b.balance_a + amount }
        } else {
            if amount > b.balance_a {
                return Err(Error::IntegerOverflow);
            }
            ChannelBalance { balance: b.balance, balance_a: b.balance_a - amount }
        };
        let hashed_s_a = host.hash(&s_a);
        let hashed_s_b = host.hash(&s_b);
        let shares = encode_pair(&hashed_s_a, &hashed_s_b);
        let challenge = host.hash(shares.as_slice());
        let ticket = encode_ticket(&challenge, &pre_image, amount, &win_prob);
        let hashed_ticket = host.hash(ticket.as_slice());
        if !Self::cmp_hash(&hashed_ticket, &win_prob) {
            return Err(Error::NotAWinningTicket);
        }
        if !host.verify(&signature, ticket.as_slice(), &other.pubkey) {
            return Err(Error::InvalidSignature);
        }
        let updated = match channel {
            Channel::PendingSettlement(_, deadline) => Channel::PendingSettlement(updated_balance, deadline),
            _ => Channel::Active(updated_balance),
        };
        self.consume_nonce(nonce);
        self.put_state(caller, State { secret: pre_image, pubkey: own.pubkey });
        self.put_channel(id, updated);
        Ok(Vec::new())
    }
    /// Activates the funded channel between the caller and `counterparty`,
    /// given the counterparty's signature over the channel as it stands.
    pub fn set_active<H: Trait>(&mut self, host: &H, caller: AccountId, counterparty: AccountId, signature: Signature) -> (r: Result<Vec<Effect>, Error>)
        requires
            old(self).wf(),
        ensures
            final(self).wf(),
            applied(r, old(self)@, final(self)@, set_active_step(old(self)@, *host, caller, counterparty, signature)),
    {
        let nonce = host.hash(&signature);
        if self.nonces.contains(&nonce) {
            return Err(Error::NonceReused);
        }
        let other = match self.states.get(&counterparty) {
            Some(s) => s,
            None => return Err(Error::NotInitialized),
        };
        let id = Self::get_id(host, &caller, &counterparty);
        let channel = self.channels(&id);
        match channel {
            Channel::Uninitialized => Err(Error::ChannelNotFound),
            Channel::Funded(b) => {
                let message = encode_channel(&channel);
                if !host.verify(&signature, message.as_slice(), &other.pubkey) {
                    return Err(Error::InvalidSignature);
                }
                proof {
                    assert(self@.channels.contains_key(id));
                }
                self.put_channel(id, Channel::Active(b));
                self.consume_nonce(nonce);
                let mut effects: Vec<Effect> = Vec::new();
                effects.push(Effect::Opened(id, b.balance, b.balance_a));
                assert(effects@ =~= seq![Effect::Opened(id, b.balance, b.balance_a)]);
                Ok(effects)
            },
            _ => Err(Error::InvalidChannelState),
        }
    }

    /// Opens an active channel in one step: the caller and `counterparty` each
    /// deposit `funds`, and the counterparty's signature covers the resulting
    /// channel. On success the host reserves `funds` from both parties.
    pub fn create_funded<H: Trait>(
        &mut self,
        host: &H,
        caller: AccountId,
        counterparty: AccountId,
        signature: Signature,
        funds: Balance,
    ) -> (r: Result<Vec<Effect>, Error>)
        requires
            old(self).wf(),
        ensures
            final(self).wf(),
            applied(r, old(self)@, final(self)@, create_funded_step(old(self)@, *host, caller, counterparty, signature, funds)),
    {
        let nonce = host.hash(&signature);
        if self.nonces.contains(&nonce) {
            return Err(Error::NonceReused);
        }
        if bytes_eq(&caller, &counterparty) {
            return Err(Error::SameParty);
        }
        if funds == 0 {
            return Err(Error::NonPositiveAmount);
        }
        let other = match self.states.get(&counterparty) {
            Some(s) => s,
            None => return Err(Error::NotInitialized),
        };
        if funds > u128::MAX - funds {
            return Err(Error::IntegerOverflow);
        }
        let b = ChannelBalance { balance: funds + funds, balance_a: funds };
        let id = Self::get_id(host, &caller, &counterparty);
        if self.channels(&id) != Channel::Uninitialized {
            return Err(Error::InvalidChannelState);
        }
        let channel = Channel::Active(b);
        let message = encode_channel(&channel);
        if !host.verify(&signature, message.as_slice(), &other.pubkey) {
            return Err(Error::InvalidSignature);
        }
        if !host.can_reserve(&caller, funds) || !host.can_reserve(&counterparty, funds) {
            return Err(Error::InsufficientFunds);
        }
        self.put_channel(id, channel);
        self.consume_nonce(nonce);
        let mut effects: Vec<Effect> = Vec::new();
        effects.push(Effect::Reserve(caller, funds));
        effects.push(Effect::Reserve(counterparty, funds));
        effects.push(Effect::Opened(id, b.balance, b.balance_a));
        assert(effects@ =~= seq![
            Effect::Reserve(caller, funds),
            Effect::Reserve(counterparty, funds),
            Effect::Opened(id, b.balance, b.balance_a),
        ]);
        Ok(effects)
    }

    /// The deadline of a settlement that begins at `now`.
    fn deadline_after(now: u64) -> (r: Option<u64>)
        ensures
            r == crate::ledger::deadline_from(now),
    {
        if now > u64::MAX - PENDING_WINDOW {
            None
        } else {
            Some(now + PENDING_WINDOW)
        }
    }

    /// Begins settlement of the active channel between the caller and
    /// `counterparty`, without the counterparty's consent; the channel stays
    /// open to tickets until the deadline.
    pub fn initiate_settlement<H: Trait>(&mut self, host: &H, caller: AccountId, counterparty: AccountId) -> (r: Result<Vec<Effect>, Error>)
        requires
            old(self).wf(),
        ensures
            final(self).wf(),
            applied(r, old(self)@, final(self)@, initiate_settlement_step(old(self)@, *host, caller, counterparty)),
    {
        if bytes_eq(&caller, &counterparty) {
            return Err(Error::SameParty);
        }
        let id = Self::get_id(host, &caller, &counterparty);
        match self.channels(&id) {
            Channel::Uninitialized => Err(Error::ChannelNotFound),
            Channel::Active(b) => {
                let deadline = match Self::deadline_after(host.now()) {
                    Some(d) => d,
                    None => return Err(Error::IntegerOverflow),
                };
                proof {
                    assert(self@.channels.contains_key(id));
                }
                self.put_channel(id, Channel::PendingSettlement(b, deadline));
                let mut effects: Vec<Effect> = Vec::new();
                effects.push(Effect::InitiatedSettlement(id, b.balance_a));
                assert(effects@ =~= seq![Effect::InitiatedSettlement(id, b.balance_a)]);
                Ok(effects)
            },
            _ => Err(Error::InvalidChannelState),
        }
    }

    /// Begins settlement on `channel_balance`, a balance that the counterparty
    /// signed before and that the channel still holds.
    pub fn initiate_recovery<H: Trait>(
        &mut self,
        host: &H,
        caller: AccountId,
        counterparty: AccountId,
        signature: Signature,
        channel_balance: ChannelBalance,
    ) -> (r: Result<Vec<Effect>, Error>)
        requires
            old(self).wf(),
        ensures
            final(self).wf(),
            applied(
                r,
                old(self)@,
                final(self)@,
                initiate_recovery_step(old(self)@, *host, caller, counterparty, signature, channel_balance),
            ),
    {
        let nonce = host.hash(&signature);
        if self.nonces.contains(&nonce) {
            return Err(Error::NonceReused);
        }
        if bytes_eq(&caller, &counterparty) {
            return Err(Error::SameParty);
        }
        if !self.states.contains(&caller) {
            return Err(Error::NotInitialized);
        }
        let other = match self.states.get(&counterparty) {
            Some(s) => s,
            None => return Err(Error::NotInitialized),
        };
        let id = Self::get_id(host, &caller, &counterparty);
        let b = match self.channels(&id) {
            Channel::Uninitialized => return Err(Error::ChannelNotFound),
            Channel::Funded(b) => b,
            Channel::Active(b) => b,
            Channel::PendingSettlement(_, _) => return Err(Error::InvalidChannelState),
        };
        if b != channel_balance {
            return Err(Error::InvalidChannelState);
        }
        let message = encode_recovery(&id, &channel_balance);
        if !host.verify(&signature, message.as_slice(), &other.pubkey) {
            return Err(Error::InvalidSignature);
        }
        let deadline = match Self::deadline_after(host.now()) {
            Some(d) => d,
            None => return Err(Error::IntegerOverflow),
        };
        proof {
            assert(self@.channels.contains_key(id));
        }
        self.put_channel(id, Channel::PendingSettlement(b, deadline));
        self.consume_nonce(nonce);
        let mut effects: Vec<Effect> = Vec::new();
        effects.push(Effect::InitiatedSettlement(id, b.balance_a));
        assert(effects@ =~= seq![Effect::InitiatedSettlement(id, b.balance_a)]);
        Ok(effects)
    }

    /// Closes the channel between the caller and `counterparty` once its
    /// settlement deadline has come: the host releases party A's share to
    /// party A and the rest to the other party, and the channel is removed.
    pub fn withdraw<H: Trait>(&mut self, host: &H, caller: AccountId, counterparty: AccountId) -> (r: Result<Vec<Effect>, Error>)
        requires
            old(self).wf(),
        ensures
            final(self).wf(),
            applied(r, old(self)@, final(self)@, withdraw_step(old(self)@, *host, caller, counterparty)),
    {
        if bytes_eq(&caller, &counterparty) {
            return Err(Error::SameParty);
        }
        if !self.states.contains(&caller) || !self.states.contains(&counterparty) {
            return Err(Error::NotInitialized);
        }
        let id = Self::get_id(host, &caller, &counterparty);
        let (b, deadline) = match self.channels(&id) {
            Channel::Uninitialized => return Err(Error::ChannelNotFound),
            Channel::PendingSettlement(b, deadline) => (b, deadline),
            _ => return Err(Error::InvalidChannelState),
        };
        if host.now() < deadline {
            return Err(Error::InvalidChannelState);
        }
        if b.balance_a > b.balance {
            return Err(Error::IntegerOverflow);
        }
        let rest = b.balance - b.balance_a;
        let mut effects: Vec<Effect> = Vec::new();
        if Self::is_party_a(&caller, &counterparty) {
            effects.push(Effect::Unreserve(caller, b.balance_a));
            effects.push(Effect::Unreserve(counterparty, rest));
            assert(effects@ =~= seq![Effect::Unreserve(caller, b.balance_a), Effect::Unreserve(counterparty, rest)]);
        } else {
            effects.push(Effect::Unreserve(caller, rest));
            effects.push(Effect::Unreserve(counterparty, b.balance_a));
            assert(effects@ =~= seq![Effect::Unreserve(caller, rest), Effect::Unreserve(counterparty, b.balance_a)]);
        }
        proof {
            lemma_remove_channel_wf(self@, id);
        }
        self.channels.remove(&id);
        Ok(effects)
    }
}

} // verus!
