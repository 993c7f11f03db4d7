//! Properties of the ledger that relate several operations or hold of every
//! state, proved over the operations' models.

use vstd::prelude::*;
use crate::bytes::{be_value, lemma_order_is_numeric, seq_lt};
use crate::host::Trait;
use crate::ledger::{
    channel_id, create_funded_step, create_step, init_step, initiate_recovery_step,
    initiate_settlement_step, is_win, party_a, redeem_ticket_step, redeemable, set_active_step,
    set_secret_step, shifted, ticket_message, withdraw_step, nonce_of, pubkey_of, LedgerView, Outcome,
};
use crate::types::{AccountId, Balance, Channel, ChannelBalance, Effect, Error, H256, Public, Signature};

verus! {

broadcast use vstd::array::group_array_axioms;

/// Two distinct 32-byte values are ordered one way or the other, never both.
pub proof fn lemma_order_total(a: [u8; 32], b: [u8; 32])
    requires
        a != b,
    ensures
        seq_lt(a@, b@) != seq_lt(b@, a@),
{
    if forall|i: int| 0 <= i < 32 ==> a@[i] == b@[i] {
        assert(a =~= b);
    }
    let k = choose|i: int| 0 <= i < 32 && a@[i] != b@[i];
    let first = choose_first_difference(a@, b@, k);
    if seq_lt(a@, b@) && seq_lt(b@, a@) {
        let i = choose|i: int|
            0 <= i < a@.len() && i < b@.len() && a@[i] < b@[i] && (forall|j: int|
                0 <= j < i ==> #[trigger] a@[j] == b@[j]);
        let j = choose|j: int|
            0 <= j < b@.len() && j < a@.len() && b@[j] < a@[j] && (forall|l: int|
                0 <= l < j ==> #[trigger] b@[l] == a@[l]);
        if i < j {
            assert(b@[i] == a@[i]);
        } else if j < i {
            assert(a@[j] == b@[j]);
        }
    }
    if a@[first] < b@[first] {
        assert(seq_lt(a@, b@));
    } else {
        assert(seq_lt(b@, a@));
    }
}

/// The first position at which two sequences differ, given that some
/// position `k` does.
proof fn choose_first_difference(a: Seq<u8>, b: Seq<u8>, k: int) -> (i: int)
    requires
        0 <= k < a.len(),
        k < b.len(),
        a[k] != b[k],
    ensures
        0 <= i <= k,
        a[i] != b[i],
        forall|j: int| 0 <= j < i ==> #[trigger] a[j] == b[j],
    decreases k,
{
    if forall|j: int| 0 <= j < k ==> #[trigger] a[j] == b[j] {
        k
    } else {
        let j = choose|j: int| 0 <= j < k && #[trigger] a[j] != b[j];
        choose_first_difference(a, b, j)
    }
}

/// Both parties of a channel name the same channel, and exactly one of two
/// distinct identities is party A.
pub proof fn lemma_channel_id_symmetric<H: Trait>(host: H, a: AccountId, b: AccountId)
    requires
        a != b,
    ensures
        channel_id(host, a, b) == channel_id(host, b, a),
        party_a(a, b) != party_a(b, a),
{
    lemma_order_total(a, b);
}

/// An operation's outcome, if it succeeded, leaves every channel with party
/// A's share between zero and the total, and keeps every consumed signature.
pub open spec fn keeps_invariant(v: LedgerView, o: Outcome) -> bool {
    match o {
        Ok((w, _)) => w.wf() && v.nonces.subset_of(w.nonces),
        Err(_) => true,
    }
}

/// Every operation, applied to a ledger whose channels all hold
/// `0 <= balance_a <= total`, leaves a ledger where this still holds, and no
/// consumed signature is ever forgotten.
pub proof fn lemma_operations_keep_invariant<H: Trait>(
    v: LedgerView,
    host: H,
    caller: AccountId,
    counterparty: AccountId,
    signature: Signature,
    funds: Balance,
    pubkey: Public,
    secret: H256,
    pre_image: H256,
    s_a: H256,
    s_b: H256,
    win_prob: H256,
    claimed: ChannelBalance,
)
    requires
        v.wf(),
    ensures
        keeps_invariant(v, init_step(v, caller, pubkey, secret)),
        keeps_invariant(v, set_secret_step(v, caller, secret)),
        keeps_invariant(v, create_step(v, host, caller, funds, counterparty)),
        keeps_invariant(v, set_active_step(v, host, caller, counterparty, signature)),
        keeps_invariant(v, create_funded_step(v, host, caller, counterparty, signature, funds)),
        keeps_invariant(
            v,
            redeem_ticket_step(v, host, caller, signature, counterparty, pre_image, s_a, s_b, funds, win_prob),
        ),
        keeps_invariant(v, initiate_settlement_step(v, host, caller, counterparty)),
        keeps_invariant(v, initiate_recovery_step(v, host, caller, counterparty, signature, claimed)),
        keeps_invariant(v, withdraw_step(v, host, caller, counterparty)),
{
    let id = channel_id(host, caller, counterparty);
    assert(v.channels.contains_key(id) ==> v.channels[id].wf());
    assert forall|w: LedgerView, k: AccountId, c: Channel|
        c.wf() && c != Channel::Uninitialized && w.wf() implies #[trigger] w.set_channel(k, c).wf() by {
        assert forall|q: AccountId| #[trigger] w.set_channel(k, c).channels.contains_key(q) implies w.set_channel(k, c).channels[q].wf()
            && w.set_channel(k, c).channels[q] != Channel::Uninitialized by {
            if q != k {
                assert(w.channels.contains_key(q));
            }
        }
    }
    assert forall|k: AccountId| #[trigger] v.remove_channel(k).wf() by {
        assert forall|q: AccountId| #[trigger] v.remove_channel(k).channels.contains_key(q) implies v.remove_channel(k).channels[q].wf()
            && v.remove_channel(k).channels[q] != Channel::Uninitialized by {
            assert(v.channels.contains_key(q));
        }
    }
}

/// A deposit into a channel that was just created by a first deposit grows
/// the total by exactly the new amount, and party A's share by the amount
/// that party A deposited; the total never shrinks.
pub proof fn lemma_second_deposit_grows_total<H: Trait>(
    v: LedgerView,
    host: H,
    first: AccountId,
    first_funds: Balance,
    second: AccountId,
    second_funds: Balance,
    other: AccountId,
)
    requires
        v.channel(channel_id(host, first, other)) == Channel::Uninitialized,
        create_step(v, host, first, first_funds, other) is Ok,
        second == first || second == other,
        create_step(
            create_step(v, host, first, first_funds, other)->Ok_0.0,
            host,
            second,
            second_funds,
            if second == first { other } else { first },
        ) is Ok,
    ensures
        ({
            let id = channel_id(host, first, other);
            let w = create_step(v, host, first, first_funds, other)->Ok_0.0;
            let x = create_step(w, host, second, second_funds, if second == first { other } else { first })->Ok_0.0;
            let share_a = (if party_a(first, other) { first_funds as int } else { 0 }) + (if party_a(
                second,
                if second == first { other } else { first },
            ) {
                second_funds as int
            } else {
                0
            });
            &&& w.channel(id) == Channel::Funded(
                ChannelBalance { balance: first_funds, balance_a: if party_a(first, other) { first_funds } else { 0 } },
            )
            &&& x.channel(id) is Funded
            &&& x.channel(id)->Funded_0.balance == first_funds + second_funds
            &&& x.channel(id)->Funded_0.balance > w.channel(id)->Funded_0.balance
            &&& x.channel(id)->Funded_0.balance_a == share_a
        }),
{
    lemma_channel_id_symmetric(host, first, other);
}

/// What every operation that accepts a signature answers once that
/// signature has been accepted: `NonceReused`, whatever the other arguments.
pub open spec fn replay_rejected<H: Trait>(
    w: LedgerView,
    host: H,
    signature: Signature,
    caller: AccountId,
    counterparty: AccountId,
    funds: Balance,
    pre_image: H256,
    s_a: H256,
    s_b: H256,
    win_prob: H256,
    claimed: ChannelBalance,
) -> bool {
    &&& set_active_step(w, host, caller, counterparty, signature) == Err::<(LedgerView, Seq<Effect>), Error>(Error::NonceReused)
    &&& create_funded_step(w, host, caller, counterparty, signature, funds) == Err::<(LedgerView, Seq<Effect>), Error>(Error::NonceReused)
    &&& redeem_ticket_step(w, host, caller, signature, counterparty, pre_image, s_a, s_b, funds, win_prob)
        == Err::<(LedgerView, Seq<Effect>), Error>(Error::NonceReused)
    &&& initiate_recovery_step(w, host, caller, counterparty, signature, claimed) == Err::<(LedgerView, Seq<Effect>), Error>(Error::NonceReused)
}

/// Once an operation has accepted a signature, resubmitting that signature
/// to any operation that takes one fails with `NonceReused` (and, as every
/// rejected call, changes nothing).
pub proof fn lemma_accepted_signature_not_replayable<H: Trait>(
    v: LedgerView,
    host: H,
    signature: Signature,
    caller: AccountId,
    counterparty: AccountId,
    funds: Balance,
    pre_image: H256,
    s_a: H256,
    s_b: H256,
    win_prob: H256,
    claimed: ChannelBalance,
    caller2: AccountId,
    counterparty2: AccountId,
    funds2: Balance,
    pre_image2: H256,
    s_a2: H256,
    s_b2: H256,
    win_prob2: H256,
    claimed2: ChannelBalance,
)
    ensures
        set_active_step(v, host, caller, counterparty, signature) is Ok ==> replay_rejected(
            set_active_step(v, host, caller, counterparty, signature)->Ok_0.0,
            host, signature, caller2, counterparty2, funds2, pre_image2, s_a2, s_b2, win_prob2, claimed2,
        ),
        create_funded_step(v, host, caller, counterparty, signature, funds) is Ok ==> replay_rejected(
            create_funded_step(v, host, caller, counterparty, signature, funds)->Ok_0.0,
            host, signature, caller2, counterparty2, funds2, pre_image2, s_a2, s_b2, win_prob2, claimed2,
        ),
        redeem_ticket_step(v, host, caller, signature, counterparty, pre_image, s_a, s_b, funds, win_prob) is Ok
            ==> replay_rejected(
            redeem_ticket_step(v, host, caller, signature, counterparty, pre_image, s_a, s_b, funds, win_prob)->Ok_0.0,
            host, signature, caller2, counterparty2, funds2, pre_image2, s_a2, s_b2, win_prob2, claimed2,
        ),
        initiate_recovery_step(v, host, caller, counterparty, signature, claimed) is Ok ==> replay_rejected(
            initiate_recovery_step(v, host, caller, counterparty, signature, claimed)->Ok_0.0,
            host, signature, caller2, counterparty2, funds2, pre_image2, s_a2, s_b2, win_prob2, claimed2,
        ),
{
}

/// After `caller` redeems a ticket revealing `pre_image`, a second redemption
/// by `caller` that reveals the same value fails with `InvalidPreimage`,
/// unless its signature was already used. This needs `pre_image` not to be
/// its own hash.
pub proof fn lemma_revealed_preimage_retired<H: Trait>(
    v: LedgerView,
    host: H,
    caller: AccountId,
    signature: Signature,
    counterparty: AccountId,
    pre_image: H256,
    s_a: H256,
    s_b: H256,
    amount: Balance,
    win_prob: H256,
    signature2: Signature,
    counterparty2: AccountId,
    s_a2: H256,
    s_b2: H256,
    amount2: Balance,
    win_prob2: H256,
)
    requires
        redeem_ticket_step(v, host, caller, signature, counterparty, pre_image, s_a, s_b, amount, win_prob) is Ok,
        host.spec_hash(pre_image@) != pre_image,
        !redeem_ticket_step(v, host, caller, signature, counterparty, pre_image, s_a, s_b, amount, win_prob)->Ok_0.0.nonces.contains(
            nonce_of(host, signature2),
        ),
    ensures
        redeem_ticket_step(
            redeem_ticket_step(v, host, caller, signature, counterparty, pre_image, s_a, s_b, amount, win_prob)->Ok_0.0,
            host, caller, signature2, counterparty2, pre_image, s_a2, s_b2, amount2, win_prob2,
        ) == Err::<(LedgerView, Seq<Effect>), Error>(Error::InvalidPreimage),
{
}

/// Once a ticket passes every check that comes before the win test (fresh
/// signature, valid pre-image, registered parties, a redeemable channel with
/// room for the amount), whether it is redeemed is decided by the win test
/// and the signature alone: a losing ticket fails with `NotAWinningTicket`,
/// and a winning one with a valid signature succeeds.
pub proof fn lemma_win_filter<H: Trait>(
    v: LedgerView,
    host: H,
    caller: AccountId,
    signature: Signature,
    counterparty: AccountId,
    pre_image: H256,
    s_a: H256,
    s_b: H256,
    amount: Balance,
    win_prob: H256,
)
    requires
        !v.nonces.contains(nonce_of(host, signature)),
        v.registered(caller),
        v.registered(counterparty),
        host.spec_hash(pre_image@) == v.states[caller].secret,
        redeemable(v.channel(channel_id(host, caller, counterparty)), host.spec_now()) is Ok,
        shifted(
            redeemable(v.channel(channel_id(host, caller, counterparty)), host.spec_now())->Ok_0,
            party_a(caller, counterparty),
            amount,
        ) is Ok,
    ensures
        !is_win(host, ticket_message(host, pre_image, s_a, s_b, amount, win_prob), win_prob)
            ==> redeem_ticket_step(v, host, caller, signature, counterparty, pre_image, s_a, s_b, amount, win_prob)
            == Err::<(LedgerView, Seq<Effect>), Error>(Error::NotAWinningTicket),
        is_win(host, ticket_message(host, pre_image, s_a, s_b, amount, win_prob), win_prob) <==> be_value(
            host.spec_hash(ticket_message(host, pre_image, s_a, s_b, amount, win_prob))@,
        ) < be_value(win_prob@),
        is_win(host, ticket_message(host, pre_image, s_a, s_b, amount, win_prob), win_prob)
            && host.spec_verify(
            signature,
            ticket_message(host, pre_image, s_a, s_b, amount, win_prob),
            pubkey_of(v, counterparty),
        ) ==> redeem_ticket_step(v, host, caller, signature, counterparty, pre_image, s_a, s_b, amount, win_prob) is Ok,
{
    let hashed = host.spec_hash(ticket_message(host, pre_image, s_a, s_b, amount, win_prob));
    lemma_order_is_numeric(hashed@, win_prob@);
}

/// `withdraw` on a pending settlement between two registered parties is
/// rejected before the deadline and succeeds from the deadline on, removing
/// the channel.
pub proof fn lemma_withdraw_timing<H: Trait>(
    v: LedgerView,
    host: H,
    caller: AccountId,
    counterparty: AccountId,
    b: ChannelBalance,
    deadline: u64,
)
    requires
        v.wf(),
        caller != counterparty,
        v.registered(caller),
        v.registered(counterparty),
        v.channel(channel_id(host, caller, counterparty)) == Channel::PendingSettlement(b, deadline),
    ensures
        host.spec_now() < deadline ==> withdraw_step(v, host, caller, counterparty)
            == Err::<(LedgerView, Seq<Effect>), Error>(Error::InvalidChannelState),
        host.spec_now() >= deadline ==> withdraw_step(v, host, caller, counterparty) is Ok
            && withdraw_step(v, host, caller, counterparty)->Ok_0.0.channel(channel_id(host, caller, counterparty))
            == Channel::Uninitialized,
{
    let id = channel_id(host, caller, counterparty);
    assert(v.channels.contains_key(id));
}

} // verus!
