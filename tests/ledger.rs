use std::collections::HashMap;

use hopr::{
    encode_channel, encode_ticket, encode_pair, encode_recovery, AccountId, Balance, Channel,
    ChannelBalance, Effect, Error, Module, Public, Signature, Trait, H256, PENDING_WINDOW,
};

/// A deterministic stand-in for the host: a toy hash, signatures made of the
/// signer's key and the hash of the message, a settable clock and a table of
/// free funds.
struct FakeHost {
    now: u64,
    free: HashMap<AccountId, Balance>,
}

fn toy_hash(data: &[u8]) -> H256 {
    let mut out = [0u8; 32];
    for lane in 0..4u64 {
        let mut h: u64 = 0xcbf29ce484222325 ^ lane.wrapping_mul(0x9e3779b97f4a7c15);
        for &byte in data {
            h ^= byte as u64;
            h = h.wrapping_mul(0x100000001b3);
        }
        h ^= data.len() as u64;
        h = h.wrapping_mul(0x100000001b3);
        for k in 0..8 {
            out[(lane as usize) * 8 + k] = (h >> (8 * k)) as u8;
        }
    }
    out
}

fn sign(key: &Public, message: &[u8]) -> Signature {
    let mut sig = [0u8; 64];
    sig[..32].copy_from_slice(key);
    sig[32..].copy_from_slice(&toy_hash(message));
    sig
}

// The `spec_*` items are the host's model: the verifier reads them, and
// nothing calls them when the program runs.
impl Trait for FakeHost {
    fn spec_hash(&self, _data: vstd::seq::Seq<u8>) -> H256 {
        unreachable!()
    }

    fn spec_verify(&self, _signature: Signature, _message: vstd::seq::Seq<u8>, _signer: Public) -> bool {
        unreachable!()
    }

    fn spec_now(&self) -> u64 {
        unreachable!()
    }

    fn spec_can_reserve(&self, _who: AccountId, _amount: Balance) -> bool {
        unreachable!()
    }

    fn hash(&self, data: &[u8]) -> H256 {
        toy_hash(data)
    }

    fn verify(&self, signature: &Signature, message: &[u8], signer: &Public) -> bool {
        *signature == sign(signer, message)
    }

    fn now(&self) -> u64 {
        self.now
    }

    fn can_reserve(&self, who: &AccountId, amount: Balance) -> bool {
        self.free.get(who).map_or(false, |f| *f >= amount)
    }
}

const PRE_IMAGE: [u8; 32] = [0u8; 32];

// Bob orders below Alice, so Bob is party A of their channel.
fn alice() -> AccountId {
    [2u8; 32]
}

fn bob() -> AccountId {
    [1u8; 32]
}

fn host() -> FakeHost {
    let mut free = HashMap::new();
    free.insert(alice(), 1u128 << 60);
    free.insert(bob(), 1u128 << 60);
    FakeHost { now: 1000, free }
}

#[test]
fn verify_init() {
    let mut m = Module::new();
    let account_id = alice();
    assert_eq!(m.init(account_id, account_id, toy_hash(&PRE_IMAGE)), Ok(vec![]));
    assert_eq!(m.init(account_id, account_id, toy_hash(&PRE_IMAGE)), Err(Error::AlreadyInitialized));
}

#[test]
fn verify_set_secret() {
    let mut m = Module::new();
    let account_id = alice();
    let first_hash = toy_hash(&PRE_IMAGE);
    let second_hash = toy_hash(&first_hash);

    assert_eq!(m.set_secret(account_id, second_hash), Err(Error::NotInitialized));
    assert_eq!(m.init(account_id, account_id, first_hash), Ok(vec![]));
    assert_eq!(m.set_secret(account_id, second_hash), Ok(vec![]));
    assert_eq!(m.set_secret(account_id, second_hash), Err(Error::NoOpUpdate));
    assert_eq!(m.state(&account_id).unwrap().secret, second_hash);
}

#[test]
fn verify_create() {
    let h = host();
    let mut m = Module::new();
    let account_id = alice();
    let account_id_counterparty = bob();

    assert_eq!(m.create(&h, account_id, 1, account_id_counterparty), Err(Error::NotInitialized));
    assert_eq!(m.create(&h, account_id_counterparty, 1, account_id), Err(Error::NotInitialized));
    assert_eq!(m.create(&h, account_id, 1, account_id), Err(Error::SameParty));
    assert_eq!(m.create(&h, account_id, 0, account_id_counterparty), Err(Error::NonPositiveAmount));

    assert!(m.init(account_id, account_id, toy_hash(&PRE_IMAGE)).is_ok());
    assert!(m.init(account_id_counterparty, account_id_counterparty, toy_hash(&PRE_IMAGE)).is_ok());

    assert_eq!(m.create(&h, account_id, 1, account_id_counterparty), Ok(vec![Effect::Reserve(account_id, 1)]));

    let channel_id = Module::get_id(&h, &account_id, &account_id_counterparty);
    assert_eq!(m.channels(&channel_id), Channel::Funded(ChannelBalance { balance: 1, balance_a: 0 }));

    assert!(m.create(&h, account_id, 1, account_id_counterparty).is_ok());
    assert_eq!(m.channels(&channel_id), Channel::Funded(ChannelBalance { balance: 2, balance_a: 0 }));

    assert!(m.create(&h, account_id_counterparty, 1, account_id).is_ok());
    assert_eq!(m.channels(&channel_id), Channel::Funded(ChannelBalance { balance: 3, balance_a: 1 }));
}

#[test]
fn channel_id_is_the_same_from_both_sides() {
    let h = host();
    let a = Module::get_id(&h, &alice(), &bob());
    let b = Module::get_id(&h, &bob(), &alice());
    assert_eq!(a, b);
    let mut lower_first = bob().to_vec();
    lower_first.extend_from_slice(&alice());
    assert_eq!(a, toy_hash(&lower_first));
}

#[test]
fn default_channel_is_uninitialized() {
    assert_eq!(Channel::default(), Channel::Uninitialized);
}

#[test]
fn create_rejects_unreservable_funds() {
    let mut h = host();
    h.free.insert(alice(), 5);
    let mut m = Module::new();
    m.init(alice(), alice(), [7u8; 32]).unwrap();
    m.init(bob(), bob(), [8u8; 32]).unwrap();
    assert_eq!(m.create(&h, alice(), 6, bob()), Err(Error::InsufficientFunds));
    assert_eq!(m.create(&h, alice(), 5, bob()), Ok(vec![Effect::Reserve(alice(), 5)]));
}

#[test]
fn create_overflow_is_rejected_and_changes_nothing() {
    let mut h = host();
    h.free.insert(bob(), u128::MAX);
    let mut m = Module::new();
    m.init(alice(), alice(), [7u8; 32]).unwrap();
    m.init(bob(), bob(), [8u8; 32]).unwrap();
    let id = Module::get_id(&h, &alice(), &bob());
    m.create(&h, bob(), u128::MAX - 1, alice()).unwrap();
    assert_eq!(m.create(&h, bob(), 2, alice()), Err(Error::IntegerOverflow));
    assert_eq!(
        m.channels(&id),
        Channel::Funded(ChannelBalance { balance: u128::MAX - 1, balance_a: u128::MAX - 1 })
    );
    assert!(m.create(&h, bob(), 1, alice()).is_ok());
}

/// Bob (party A) and Alice register, deposit and activate a channel.
fn active_channel(h: &FakeHost, bob_funds: Balance, alice_funds: Balance) -> Module {
    let mut m = Module::new();
    m.init(bob(), bob(), toy_hash(&[10u8; 32])).unwrap();
    m.init(alice(), alice(), toy_hash(&[20u8; 32])).unwrap();
    m.create(h, bob(), bob_funds, alice()).unwrap();
    if alice_funds > 0 {
        m.create(h, alice(), alice_funds, bob()).unwrap();
    }
    let id = Module::get_id(h, &bob(), &alice());
    let sig = sign(&alice(), &encode_channel(&m.channels(&id)));
    let effects = m.set_active(h, bob(), alice(), sig).unwrap();
    assert_eq!(effects, vec![Effect::Opened(id, bob_funds + alice_funds, bob_funds)]);
    m
}

fn ticket(h: &FakeHost, pre_image: &H256, s_a: &H256, s_b: &H256, amount: Balance, win_prob: &H256) -> Vec<u8> {
    let challenge = toy_hash(&encode_pair(&h.hash(s_a), &h.hash(s_b)));
    encode_ticket(&challenge, pre_image, amount, win_prob)
}

#[test]
fn scenario_ticket_moves_balance_and_cannot_be_replayed() {
    let h = host();
    let bob_link = [10u8; 32];
    let alice_link = [20u8; 32];
    let mut m = Module::new();
    m.init(bob(), bob(), toy_hash(&bob_link)).unwrap();
    m.init(alice(), alice(), toy_hash(&alice_link)).unwrap();
    m.create(&h, bob(), 10, alice()).unwrap();
    let id = Module::get_id(&h, &bob(), &alice());
    assert_eq!(m.channels(&id), Channel::Funded(ChannelBalance { balance: 10, balance_a: 10 }));

    let activation = sign(&alice(), &encode_channel(&m.channels(&id)));
    m.set_active(&h, bob(), alice(), activation).unwrap();
    assert_eq!(m.channels(&id), Channel::Active(ChannelBalance { balance: 10, balance_a: 10 }));

    // Alice redeems a ticket from Bob: Alice's share grows, party A's shrinks.
    let win_prob = [0xffu8; 32];
    let (s_a, s_b) = ([3u8; 32], [4u8; 32]);
    let sig = sign(&bob(), &ticket(&h, &alice_link, &s_a, &s_b, 3, &win_prob));
    assert_eq!(m.redeem_ticket(&h, alice(), sig, bob(), alice_link, s_a, s_b, 3, win_prob), Ok(vec![]));
    assert_eq!(m.channels(&id), Channel::Active(ChannelBalance { balance: 10, balance_a: 7 }));
    assert_eq!(m.state(&alice()).unwrap().secret, alice_link);
    assert!(m.nonce_exists(&toy_hash(&sig)));

    assert_eq!(m.redeem_ticket(&h, alice(), sig, bob(), alice_link, s_a, s_b, 3, win_prob), Err(Error::NonceReused));
    assert_eq!(m.channels(&id), Channel::Active(ChannelBalance { balance: 10, balance_a: 7 }));
}

#[test]
fn scenario_settlement_then_withdraw() {
    let mut h = host();
    h.now = 100;
    let mut m = active_channel(&h, 12, 8);
    let id = Module::get_id(&h, &bob(), &alice());
    assert_eq!(m.channels(&id), Channel::Active(ChannelBalance { balance: 20, balance_a: 12 }));

    assert_eq!(m.initiate_settlement(&h, alice(), bob()), Ok(vec![Effect::InitiatedSettlement(id, 12)]));
    assert_eq!(m.channels(&id), Channel::PendingSettlement(ChannelBalance { balance: 20, balance_a: 12 }, 160));
    assert_eq!(PENDING_WINDOW, 60);

    h.now = 161;
    assert_eq!(
        m.withdraw(&h, alice(), bob()),
        Ok(vec![Effect::Unreserve(alice(), 8), Effect::Unreserve(bob(), 12)])
    );
    assert_eq!(m.channels(&id), Channel::Uninitialized);
}

#[test]
fn withdraw_waits_for_the_deadline() {
    let mut h = host();
    h.now = 100;
    let mut m = active_channel(&h, 12, 8);
    let id = Module::get_id(&h, &bob(), &alice());
    m.initiate_settlement(&h, bob(), alice()).unwrap();
    h.now = 159;
    assert_eq!(m.withdraw(&h, bob(), alice()), Err(Error::InvalidChannelState));
    h.now = 160;
    assert_eq!(
        m.withdraw(&h, bob(), alice()),
        Ok(vec![Effect::Unreserve(bob(), 12), Effect::Unreserve(alice(), 8)])
    );
    assert_eq!(m.channels(&id), Channel::Uninitialized);
    assert_eq!(m.withdraw(&h, bob(), alice()), Err(Error::ChannelNotFound));
    // The channel id is free for a new channel.
    assert!(m.create(&h, bob(), 5, alice()).is_ok());
}

#[test]
fn withdraw_needs_pending_settlement() {
    let h = host();
    let mut m = active_channel(&h, 12, 0);
    assert_eq!(m.withdraw(&h, bob(), alice()), Err(Error::InvalidChannelState));
    assert_eq!(m.withdraw(&h, bob(), bob()), Err(Error::SameParty));
    assert_eq!(m.withdraw(&h, bob(), [9u8; 32]), Err(Error::NotInitialized));
}

#[test]
fn losing_ticket_is_rejected() {
    let h = host();
    let mut m = active_channel(&h, 10, 0);
    let alice_link = [20u8; 32];
    let win_prob = [0u8; 32];
    let (s_a, s_b) = ([3u8; 32], [4u8; 32]);
    let sig = sign(&bob(), &ticket(&h, &alice_link, &s_a, &s_b, 3, &win_prob));
    assert_eq!(m.redeem_ticket(&h, alice(), sig, bob(), alice_link, s_a, s_b, 3, win_prob), Err(Error::NotAWinningTicket));
}

#[test]
fn ticket_win_depends_on_its_hash() {
    let h = host();
    let mut m = active_channel(&h, 10, 0);
    let alice_link = [20u8; 32];
    let (s_a, s_b) = ([3u8; 32], [4u8; 32]);
    // A ticket is redeemed exactly when its hash is below its win probability.
    let win_prob = [0x80u8; 32];
    let message = ticket(&h, &alice_link, &s_a, &s_b, 3, &win_prob);
    let sig = sign(&bob(), &message);
    let r = m.redeem_ticket(&h, alice(), sig, bob(), alice_link, s_a, s_b, 3, win_prob);
    let wins = toy_hash(&message) < win_prob;
    assert_eq!(Module::cmp_hash(&toy_hash(&message), &win_prob), wins);
    assert_eq!(r.is_ok(), wins);
    if !wins {
        assert_eq!(r, Err(Error::NotAWinningTicket));
    }
}

#[test]
fn revealed_preimage_cannot_be_reused() {
    let h = host();
    let mut m = active_channel(&h, 10, 0);
    let alice_link = [20u8; 32];
    let win_prob = [0xffu8; 32];
    let (s_a, s_b) = ([3u8; 32], [4u8; 32]);
    let sig = sign(&bob(), &ticket(&h, &alice_link, &s_a, &s_b, 2, &win_prob));
    m.redeem_ticket(&h, alice(), sig, bob(), alice_link, s_a, s_b, 2, win_prob).unwrap();
    let sig2 = sign(&bob(), &ticket(&h, &alice_link, &s_a, &s_b, 1, &win_prob));
    assert_eq!(m.redeem_ticket(&h, alice(), sig2, bob(), alice_link, s_a, s_b, 1, win_prob), Err(Error::InvalidPreimage));
}

#[test]
fn redeem_checks_signature_and_balance() {
    let h = host();
    let mut m = active_channel(&h, 10, 0);
    let id = Module::get_id(&h, &bob(), &alice());
    let alice_link = [20u8; 32];
    let bob_link = [10u8; 32];
    let win_prob = [0xffu8; 32];
    let (s_a, s_b) = ([3u8; 32], [4u8; 32]);
    // Signed by the wrong key.
    let forged = sign(&alice(), &ticket(&h, &alice_link, &s_a, &s_b, 3, &win_prob));
    assert_eq!(m.redeem_ticket(&h, alice(), forged, bob(), alice_link, s_a, s_b, 3, win_prob), Err(Error::InvalidSignature));
    // Alice asks for more than party A holds.
    let greedy = sign(&bob(), &ticket(&h, &alice_link, &s_a, &s_b, 11, &win_prob));
    assert_eq!(m.redeem_ticket(&h, alice(), greedy, bob(), alice_link, s_a, s_b, 11, win_prob), Err(Error::IntegerOverflow));
    // Bob (party A) cannot take more than the channel holds.
    let over = sign(&alice(), &ticket(&h, &bob_link, &s_a, &s_b, 1, &win_prob));
    assert_eq!(m.redeem_ticket(&h, bob(), over, alice(), bob_link, s_a, s_b, 1, win_prob), Err(Error::BalanceExceeded));
    // A wrong pre-image.
    let wrong = sign(&bob(), &ticket(&h, &bob_link, &s_a, &s_b, 1, &win_prob));
    assert_eq!(m.redeem_ticket(&h, alice(), wrong, bob(), bob_link, s_a, s_b, 1, win_prob), Err(Error::InvalidPreimage));
    assert_eq!(m.channels(&id), Channel::Active(ChannelBalance { balance: 10, balance_a: 10 }));
}

#[test]
fn redeem_during_and_after_settlement_window() {
    let mut h = host();
    h.now = 100;
    let mut m = active_channel(&h, 10, 0);
    let id = Module::get_id(&h, &bob(), &alice());
    m.initiate_settlement(&h, bob(), alice()).unwrap();
    let win_prob = [0xffu8; 32];
    let (s_a, s_b) = ([3u8; 32], [4u8; 32]);
    let alice_link = [20u8; 32];
    h.now = 161;
    let sig = sign(&bob(), &ticket(&h, &alice_link, &s_a, &s_b, 4, &win_prob));
    assert_eq!(m.redeem_ticket(&h, alice(), sig, bob(), alice_link, s_a, s_b, 4, win_prob), Err(Error::WindowExpired));
    h.now = 160;
    assert!(m.redeem_ticket(&h, alice(), sig, bob(), alice_link, s_a, s_b, 4, win_prob).is_ok());
    assert_eq!(m.channels(&id), Channel::PendingSettlement(ChannelBalance { balance: 10, balance_a: 6 }, 160));
}

#[test]
fn redeem_needs_an_open_channel() {
    let h = host();
    let mut m = Module::new();
    let alice_link = [20u8; 32];
    m.init(bob(), bob(), toy_hash(&[10u8; 32])).unwrap();
    m.init(alice(), alice(), toy_hash(&alice_link)).unwrap();
    let win_prob = [0xffu8; 32];
    let (s_a, s_b) = ([3u8; 32], [4u8; 32]);
    let sig = sign(&bob(), &ticket(&h, &alice_link, &s_a, &s_b, 1, &win_prob));
    assert_eq!(m.redeem_ticket(&h, alice(), sig, bob(), alice_link, s_a, s_b, 1, win_prob), Err(Error::ChannelNotFound));
    m.create(&h, bob(), 5, alice()).unwrap();
    assert_eq!(m.redeem_ticket(&h, alice(), sig, bob(), alice_link, s_a, s_b, 1, win_prob), Err(Error::InvalidChannelState));
    assert_eq!(m.redeem_ticket(&h, [9u8; 32], sig, bob(), alice_link, s_a, s_b, 1, win_prob), Err(Error::NotInitialized));
}

#[test]
fn set_active_needs_the_counterparty_signature() {
    let h = host();
    let mut m = Module::new();
    m.init(bob(), bob(), [1u8; 32]).unwrap();
    m.init(alice(), alice(), [2u8; 32]).unwrap();
    let id = Module::get_id(&h, &bob(), &alice());
    let sig = sign(&alice(), &encode_channel(&Channel::Funded(ChannelBalance { balance: 5, balance_a: 5 })));
    assert_eq!(m.set_active(&h, bob(), alice(), sig), Err(Error::ChannelNotFound));
    m.create(&h, bob(), 5, alice()).unwrap();
    let own = sign(&bob(), &encode_channel(&m.channels(&id)));
    assert_eq!(m.set_active(&h, bob(), alice(), own), Err(Error::InvalidSignature));
    assert_eq!(m.set_active(&h, bob(), [9u8; 32], sig), Err(Error::NotInitialized));
    assert!(m.set_active(&h, bob(), alice(), sig).is_ok());
    assert_eq!(m.set_active(&h, bob(), alice(), sig), Err(Error::NonceReused));
    let again = sign(&alice(), &encode_channel(&m.channels(&id)));
    assert_eq!(m.set_active(&h, bob(), alice(), again), Err(Error::InvalidChannelState));
    assert_eq!(m.create(&h, bob(), 1, alice()), Err(Error::InvalidChannelState));
}

#[test]
fn create_funded_opens_an_active_channel() {
    let mut h = host();
    let mut m = Module::new();
    m.init(bob(), bob(), [1u8; 32]).unwrap();
    m.init(alice(), alice(), [2u8; 32]).unwrap();
    let id = Module::get_id(&h, &alice(), &bob());
    let target = Channel::Active(ChannelBalance { balance: 14, balance_a: 7 });
    let sig = sign(&bob(), &encode_channel(&target));
    assert_eq!(m.create_funded(&h, alice(), alice(), sig, 7), Err(Error::SameParty));
    assert_eq!(m.create_funded(&h, alice(), bob(), sig, 0), Err(Error::NonPositiveAmount));
    assert_eq!(m.create_funded(&h, alice(), bob(), sig, u128::MAX / 2 + 1), Err(Error::IntegerOverflow));
    assert_eq!(m.create_funded(&h, alice(), bob(), sig, 8), Err(Error::InvalidSignature));
    h.free.insert(bob(), 6);
    assert_eq!(m.create_funded(&h, alice(), bob(), sig, 7), Err(Error::InsufficientFunds));
    h.free.insert(bob(), 7);
    assert_eq!(
        m.create_funded(&h, alice(), bob(), sig, 7),
        Ok(vec![Effect::Reserve(alice(), 7), Effect::Reserve(bob(), 7), Effect::Opened(id, 14, 7)])
    );
    assert_eq!(m.channels(&id), target);
    assert_eq!(m.create_funded(&h, alice(), bob(), sig, 7), Err(Error::NonceReused));
    let sig2 = sign(&bob(), &encode_channel(&Channel::Active(ChannelBalance { balance: 2, balance_a: 1 })));
    assert_eq!(m.create_funded(&h, alice(), bob(), sig2, 1), Err(Error::InvalidChannelState));
}

#[test]
fn recovery_settles_on_the_signed_balance() {
    let mut h = host();
    h.now = 500;
    let mut m = active_channel(&h, 12, 8);
    let id = Module::get_id(&h, &bob(), &alice());
    let agreed = ChannelBalance { balance: 20, balance_a: 12 };
    let stale = ChannelBalance { balance: 20, balance_a: 11 };
    let sig = sign(&alice(), &encode_recovery(&id, &agreed));
    assert_eq!(m.initiate_recovery(&h, bob(), alice(), sig, stale), Err(Error::InvalidChannelState));
    let bad = sign(&alice(), &encode_recovery(&id, &stale));
    assert_eq!(m.initiate_recovery(&h, bob(), alice(), bad, agreed), Err(Error::InvalidSignature));
    assert_eq!(m.initiate_recovery(&h, bob(), alice(), sig, agreed), Ok(vec![Effect::InitiatedSettlement(id, 12)]));
    assert_eq!(m.channels(&id), Channel::PendingSettlement(agreed, 560));
    assert_eq!(m.initiate_recovery(&h, bob(), alice(), sig, agreed), Err(Error::NonceReused));
    assert_eq!(m.initiate_settlement(&h, bob(), alice()), Err(Error::InvalidChannelState));
}

#[test]
fn settlement_deadline_overflow_is_rejected() {
    let mut h = host();
    let mut m = active_channel(&h, 12, 0);
    h.now = u64::MAX - 59;
    assert_eq!(m.initiate_settlement(&h, bob(), alice()), Err(Error::IntegerOverflow));
    assert_eq!(m.initiate_settlement(&h, bob(), bob()), Err(Error::SameParty));
    assert_eq!(m.initiate_settlement(&h, bob(), [9u8; 32]), Err(Error::ChannelNotFound));
    h.now = u64::MAX - 60;
    assert!(m.initiate_settlement(&h, bob(), alice()).is_ok());
}
