use xmr_btc::alice;
use xmr_btc::alice::node::Input as AliceInput;
use xmr_btc::bob::node::Input as BobInput;
use xmr_btc::bitcoin::TX_FEE;
use xmr_btc::bob;
use xmr_btc::protocol::PartyKeys;
use xmr_btc::monero::TransferProof;
use xmr_btc::protocol::Error;

const BTC: u64 = 10_000_000;
const XMR: u64 = 1_000_000_000_000;

fn be_scalar(v: u8) -> Vec<u8> {
    let mut b = vec![0u8; 32];
    b[31] = v;
    b
}

fn le_scalar(v: u8) -> Vec<u8> {
    let mut b = vec![0u8; 32];
    b[0] = v;
    b
}

fn alice_state0(refund_timelock: u32, punish_timelock: u32) -> alice::State0 {
    alice::State0::from_secrets(
        be_scalar(7),
        le_scalar(5),
        le_scalar(3),
        BTC,
        XMR,
        refund_timelock,
        punish_timelock,
        b"alice-redeem".to_vec(),
        b"alice-punish".to_vec(),
    )
    .unwrap()
}

fn bob_state0(refund_timelock: u32, punish_timelock: u32) -> bob::State0 {
    bob::State0::from_secrets(
        be_scalar(11),
        le_scalar(13),
        le_scalar(17),
        BTC,
        XMR,
        refund_timelock,
        punish_timelock,
        b"bob-refund".to_vec(),
    )
    .unwrap()
}

fn lock_txid() -> Vec<u8> {
    vec![0xab; 32]
}

fn transfer_proof() -> TransferProof {
    TransferProof { tx_hash: vec![1, 2, 3], tx_key: vec![4, 5, 6] }
}

fn signed_by_both(t: &xmr_btc::bitcoin::SignedTransaction) -> bool {
    t.signatures_valid()
}

/// The ed25519 public point of a little-endian scalar.
fn ed_point(s: Vec<u8>) -> Vec<u8> {
    PartyKeys::from_secrets(be_scalar(1), s, le_scalar(1)).unwrap().s_monero
}

/// Runs both parties up to Alice holding the lock confirmed (State4) and Bob
/// having broadcast the lock (State2b).
fn run_to_lock(refund_timelock: u32, punish_timelock: u32) -> (alice::State4, bob::State2b) {
    let alice0 = alice_state0(refund_timelock, punish_timelock);
    let bob0 = bob_state0(refund_timelock, punish_timelock);
    let a_msg0 = alice0.next_message(vec![]);
    let b_msg0 = bob0.next_message(vec![]);
    let alice1 = alice0.receive(b_msg0, true).unwrap();
    let bob1 = bob0.receive(a_msg0, true, lock_txid()).unwrap();
    let alice2 = alice1.receive(bob1.next_message()).unwrap();
    let bob2 = bob1.receive(alice2.next_message()).unwrap();
    let alice3 = alice2.receive(bob2.next_message()).unwrap();
    let bob2b = bob2.lock_btc();
    (alice3.watch_for_lock_btc(), bob2b)
}

#[test]
fn happy_path() {
    let (alice4, bob2b) = run_to_lock(1, 1);
    let request = alice4.lock_xmr_request().unwrap();
    let expected = bob2b.expected_transfer().unwrap();
    assert_eq!(request.spend_point, expected.spend_point);
    assert_eq!(request.view_point, expected.view_point);
    assert_eq!(request.amount, XMR);
    assert_eq!(expected.amount, XMR);

    let alice4b = alice4.lock_xmr(transfer_proof(), 30_000);
    let bob3 = bob2b.watch_for_lock_xmr(alice4b.next_message(), true).unwrap();
    let alice5 = alice4b.receive(bob3.next_message()).unwrap();
    assert_eq!(alice5.lock_xmr_fee(), 30_000);

    let redeem = alice5.redeem_btc().unwrap();
    assert!(signed_by_both(&redeem));
    assert_eq!(redeem.tx.txid(), bob3.tx_redeem_id());
    // Alice's bitcoin grows by the locked amount less the redeem fee.
    assert_eq!(redeem.tx.value, BTC - TX_FEE);

    let bob4 = bob3.watch_for_redeem_btc(&redeem.sig_b).unwrap();
    assert_eq!(bob4.s_a, le_scalar(5));
    let keys = bob4.claim_xmr().unwrap();
    // The claimed spend key is the key of the output Alice locked: Bob's
    // Monero grows by exactly `xmr`; Alice paid the transfer fee.
    assert_eq!(keys.spend_key, le_scalar(5 + 13));
    assert_eq!(keys.view_key, le_scalar(3 + 17));
    assert_eq!(ed_point(keys.spend_key), request.spend_point);
    assert_eq!(ed_point(keys.view_key), request.view_point);
}

#[test]
fn happy_path_through_the_drivers() {
    let alice0 = alice_state0(1, 1);
    let bob0 = bob_state0(1, 1);
    let a_msg0 = alice::Message::Message0(alice0.next_message(vec![]));
    let b_msg0 = bob::Message::Message0(bob0.next_message(vec![]));
    let a = alice::node::next_state(
        alice::State::State0(alice0),
        AliceInput::PeerKeys { message: b_msg0, dleq_proof_valid: true },
    )
    .unwrap();
    let b = bob::node::next_state(
        bob::State::State0(bob0),
        BobInput::PeerKeys { message: a_msg0, dleq_proof_valid: true, tx_lock_txid: lock_txid() },
    )
    .unwrap();
    let b_msg1 = match &b {
        bob::State::State1(s) => bob::Message::Message1(s.next_message()),
        _ => panic!("bob is not in State1"),
    };
    let a = alice::node::next_state(a, AliceInput::Message(b_msg1)).unwrap();
    let a_msg1 = match &a {
        alice::State::State2(s) => alice::Message::Message1(s.next_message()),
        _ => panic!("alice is not in State2"),
    };
    let b = bob::node::next_state(b, BobInput::Message(a_msg1)).unwrap();
    let b_msg2 = match &b {
        bob::State::State2(s) => bob::Message::Message2(s.next_message()),
        _ => panic!("bob is not in State2"),
    };
    let b = bob::node::next_state(b, BobInput::LockBroadcast).unwrap();
    assert!(bob::is_state2b(&b));
    let a = alice::node::next_state(a, AliceInput::Message(b_msg2)).unwrap();
    let a = alice::node::next_state(a, AliceInput::LockConfirmed).unwrap();
    assert!(alice::is_state4(&a));
    let a = alice::node::next_state(a, AliceInput::XmrLocked { proof: transfer_proof(), fee: 1 }).unwrap();
    assert!(alice::is_state4b(&a));
    let a_msg2 = match &a {
        alice::State::State4b(s) => alice::Message::Message2(s.next_message()),
        _ => panic!("alice is not in State4b"),
    };
    let b = bob::node::next_state(b, BobInput::Transfer { message: a_msg2, transfer_valid: true })
        .unwrap();
    let b_msg3 = match &b {
        bob::State::State3(s) => bob::Message::Message3(s.next_message()),
        _ => panic!("bob is not in State3"),
    };
    let a = alice::node::next_state(a, AliceInput::Message(b_msg3)).unwrap();
    assert!(alice::is_state5(&a));
    let redeem = match &a {
        alice::State::State5(s) => s.redeem_btc().unwrap(),
        _ => panic!("alice is not in State5"),
    };
    let b = bob::node::next_state(b, BobInput::RedeemSeen { tx_redeem_sig: redeem.sig_b }).unwrap();
    assert!(bob::is_state4(&b));
    // The last states are where the swap ends: a step leaves them as they are.
    assert!(matches!(alice::node::next_state(a, AliceInput::LockConfirmed), Ok(alice::State::State5(_))));
    assert!(matches!(bob::node::next_state(b, BobInput::LockBroadcast), Ok(bob::State::State4(_))));
}

#[test]
fn mutual_refund() {
    let (alice4, bob2b) = run_to_lock(1, 1);
    let request = alice4.lock_xmr_request().unwrap();
    let alice4b = alice4.lock_xmr(transfer_proof(), 30_000);
    // Alice's second message never reaches Bob: he refunds.
    let (cancel, refund) = bob2b.refund_btc().unwrap();
    assert!(signed_by_both(&cancel));
    assert!(signed_by_both(&refund));
    let lock_height = 100;
    assert!(!cancel.tx.is_final_at(lock_height, lock_height));
    assert!(cancel.tx.is_final_at(lock_height, lock_height + 1));
    assert!(refund.tx.is_final_at(lock_height + 1, lock_height + 1));
    assert_eq!(refund.tx.txid(), alice4b.tx_refund_id());
    // Bob gets his bitcoin back less the two fees; Alice's bitcoin is unchanged.
    assert_eq!(refund.tx.value, BTC - 2 * TX_FEE);

    // Alice recovers Bob's `s_b` from his refund and takes her Monero back.
    let keys = alice4b.refund_xmr(&refund.sig_a).unwrap();
    assert_eq!(keys.spend_key, le_scalar(5 + 13));
    assert_eq!(ed_point(keys.spend_key), request.spend_point);
}

#[test]
fn alice_punishes() {
    let (alice4, _bob2b) = run_to_lock(1, 1);
    let (cancel, punish) = alice4.punish();
    assert!(signed_by_both(&cancel));
    assert!(signed_by_both(&punish));
    let lock_height = 100;
    let cancel_height = lock_height + 1;
    assert!(!cancel.tx.is_final_at(lock_height, lock_height));
    assert!(cancel.tx.is_final_at(lock_height, cancel_height));
    assert!(!punish.tx.is_final_at(cancel_height, cancel_height));
    assert!(punish.tx.is_final_at(cancel_height, lock_height + 2));
    // Alice's bitcoin grows by the locked amount less two fees.
    assert_eq!(punish.tx.value, BTC - 2 * TX_FEE);
}

#[test]
fn malformed_proof_is_rejected() {
    let alice0 = alice_state0(1, 1);
    let bob0 = bob_state0(1, 1);
    let b_msg0 = bob0.next_message(vec![9, 9, 9]);
    assert!(matches!(alice0.clone().receive(b_msg0.clone(), false), Err(Error::ProofInvalid)));
    let r = alice::node::next_state(
        alice::State::State0(alice0),
        alice::node::Input::PeerKeys { message: bob::Message::Message0(b_msg0), dleq_proof_valid: false },
    );
    assert!(matches!(
        r,
        Err((alice::State::State0(_), alice::node::StepError::Rejected(Error::ProofInvalid)))
    ));
    let a_msg0 = alice_state0(1, 1).next_message(vec![]);
    assert!(matches!(bob0.receive(a_msg0, false, lock_txid()), Err(Error::ProofInvalid)));
}

#[test]
fn runs_are_reproducible() {
    // The same secrets and inputs give the same messages and transactions.
    let (first, bob_first) = run_to_lock(1, 1);
    let (second, bob_second) = run_to_lock(1, 1);
    let (cancel1, punish1) = first.punish();
    let (cancel2, punish2) = second.punish();
    assert_eq!(cancel1.tx.encode(), cancel2.tx.encode());
    assert_eq!(cancel1.sig_a, cancel2.sig_a);
    assert_eq!(punish1.tx.encode(), punish2.tx.encode());
    assert_eq!(punish1.sig_a, punish2.sig_a);
    let (bob_cancel1, bob_refund1) = bob_first.refund_btc().unwrap();
    let (bob_cancel2, bob_refund2) = bob_second.refund_btc().unwrap();
    assert_eq!(bob_cancel1.tx.encode(), bob_cancel2.tx.encode());
    assert_eq!(bob_refund1.sig_a, bob_refund2.sig_a);
    assert_eq!(bob_refund1.sig_b, bob_refund2.sig_b);
    // Both parties build the same cancel transaction.
    assert_eq!(cancel1.tx.encode(), bob_cancel1.tx.encode());
    assert_eq!(cancel1.tx.digest(), bob_cancel1.tx.digest());
}

#[test]
fn branches_after_the_lock() {
    let (alice4, bob2b) = run_to_lock(1, 1);
    let alice4b = alice4.lock_xmr(transfer_proof(), 0);
    let (cancel, punish) = alice4b.punish();
    assert!(signed_by_both(&cancel));
    assert!(signed_by_both(&punish));
    let bob3 = bob2b.watch_for_lock_xmr(alice4b.next_message(), true).unwrap();
    let alice5 = alice4b.receive(bob3.next_message()).unwrap();
    let (_, refund) = bob3.refund_btc().unwrap();
    assert!(signed_by_both(&refund));
    assert_eq!(refund.tx.txid(), alice5.tx_refund_id());
    let keys = alice5.refund_xmr(&refund.sig_a).unwrap();
    assert_eq!(keys.spend_key, le_scalar(5 + 13));
}
