use xmr_btc::alice;
use xmr_btc::bitcoin::{tx_cancel, tx_punish, tx_refund, tx_redeem, TxLock, TX_FEE};
use xmr_btc::bob;
use sha2::{Digest, Sha256};
use xmr_btc::crypto::reverse_byte_order;
use xmr_btc::protocol::{same_bytes, Error, Params, PartyKeys};
use xmr_btc::{is_yes, response_to, Rsp};

fn be_scalar(v: u8) -> Vec<u8> {
    let mut b = vec![0u8; 32];
    b[31] = v;
    b
}

fn hex(b: &[u8]) -> String {
    b.iter().map(|x| format!("{:02x}", x)).collect()
}

fn le_scalar(v: u8) -> Vec<u8> {
    let mut b = vec![0u8; 32];
    b[0] = v;
    b
}

#[test]
fn digest_and_txid_are_sha256() {
    assert_eq!(
        hex(&Sha256::digest(b"abc")),
        "ba7816bf8f01cfea414140de5dae2223b00361a396177a9cb410ff61f20015ad"
    );
    let lock = lock();
    let cancel = tx_cancel(&lock, 10, &lock.a, &lock.b);
    let mut bytes = cancel.encode();
    let txid = Sha256::digest(Sha256::digest(&bytes)).to_vec();
    bytes.push(1);
    assert_eq!(cancel.digest(), Sha256::digest(&bytes).to_vec());
    assert_eq!(cancel.txid(), txid);
}

#[test]
fn public_keys_of_one_are_the_generators() {
    let keys = PartyKeys::from_secrets(be_scalar(1), le_scalar(1), le_scalar(1)).unwrap();
    let g = "0279be667ef9dcbbac55a06295ce870b07029bfcdb2dce28d959f2815b16f81798";
    assert_eq!(hex(&keys.x_public), g);
    assert_eq!(hex(&keys.s_bitcoin), g);
    assert_eq!(hex(&keys.s_monero), "5866666666666666666666666666666666666666666666666666666666666666");
    let two = PartyKeys::from_secrets(be_scalar(2), le_scalar(2), le_scalar(2)).unwrap();
    assert_ne!(two.x_public, keys.x_public);
    assert_eq!(two.x_public, two.s_bitcoin);
}

#[test]
fn out_of_range_secrets_are_refused() {
    assert!(matches!(PartyKeys::from_secrets(be_scalar(0), le_scalar(1), le_scalar(1)), Err(Error::InvalidScalar)));
    assert!(matches!(PartyKeys::from_secrets(vec![0xff; 32], le_scalar(1), le_scalar(1)), Err(Error::InvalidScalar)));
    assert!(matches!(PartyKeys::from_secrets(be_scalar(1), vec![0xff; 32], le_scalar(1)), Err(Error::InvalidScalar)));
    assert!(matches!(PartyKeys::from_secrets(be_scalar(1), le_scalar(0), le_scalar(1)), Err(Error::InvalidScalar)));
    assert!(matches!(PartyKeys::from_secrets(be_scalar(1), le_scalar(1), vec![0xff; 32]), Err(Error::InvalidScalar)));
    let fresh = PartyKeys::generate();
    assert_eq!(fresh.s.len(), 32);
    assert!(fresh.s[31] < 16);
    let drawn = PartyKeys::from_draws(be_scalar(1), vec![0u8; 32], vec![0xffu8; 32]).unwrap();
    assert_eq!(drawn.s, le_scalar(1));
    let mut v = vec![0xffu8; 32];
    v[31] = 0x0f;
    assert_eq!(drawn.v, v);
    assert!(matches!(PartyKeys::from_draws(be_scalar(0), vec![1u8; 32], vec![1u8; 32]), Err(Error::InvalidScalar)));
}

#[test]
fn byte_order_is_reversed() {
    assert_eq!(reverse_byte_order(&vec![1, 2, 3]), vec![3, 2, 1]);
    assert_eq!(reverse_byte_order(&vec![]), Vec::<u8>::new());
}

#[test]
fn view_key_is_the_sum_of_the_shares() {
    let alice0 = alice::State0::from_secrets(
        be_scalar(7), le_scalar(5), le_scalar(3), 10_000_000, 1, 1, 1, vec![], vec![],
    )
    .unwrap();
    let bob0 = bob::State0::from_secrets(be_scalar(11), le_scalar(13), le_scalar(17), 10_000_000, 1, 1, 1, vec![])
        .unwrap();
    let a_msg0 = alice0.next_message(vec![]);
    let alice1 = alice0.receive(bob0.next_message(vec![]), true).unwrap();
    let bob1 = bob0.receive(a_msg0, true, vec![0; 32]).unwrap();
    assert_eq!(alice1.v, le_scalar(20));
    assert_eq!(bob1.v, le_scalar(20));
}

#[test]
fn adaptor_round_trip() {
    // Alice encrypts her signature of refund to Bob's s_b; Bob checks it and
    // decrypts it into a valid signature, from which Alice recovers s_b.
    let alice0 = alice::State0::from_secrets(
        be_scalar(21), le_scalar(42), le_scalar(3), 10_000_000, 1, 1, 1, vec![1], vec![2],
    )
    .unwrap();
    let bob0 = bob::State0::from_secrets(be_scalar(8), le_scalar(99), le_scalar(4), 10_000_000, 1, 1, 1, vec![3])
        .unwrap();
    let a_msg0 = alice0.next_message(vec![]);
    let alice1 = alice0.receive(bob0.next_message(vec![]), true).unwrap();
    let bob1 = bob0.receive(a_msg0, true, vec![0; 32]).unwrap();
    let alice2 = alice1.receive(bob1.next_message()).unwrap();
    let bob2 = bob1.receive(alice2.next_message()).unwrap();
    let alice3 = alice2.receive(bob2.next_message()).unwrap();
    let alice4b = alice3
        .watch_for_lock_btc()
        .lock_xmr(xmr_btc::monero::TransferProof { tx_hash: vec![], tx_key: vec![] }, 0);
    let (_, refund) = bob2.lock_btc().refund_btc().unwrap();
    assert!(refund.signatures_valid());
    let keys = alice4b.refund_xmr(&refund.sig_a).unwrap();
    assert_eq!(keys.spend_key, le_scalar(42 + 99));
    // Bob's own signature reveals nothing.
    assert!(matches!(alice4b.refund_xmr(&refund.sig_b), Err(Error::VerificationFailed)));
}

fn lock() -> TxLock {
    TxLock::new(vec![7; 32], 10_000_000, vec![2; 33], vec![3; 33])
}

#[test]
fn timelock_ordering() {
    let lock = lock();
    let cancel = tx_cancel(&lock, 10, &lock.a, &lock.b);
    let punish = tx_punish(&cancel, &b"p".to_vec(), 20);
    assert!(!cancel.is_final_at(500, 509));
    assert!(cancel.is_final_at(500, 510));
    assert!(cancel.is_final_at(500, 600));
    assert!(!punish.is_final_at(510, 529));
    assert!(punish.is_final_at(510, 530));
    assert!(!cancel.is_final_at(500, 400));
}

#[test]
fn ladder_values_and_digests() {
    let lock = lock();
    let cancel = tx_cancel(&lock, 10, &lock.a, &lock.b);
    let refund = tx_refund(&cancel, &b"r".to_vec());
    let punish = tx_punish(&cancel, &b"p".to_vec(), 20);
    let redeem = tx_redeem(&lock, &b"d".to_vec());
    assert_eq!(cancel.value, 10_000_000 - TX_FEE);
    assert_eq!(refund.value, 10_000_000 - 2 * TX_FEE);
    assert_eq!(punish.value, 10_000_000 - 2 * TX_FEE);
    assert_eq!(redeem.value, 10_000_000 - TX_FEE);
    assert_eq!(refund.prev_txid, cancel.txid());
    assert_eq!(redeem.prev_txid, lock.txid());
    // The same data gives the same digest; different rungs differ.
    let again = tx_cancel(&lock, 10, &lock.a, &lock.b);
    assert_eq!(again.digest(), cancel.digest());
    assert_ne!(refund.digest(), redeem.digest());
    assert_ne!(cancel.digest(), cancel.txid());
    // kind, txid, sequence, value, then the 2-of-2 output
    let enc = cancel.encode();
    assert_eq!(enc.len(), 1 + 32 + 4 + 8 + 1 + 33 + 33);
    assert_eq!(enc[0], 1);
    assert_eq!(&enc[33..37], &[10, 0, 0, 0]);
    assert_eq!(&enc[37..45], &(10_000_000 - TX_FEE).to_le_bytes());
}

#[test]
fn parameters_are_checked() {
    assert!(matches!(Params::new(10_000_000, 1, 0, 1), Err(Error::InvalidParameters)));
    assert!(matches!(Params::new(10_000_000, 1, 1, 0), Err(Error::InvalidParameters)));
    assert!(matches!(Params::new(2 * TX_FEE - 1, 1, 1, 1), Err(Error::InvalidParameters)));
    assert!(Params::new(2 * TX_FEE, 1, 1, 1).is_ok());
    let r = alice::State0::from_secrets(
        be_scalar(0),
        be_scalar(1),
        be_scalar(1),
        10_000_000,
        1,
        1,
        1,
        vec![],
        vec![],
    );
    assert!(matches!(r, Err(Error::InvalidScalar)));
    assert!(alice::State0::new(10_000_000, 1, 1, 1, vec![], vec![]).is_ok());
    assert!(bob::State0::new(10_000_000, 1, 1, 1, vec![]).is_ok());
    assert!(matches!(bob::State0::new(10_000_000, 1, 0, 1, vec![]), Err(Error::InvalidParameters)));
}

#[test]
fn answers() {
    assert!(is_yes("y"));
    assert!(is_yes("Y"));
    assert!(is_yes("yes"));
    assert!(is_yes("YES"));
    assert!(is_yes("Yes"));
    assert!(!is_yes("yES"));
    assert!(!is_yes("n"));
    assert!(!is_yes(""));
    assert_eq!(response_to("yes\r\n"), Rsp::VerifiedAmounts);
    assert_eq!(response_to("y\n"), Rsp::VerifiedAmounts);
    assert_eq!(response_to("no\n"), Rsp::Abort);
    assert_eq!(response_to("yes \n"), Rsp::Abort);
}

#[test]
fn byte_comparison() {
    assert!(same_bytes(&vec![1, 2], &vec![1, 2]));
    assert!(!same_bytes(&vec![1, 2], &vec![1, 3]));
    assert!(!same_bytes(&vec![1], &vec![1, 2]));
}
