use xmr_btc::alice;
use xmr_btc::bob;
use xmr_btc::monero::TransferProof;
use xmr_btc::protocol::Error;

fn be_scalar(v: u8) -> Vec<u8> {
    let mut b = vec![0u8; 32];
    b[31] = v;
    b
}

fn le_scalar(v: u8) -> Vec<u8> {
    let mut b = vec![0u8; 32];
    b[0] = v;
    b
}

fn alice0() -> alice::State0 {
    alice::State0::from_secrets(
        be_scalar(7),
        le_scalar(5),
        le_scalar(3),
        10_000_000,
        1_000,
        1,
        1,
        b"r".to_vec(),
        b"p".to_vec(),
    )
    .unwrap()
}

fn bob0() -> bob::State0 {
    bob::State0::from_secrets(be_scalar(11), le_scalar(13), le_scalar(17), 10_000_000, 1_000, 1, 1, b"f".to_vec())
        .unwrap()
}

#[test]
fn wrong_message_kind() {
    let b_msg0 = bob::Message::Message0(bob0().next_message(vec![]));
    assert!(matches!(alice::Message1::try_from(alice::Message::Message0(alice0().next_message(vec![]))), Err(_)));
    let r = alice::node::next_state(alice::State::State0(alice0()), alice::node::Input::Message(b_msg0.clone()));
    assert!(matches!(r, Err((alice::State::State0(_), alice::node::StepError::UnexpectedInput(_)))));
    let a1 = alice0().receive(bob0().next_message(vec![]), true).unwrap();
    let r = alice::node::next_state(alice::State::State1(a1), alice::node::Input::Message(b_msg0));
    match r {
        Err((alice::State::State1(_), alice::node::StepError::UnexpectedMessage(e))) => {
            assert!(matches!(e.received, bob::Message::Message0(_)));
            assert_eq!(e.expected_type, "Message1");
        }
        _ => panic!("a Message0 was taken for a Message1"),
    }
    match bob::Message1::try_from(bob::Message::Message0(bob0().next_message(vec![]))) {
        Err(e) => assert_eq!(e.expected_type, "Message1"),
        Ok(_) => panic!("a Message0 was taken for a Message1"),
    }
}

#[test]
fn invalid_curve_point() {
    let mut msg = bob0().next_message(vec![]);
    msg.s_b_bitcoin = vec![5u8; 33];
    assert!(matches!(alice0().receive(msg, true), Err(Error::InvalidCurvePoint)));
    let mut msg = bob0().next_message(vec![]);
    msg.s_b_monero = vec![0xffu8; 32];
    assert!(matches!(alice0().receive(msg, true), Err(Error::InvalidCurvePoint)));
}

#[test]
fn invalid_view_key_share() {
    let mut msg = bob0().next_message(vec![]);
    msg.v_b = vec![0xffu8; 32];
    assert!(matches!(alice0().receive(msg, true), Err(Error::InvalidScalar)));
}

#[test]
fn lock_mismatch_and_bad_signatures() {
    let a_msg0 = alice0().next_message(vec![]);
    let b0 = bob0();
    let b_msg0 = b0.next_message(vec![]);
    let a1 = alice0().receive(b_msg0, true).unwrap();
    let b1 = b0.receive(a_msg0, true, vec![1; 32]).unwrap();
    let mut wrong = b1.next_message();
    wrong.tx_lock.amount = 9_999_999;
    assert!(matches!(a1.clone().receive(wrong), Err(Error::TxLockMismatch)));

    let a2 = a1.receive(b1.next_message()).unwrap();
    let refund_encsig = a2.next_message().tx_refund_encsig;
    let mut forged = a2.next_message();
    forged.tx_cancel_sig[40] ^= 1;
    assert!(matches!(b1.clone().receive(forged), Err(Error::SignatureInvalid)));
    let b2 = b1.receive(a2.next_message()).unwrap();
    let mut forged = b2.next_message();
    std::mem::swap(&mut forged.tx_cancel_sig, &mut forged.tx_punish_sig);
    assert!(matches!(a2.clone().receive(forged), Err(Error::SignatureInvalid)));

    let a3 = a2.receive(b2.next_message()).unwrap();
    let a4b = a3.watch_for_lock_btc().lock_xmr(TransferProof { tx_hash: vec![], tx_key: vec![] }, 0);
    let b2b = b2.lock_btc();
    assert!(matches!(b2b.clone().watch_for_lock_xmr(a4b.next_message(), false), Err(Error::TransferMismatch)));
    let b3 = b2b.watch_for_lock_xmr(a4b.next_message(), true).unwrap();
    // An adaptor signature encrypted to the wrong point is refused.
    let bad = bob::Message3 { tx_redeem_encsig: refund_encsig };
    assert!(matches!(a4b.clone().receive(bad), Err(Error::SignatureInvalid)));
    // A signature that was not decrypted from Bob's adaptor signature reveals nothing.
    assert!(matches!(b3.watch_for_redeem_btc(&vec![1u8; 64]), Err(Error::VerificationFailed)));
    assert!(matches!(a4b.refund_xmr(&vec![1u8; 64]), Err(Error::VerificationFailed)));
}

#[test]
fn refused_steps_hand_the_state_back() {
    let a_msg0 = alice0().next_message(vec![]);
    let b0 = bob0();
    let b_msg0 = b0.next_message(vec![]);
    let a1 = alice0().receive(b_msg0, true).unwrap();
    let b1 = b0.receive(a_msg0, true, vec![1; 32]).unwrap();
    let a2 = a1.receive(b1.next_message()).unwrap();
    let b2 = b1.receive(a2.next_message()).unwrap();
    let a4b = a2
        .receive(b2.next_message())
        .unwrap()
        .watch_for_lock_btc()
        .lock_xmr(TransferProof { tx_hash: vec![], tx_key: vec![] }, 0);
    let b = bob::State::State2b(b2.lock_btc());
    let input = bob::node::Input::Transfer {
        message: alice::Message::Message2(a4b.next_message()),
        transfer_valid: false,
    };
    let (b, e) = match bob::node::next_state(b, input) {
        Err(x) => x,
        Ok(_) => panic!("a rejected transfer was accepted"),
    };
    assert!(matches!(e, bob::node::StepError::Rejected(Error::TransferMismatch)));
    // The same state goes on with a good transfer.
    let input = bob::node::Input::Transfer {
        message: alice::Message::Message2(a4b.next_message()),
        transfer_valid: true,
    };
    assert!(matches!(bob::node::next_state(b, input), Ok(bob::State::State3(_))));
}
