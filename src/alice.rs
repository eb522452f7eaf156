//! The seller's side of a swap: Alice locks monero and receives bitcoin.
//!
//! Each state owns what the next step needs and is consumed by it. A step
//! that checks what the counterparty sent returns the next state only where
//! the check passes. Each such check can also be made on its own, by a
//! `check_*` method that consumes nothing; the driver in `node` uses them to
//! hand the state back when a step is refused.
use vstd::prelude::*;

use crate::bitcoin::{digest_of, Ladder, SignedTransaction};
use crate::bob;
use crate::crypto::{
    ed_point_check, secp_point_check,
    decrypt_signature, decrypted_of, ecdsa_sig_of, ecdsa_sign, ecdsa_valid_of, ecdsa_verify,
    ed_point_sum, ed_point_sum_of, ed_point_valid, ed_public_key, ed_public_of, ed_scalar_canonical,
    ed_scalar_sum, ed_scalar_sum_of, encsig_of, encsig_valid_of, encsig_verify, encsign,
    recover_decryption_key, recovered_of, reverse_byte_order, reverse_bytes, secp_public_of,
    secp_scalar_valid,
};
use crate::monero::{MoneroKeys, TransferProof, TransferRequest};
use crate::protocol::{copy_bytes, same_bytes, Error, Params, PartyKeys, PeerKeys};

pub mod node;

verus! {

/// Alice's keys, her proof, her share of the view key and her addresses.
#[derive(Clone, Debug)]
pub struct Message0 {
    pub a_public: Vec<u8>,
    pub s_a_monero: Vec<u8>,
    pub s_a_bitcoin: Vec<u8>,
    pub dleq_proof_s_a: Vec<u8>,
    pub v_a: Vec<u8>,
    pub redeem_address: Vec<u8>,
    pub punish_address: Vec<u8>,
}

/// Alice's signature of the cancel transaction and her adaptor signature of
/// the refund transaction, encrypted to Bob.
#[derive(Clone, Debug)]
pub struct Message1 {
    pub tx_cancel_sig: Vec<u8>,
    pub tx_refund_encsig: String,
}

/// The proof of Alice's Monero transfer.
#[derive(Clone, Debug)]
pub struct Message2 {
    pub tx_lock_proof: TransferProof,
}

/// A message that Alice sends.
#[derive(Clone, Debug)]
pub enum Message {
    Message0(Message0),
    Message1(Message1),
    Message2(Message2),
}

/// A message of another kind than the one awaited.
#[derive(Clone, Debug)]
pub struct UnexpectedMessage {
    pub expected_type: String,
    pub received: Message,
}

impl UnexpectedMessage {
    pub fn new(expected_type: &str, received: Message) -> (r: UnexpectedMessage)
        ensures
            r.expected_type@ == expected_type@,
            r.received == received,
    {
        UnexpectedMessage { expected_type: expected_type.to_owned(), received }
    }
}

impl Message0 {
    pub fn try_from(m: Message) -> (r: Result<Message0, UnexpectedMessage>)
        ensures
            m is Message0 ==> r == Ok::<Message0, UnexpectedMessage>(m->Message0_0),
            !(m is Message0) ==> r is Err && r->Err_0.received == m,
    {
        match m {
            Message::Message0(m) => Ok(m),
            _ => Err(UnexpectedMessage::new("Message0", m)),
        }
    }
}

impl Message1 {
    pub fn try_from(m: Message) -> (r: Result<Message1, UnexpectedMessage>)
        ensures
            m is Message1 ==> r == Ok::<Message1, UnexpectedMessage>(m->Message1_0),
            !(m is Message1) ==> r is Err && r->Err_0.received == m,
    {
        match m {
            Message::Message1(m) => Ok(m),
            _ => Err(UnexpectedMessage::new("Message1", m)),
        }
    }
}

impl Message2 {
    pub fn try_from(m: Message) -> (r: Result<Message2, UnexpectedMessage>)
        ensures
            m is Message2 ==> r == Ok::<Message2, UnexpectedMessage>(m->Message2_0),
            !(m is Message2) ==> r is Err && r->Err_0.received == m,
    {
        match m {
            Message::Message2(m) => Ok(m),
            _ => Err(UnexpectedMessage::new("Message2", m)),
        }
    }
}

/// Alice's state before any message: her keys, the parameters and her addresses.
#[derive(Clone, Debug)]
pub struct State0 {
    pub keys: PartyKeys,
    pub params: Params,
    pub redeem_address: Vec<u8>,
    pub punish_address: Vec<u8>,
}

/// Keys exchanged and Bob's proof checked; `v` is the combined view key.
#[derive(Clone, Debug)]
pub struct State1 {
    pub keys: PartyKeys,
    pub params: Params,
    pub peer: PeerKeys,
    pub v: Vec<u8>,
    pub redeem_address: Vec<u8>,
    pub punish_address: Vec<u8>,
    pub refund_address: Vec<u8>,
}

/// The lock transaction known: the ladder is fixed.
#[derive(Clone, Debug)]
pub struct State2 {
    pub keys: PartyKeys,
    pub params: Params,
    pub peer: PeerKeys,
    pub v: Vec<u8>,
    pub ladder: Ladder,
}

/// Bob's signatures of cancel and punish received and checked.
#[derive(Clone, Debug)]
pub struct State3 {
    pub keys: PartyKeys,
    pub params: Params,
    pub peer: PeerKeys,
    pub v: Vec<u8>,
    pub ladder: Ladder,
    pub tx_cancel_sig_bob: Vec<u8>,
    pub tx_punish_sig_bob: Vec<u8>,
}

/// The lock transaction confirmed.
#[derive(Clone, Debug)]
pub struct State4 {
    pub keys: PartyKeys,
    pub params: Params,
    pub peer: PeerKeys,
    pub v: Vec<u8>,
    pub ladder: Ladder,
    pub tx_cancel_sig_bob: Vec<u8>,
    pub tx_punish_sig_bob: Vec<u8>,
}

/// Monero locked: the proof of the transfer and its fee.
#[derive(Clone, Debug)]
pub struct State4b {
    pub keys: PartyKeys,
    pub params: Params,
    pub peer: PeerKeys,
    pub v: Vec<u8>,
    pub ladder: Ladder,
    pub tx_cancel_sig_bob: Vec<u8>,
    pub tx_punish_sig_bob: Vec<u8>,
    pub tx_lock_proof: TransferProof,
    pub lock_xmr_fee: u64,
}

/// Bob's adaptor signature of the redeem transaction received and checked.
#[derive(Clone, Debug)]
pub struct State5 {
    pub keys: PartyKeys,
    pub params: Params,
    pub peer: PeerKeys,
    pub v: Vec<u8>,
    pub ladder: Ladder,
    pub tx_punish_sig_bob: Vec<u8>,
    pub tx_lock_proof: TransferProof,
    pub lock_xmr_fee: u64,
    pub tx_redeem_encsig: String,
}

/// Any of Alice's states.
#[derive(Clone, Debug)]
pub enum State {
    State0(State0),
    State1(State1),
    State2(State2),
    State3(State3),
    State4(State4),
    State4b(State4b),
    State5(State5),
}

/// What holds of the ladder once Alice knows it: it is built from her key,
/// Bob's key and the agreed amount and timelocks.
pub open spec fn ladder_matches(
    ladder: Ladder,
    keys: PartyKeys,
    peer: PeerKeys,
    params: Params,
) -> bool {
    &&& ladder.wf()
    &&& ladder.tx_lock.amount == params.btc
    &&& ladder.tx_lock.a@ == keys.x_public@
    &&& ladder.tx_lock.b@ == peer.x_public@
    &&& ladder.refund_timelock == params.refund_timelock
    &&& ladder.punish_timelock == params.punish_timelock
}

/// Bob's signatures of cancel and punish are valid under his key.
pub open spec fn bob_sigs_valid(ladder: Ladder, peer: PeerKeys, cancel_sig: Seq<u8>, punish_sig: Seq<u8>) -> bool {
    &&& ecdsa_valid_of(peer.x_public@, digest_of(ladder.cancel_spec()), cancel_sig)
    &&& ecdsa_valid_of(peer.x_public@, digest_of(ladder.punish_spec()), punish_sig)
}

/// State1 as `State0::receive` makes it from Bob's first message.
pub open spec fn after_peer_keys(prev: State0, msg: bob::Message0, s: State1) -> bool {
    &&& s.wf()
    &&& s.keys == prev.keys && s.params == prev.params
    &&& s.peer.x_public == msg.b_public && s.peer.s_bitcoin == msg.s_b_bitcoin
    &&& s.peer.s_monero == msg.s_b_monero
    &&& s.v@ == ed_scalar_sum_of(prev.keys.v@, msg.v_b@)
    &&& s.redeem_address == prev.redeem_address
    &&& s.punish_address == prev.punish_address
    &&& s.refund_address == msg.refund_address
}

/// State2 as `State1::receive` makes it from Bob's lock transaction.
pub open spec fn after_tx_lock(prev: State1, msg: bob::Message1, s: State2) -> bool {
    &&& s.wf()
    &&& s.keys == prev.keys && s.params == prev.params && s.peer == prev.peer
    &&& s.v == prev.v
    &&& s.ladder.tx_lock == msg.tx_lock
    &&& s.ladder.refund_address == prev.refund_address
    &&& s.ladder.redeem_address == prev.redeem_address
    &&& s.ladder.punish_address == prev.punish_address
}

/// State3 as `State2::receive` makes it from Bob's signatures.
pub open spec fn after_presigs(prev: State2, msg: bob::Message2, s: State3) -> bool {
    &&& s.wf()
    &&& s.keys == prev.keys && s.params == prev.params && s.peer == prev.peer
    &&& s.v == prev.v && s.ladder == prev.ladder
    &&& s.tx_cancel_sig_bob == msg.tx_cancel_sig
    &&& s.tx_punish_sig_bob == msg.tx_punish_sig
}

/// State5 as `State4b::receive` makes it from Bob's adaptor signature.
pub open spec fn after_redeem_encsig(prev: State4b, msg: bob::Message3, s: State5) -> bool {
    &&& s.wf()
    &&& s.keys == prev.keys && s.params == prev.params && s.peer == prev.peer
    &&& s.v == prev.v && s.ladder == prev.ladder
    &&& s.tx_punish_sig_bob == prev.tx_punish_sig_bob
    &&& s.tx_lock_proof == prev.tx_lock_proof
    &&& s.lock_xmr_fee == prev.lock_xmr_fee
    &&& s.tx_redeem_encsig == msg.tx_redeem_encsig
}

/// State4 as `State3::watch_for_lock_btc` makes it.
pub open spec fn after_lock_confirmed(prev: State3, s: State4) -> bool {
    &&& s.wf()
    &&& s.keys == prev.keys && s.params == prev.params && s.peer == prev.peer
    &&& s.v == prev.v && s.ladder == prev.ladder
    &&& s.tx_cancel_sig_bob == prev.tx_cancel_sig_bob
    &&& s.tx_punish_sig_bob == prev.tx_punish_sig_bob
}

/// State4b as `State4::lock_xmr` makes it from the transfer's proof and fee.
pub open spec fn after_xmr_locked(prev: State4, tx_lock_proof: TransferProof, fee: u64, s: State4b) -> bool {
    &&& s.wf()
    &&& s.keys == prev.keys && s.params == prev.params && s.peer == prev.peer
    &&& s.v == prev.v && s.ladder == prev.ladder
    &&& s.tx_cancel_sig_bob == prev.tx_cancel_sig_bob
    &&& s.tx_punish_sig_bob == prev.tx_punish_sig_bob
    &&& s.tx_lock_proof == tx_lock_proof && s.lock_xmr_fee == fee
}

/// The pair that `punish` returns: cancel and punish, each with Alice's
/// signature and Bob's.
pub open spec fn punish_pair_matches(
    r: (SignedTransaction, SignedTransaction),
    keys: PartyKeys,
    peer: PeerKeys,
    ladder: Ladder,
    cancel_sig_bob: Seq<u8>,
    punish_sig_bob: Seq<u8>,
) -> bool {
    &&& r.0.tx@ == ladder.cancel_spec()
    &&& r.0.a@ == keys.x_public@
    &&& r.0.sig_a@ == ecdsa_sig_of(keys.x@, digest_of(ladder.cancel_spec()))
    &&& r.0.b@ == peer.x_public@ && r.0.sig_b@ == cancel_sig_bob
    &&& r.1.tx@ == ladder.punish_spec()
    &&& r.1.a@ == keys.x_public@
    &&& r.1.sig_a@ == ecdsa_sig_of(keys.x@, digest_of(ladder.punish_spec()))
    &&& r.1.b@ == peer.x_public@ && r.1.sig_b@ == punish_sig_bob
}

fn punish_transactions(
    keys: &PartyKeys,
    peer: &PeerKeys,
    ladder: &Ladder,
    tx_cancel_sig_bob: &Vec<u8>,
    tx_punish_sig_bob: &Vec<u8>,
) -> (r: (SignedTransaction, SignedTransaction))
    requires
        keys.wf(),
        ladder.wf(),
    ensures
        punish_pair_matches(r, *keys, *peer, *ladder, tx_cancel_sig_bob@, tx_punish_sig_bob@),
{
    let tx_cancel = ladder.tx_cancel();
    let sig_a = ecdsa_sign(&keys.x, &tx_cancel.digest());
    let signed_cancel = SignedTransaction {
        tx: tx_cancel,
        a: copy_bytes(&keys.x_public),
        sig_a,
        b: copy_bytes(&peer.x_public),
        sig_b: copy_bytes(tx_cancel_sig_bob),
    };
    let tx_punish = ladder.tx_punish();
    let sig_a = ecdsa_sign(&keys.x, &tx_punish.digest());
    let signed_punish = SignedTransaction {
        tx: tx_punish,
        a: copy_bytes(&keys.x_public),
        sig_a,
        b: copy_bytes(&peer.x_public),
        sig_b: copy_bytes(tx_punish_sig_bob),
    };
    (signed_cancel, signed_punish)
}

/// What `refund_xmr` returns, given the signature found in Bob's refund
/// transaction: the key that it and Alice's adaptor signature reveal, added
/// to her `s_a`, and the combined view key.
pub open spec fn refund_keys_match(
    r: Result<MoneroKeys, Error>,
    keys: PartyKeys,
    peer: PeerKeys,
    ladder: Ladder,
    v: Seq<u8>,
    tx_refund_sig: Seq<u8>,
) -> bool {
    let e = encsig_of(keys.x@, peer.s_bitcoin@, digest_of(ladder.refund_spec()));
    let rec = recovered_of(peer.s_bitcoin@, tx_refund_sig, e);
    &&& forall|k: Seq<u8>|
        secp_scalar_valid(k) && secp_public_of(k) == peer.s_bitcoin@ && #[trigger] decrypted_of(k, e)
            == Some(tx_refund_sig) ==> rec == Some(k)
    &&& rec is None ==> r == Err::<MoneroKeys, Error>(Error::VerificationFailed)
    &&& rec is Some ==> (r is Ok <==> ed_scalar_canonical(reverse_bytes(rec->0)))
    &&& r is Err ==> r->Err_0 == Error::VerificationFailed || r->Err_0 == Error::InvalidScalar
    &&& r is Ok ==> rec is Some && r.unwrap().spend_key@ == ed_scalar_sum_of(
        reverse_bytes(rec->0),
        keys.s@,
    ) && r.unwrap().view_key@ == v
}

fn refund_keys(
    keys: &PartyKeys,
    peer: &PeerKeys,
    ladder: &Ladder,
    v: &Vec<u8>,
    tx_refund_sig: &Vec<u8>,
) -> (r: Result<MoneroKeys, Error>)
    requires
        keys.wf(),
        peer.wf(),
        ladder.wf(),
    ensures
        refund_keys_match(r, *keys, *peer, *ladder, v@, tx_refund_sig@),
{
    let tx_refund = ladder.tx_refund();
    let tx_refund_encsig = encsign(&keys.x, &peer.s_bitcoin, &tx_refund.digest());
    let s_b = match recover_decryption_key(&peer.s_bitcoin, tx_refund_sig, &tx_refund_encsig) {
        Some(s) => s,
        None => return Err(Error::VerificationFailed),
    };
    let s_b = reverse_byte_order(&s_b);
    let spend_key = match ed_scalar_sum(&s_b, &keys.s) {
        Some(s) => s,
        None => return Err(Error::InvalidScalar),
    };
    Ok(MoneroKeys { spend_key, view_key: copy_bytes(v) })
}

/// Why Bob's first message is refused, if it is: first the verdict on his
/// proof, then his points, then his share of the view key.
pub open spec fn peer_keys_error(msg: bob::Message0, dleq_proof_valid: bool) -> Option<Error> {
    if !dleq_proof_valid {
        Some(Error::ProofInvalid)
    } else if !PeerKeys::points_valid(msg.b_public@, msg.s_b_bitcoin@, msg.s_b_monero@) {
        Some(Error::InvalidCurvePoint)
    } else if !ed_scalar_canonical(msg.v_b@) {
        Some(Error::InvalidScalar)
    } else {
        None
    }
}

/// Why Bob's lock transaction is refused, if it is.
pub open spec fn tx_lock_error(s: State1, msg: bob::Message1) -> Option<Error> {
    if msg.tx_lock.amount == s.params.btc && msg.tx_lock.a@ == s.keys.x_public@ && msg.tx_lock.b@
        == s.peer.x_public@ {
        None
    } else {
        Some(Error::TxLockMismatch)
    }
}

/// Why Bob's signatures of cancel and punish are refused, if they are.
pub open spec fn presigs_error(s: State2, msg: bob::Message2) -> Option<Error> {
    if bob_sigs_valid(s.ladder, s.peer, msg.tx_cancel_sig@, msg.tx_punish_sig@) {
        None
    } else {
        Some(Error::SignatureInvalid)
    }
}

/// Why Bob's adaptor signature of redeem is refused, if it is.
pub open spec fn redeem_encsig_error(s: State4b, msg: bob::Message3) -> Option<Error> {
    if encsig_valid_of(
        s.peer.x_public@,
        s.keys.s_bitcoin@,
        digest_of(s.ladder.redeem_spec()),
        msg.tx_redeem_encsig@,
    ) {
        None
    } else {
        Some(Error::SignatureInvalid)
    }
}

impl State0 {
    pub open spec fn wf(&self) -> bool {
        self.keys.wf() && self.params.wf()
    }

    /// Alice's first state, from her secrets: `a` signs on Bitcoin, `s_a` is
    /// her cross-curve secret and `v_a` her share of the view key.
    pub fn from_secrets(
        a: Vec<u8>,
        s_a: Vec<u8>,
        v_a: Vec<u8>,
        btc: u64,
        xmr: u64,
        refund_timelock: u32,
        punish_timelock: u32,
        redeem_address: Vec<u8>,
        punish_address: Vec<u8>,
    ) -> (r: Result<State0, Error>)
        ensures
            !(Params { btc, xmr, refund_timelock, punish_timelock }).wf() ==> r == Err::<
                State0,
                Error,
            >(Error::InvalidParameters),
            (Params { btc, xmr, refund_timelock, punish_timelock }).wf() ==> (r is Ok
                <==> PartyKeys::secrets_valid(a@, s_a@, v_a@)),
            r is Err ==> r->Err_0 == Error::InvalidParameters || r->Err_0 == Error::InvalidScalar,
            r is Ok ==> ({
                let s = r.unwrap();
                &&& s.wf()
                &&& s.keys.x == a && s.keys.s == s_a && s.keys.v == v_a
                &&& s.params == (Params { btc, xmr, refund_timelock, punish_timelock })
                &&& s.redeem_address == redeem_address && s.punish_address == punish_address
            }),
    {
        let params = Params::new(btc, xmr, refund_timelock, punish_timelock)?;
        let keys = PartyKeys::from_secrets(a, s_a, v_a)?;
        Ok(State0 { keys, params, redeem_address, punish_address })
    }

    /// Alice's first state, with freshly drawn keys.
    pub fn new(
        btc: u64,
        xmr: u64,
        refund_timelock: u32,
        punish_timelock: u32,
        redeem_address: Vec<u8>,
        punish_address: Vec<u8>,
    ) -> (r: Result<State0, Error>)
        ensures
            !(Params { btc, xmr, refund_timelock, punish_timelock }).wf() ==> r == Err::<
                State0,
                Error,
            >(Error::InvalidParameters),
            r is Ok <==> (Params { btc, xmr, refund_timelock, punish_timelock }).wf(),
            r is Ok ==> ({
                let s = r.unwrap();
                &&& s.wf()
                &&& s.params == (Params { btc, xmr, refund_timelock, punish_timelock })
                &&& s.redeem_address == redeem_address && s.punish_address == punish_address
            }),
    {
        let params = Params::new(btc, xmr, refund_timelock, punish_timelock)?;
        let keys = PartyKeys::generate();
        Ok(State0 { keys, params, redeem_address, punish_address })
    }

    /// Alice's first message; `dleq_proof_s_a` proves that her two images of
    /// `s_a` share their secret.
    pub fn next_message(&self, dleq_proof_s_a: Vec<u8>) -> (r: Message0)
        ensures
            r.a_public@ == self.keys.x_public@,
            r.s_a_monero@ == self.keys.s_monero@,
            r.s_a_bitcoin@ == self.keys.s_bitcoin@,
            r.dleq_proof_s_a == dleq_proof_s_a,
            r.v_a@ == self.keys.v@,
            r.redeem_address@ == self.redeem_address@,
            r.punish_address@ == self.punish_address@,
    {
        Message0 {
            a_public: copy_bytes(&self.keys.x_public),
            s_a_monero: copy_bytes(&self.keys.s_monero),
            s_a_bitcoin: copy_bytes(&self.keys.s_bitcoin),
            dleq_proof_s_a,
            v_a: copy_bytes(&self.keys.v),
            redeem_address: copy_bytes(&self.redeem_address),
            punish_address: copy_bytes(&self.punish_address),
        }
    }

    /// Why `receive` would refuse Bob's first message, without consuming
    /// anything.
    pub fn check_message0(&self, msg: &bob::Message0, dleq_proof_valid: bool) -> (r: Option<Error>)
        ensures
            r == peer_keys_error(*msg, dleq_proof_valid),
    {
        if !dleq_proof_valid {
            return Some(Error::ProofInvalid);
        }
        if !(secp_point_check(&msg.b_public) && secp_point_check(&msg.s_b_bitcoin) && ed_point_check(
            &msg.s_b_monero,
        )) {
            return Some(Error::InvalidCurvePoint);
        }
        if ed_public_key(&msg.v_b).is_none() {
            return Some(Error::InvalidScalar);
        }
        None
    }

    /// Takes Bob's first message. `dleq_proof_valid` is the verdict on his
    /// cross-curve proof for `s_b_bitcoin` and `s_b_monero`; nothing is
    /// accepted without it.
    pub fn receive(self, msg: bob::Message0, dleq_proof_valid: bool) -> (r: Result<State1, Error>)
        requires
            self.wf(),
        ensures
            !dleq_proof_valid ==> r == Err::<State1, Error>(Error::ProofInvalid),
            dleq_proof_valid && !PeerKeys::points_valid(
                msg.b_public@,
                msg.s_b_bitcoin@,
                msg.s_b_monero@,
            ) ==> r == Err::<State1, Error>(Error::InvalidCurvePoint),
            dleq_proof_valid && PeerKeys::points_valid(
                msg.b_public@,
                msg.s_b_bitcoin@,
                msg.s_b_monero@,
            ) && !ed_scalar_canonical(msg.v_b@) ==> r == Err::<State1, Error>(
                Error::InvalidScalar,
            ),
            r is Ok <==> dleq_proof_valid && PeerKeys::points_valid(
                msg.b_public@,
                msg.s_b_bitcoin@,
                msg.s_b_monero@,
            ) && ed_scalar_canonical(msg.v_b@),
            r is Ok ==> after_peer_keys(self, msg, r.unwrap()),
    {
        if !dleq_proof_valid {
            return Err(Error::ProofInvalid);
        }
        let peer = PeerKeys::check(msg.b_public, msg.s_b_bitcoin, msg.s_b_monero)?;
        proof {
            crate::crypto::lemma_ed_scalar_sum_canonical(self.keys.v@, msg.v_b@);
        }
        let v = match ed_scalar_sum(&self.keys.v, &msg.v_b) {
            Some(v) => v,
            None => return Err(Error::InvalidScalar),
        };
        Ok(State1 {
            keys: self.keys,
            params: self.params,
            peer,
            v,
            redeem_address: self.redeem_address,
            punish_address: self.punish_address,
            refund_address: msg.refund_address,
        })
    }
}

impl State1 {
    pub open spec fn wf(&self) -> bool {
        &&& self.keys.wf()
        &&& self.params.wf()
        &&& self.peer.wf()
        &&& ed_scalar_canonical(self.v@)
    }

    /// Why `receive` would refuse Bob's lock transaction, without consuming
    /// anything.
    pub fn check_message1(&self, msg: &bob::Message1) -> (r: Option<Error>)
        ensures
            r == tx_lock_error(*self, *msg),
    {
        if msg.tx_lock.amount != self.params.btc || !same_bytes(&msg.tx_lock.a, &self.keys.x_public)
            || !same_bytes(&msg.tx_lock.b, &self.peer.x_public) {
            Some(Error::TxLockMismatch)
        } else {
            None
        }
    }

    /// Takes the lock transaction that Bob's wallet built; it must pay the
    /// agreed amount to the 2-of-2 output of Alice's and Bob's keys.
    pub fn receive(self, msg: bob::Message1) -> (r: Result<State2, Error>)
        requires
            self.wf(),
        ensures
            r is Ok <==> (msg.tx_lock.amount == self.params.btc && msg.tx_lock.a@
                == self.keys.x_public@ && msg.tx_lock.b@ == self.peer.x_public@),
            r is Err ==> r == Err::<State2, Error>(Error::TxLockMismatch),
            r is Ok ==> after_tx_lock(self, msg, r.unwrap()),
    {
        if msg.tx_lock.amount != self.params.btc || !same_bytes(&msg.tx_lock.a, &self.keys.x_public)
            || !same_bytes(&msg.tx_lock.b, &self.peer.x_public) {
            return Err(Error::TxLockMismatch);
        }
        let ladder = Ladder {
            tx_lock: msg.tx_lock,
            refund_timelock: self.params.refund_timelock,
            punish_timelock: self.params.punish_timelock,
            refund_address: self.refund_address,
            redeem_address: self.redeem_address,
            punish_address: self.punish_address,
        };
        Ok(State2 { keys: self.keys, params: self.params, peer: self.peer, v: self.v, ladder })
    }
}

impl State2 {
    pub open spec fn wf(&self) -> bool {
        &&& self.keys.wf()
        &&& self.params.wf()
        &&& self.peer.wf()
        &&& ed_scalar_canonical(self.v@)
        &&& ladder_matches(self.ladder, self.keys, self.peer, self.params)
    }

    /// Alice's signature of cancel, and her adaptor signature of refund
    /// encrypted to Bob's `s_b`: if Bob refunds, he reveals `s_b` to her.
    pub fn next_message(&self) -> (r: Message1)
        requires
            self.wf(),
        ensures
            r.tx_cancel_sig@ == ecdsa_sig_of(self.keys.x@, digest_of(self.ladder.cancel_spec())),
            r.tx_refund_encsig@ == encsig_of(
                self.keys.x@,
                self.peer.s_bitcoin@,
                digest_of(self.ladder.refund_spec()),
            ),
    {
        let tx_cancel = self.ladder.tx_cancel();
        let tx_refund = self.ladder.tx_refund();
        let tx_refund_encsig = encsign(&self.keys.x, &self.peer.s_bitcoin, &tx_refund.digest());
        let tx_cancel_sig = ecdsa_sign(&self.keys.x, &tx_cancel.digest());
        Message1 { tx_cancel_sig, tx_refund_encsig }
    }

    /// Why `receive` would refuse Bob's signatures, without consuming anything.
    pub fn check_message2(&self, msg: &bob::Message2) -> (r: Option<Error>)
        requires
            self.wf(),
        ensures
            r == presigs_error(*self, *msg),
    {
        let tx_cancel = self.ladder.tx_cancel();
        let tx_punish = self.ladder.tx_punish();
        if ecdsa_verify(&self.peer.x_public, &tx_cancel.digest(), &msg.tx_cancel_sig) && ecdsa_verify(
            &self.peer.x_public,
            &tx_punish.digest(),
            &msg.tx_punish_sig,
        ) {
            None
        } else {
            Some(Error::SignatureInvalid)
        }
    }

    /// Takes Bob's signatures of cancel and punish; both must verify under
    /// his key.
    pub fn receive(self, msg: bob::Message2) -> (r: Result<State3, Error>)
        requires
            self.wf(),
        ensures
            r is Ok <==> bob_sigs_valid(self.ladder, self.peer, msg.tx_cancel_sig@, msg.tx_punish_sig@),
            r is Err ==> r == Err::<State3, Error>(Error::SignatureInvalid),
            r is Ok ==> after_presigs(self, msg, r.unwrap()),
    {
        let tx_cancel = self.ladder.tx_cancel();
        if !ecdsa_verify(&self.peer.x_public, &tx_cancel.digest(), &msg.tx_cancel_sig) {
            return Err(Error::SignatureInvalid);
        }
        let tx_punish = self.ladder.tx_punish();
        if !ecdsa_verify(&self.peer.x_public, &tx_punish.digest(), &msg.tx_punish_sig) {
            return Err(Error::SignatureInvalid);
        }
        Ok(State3 {
            keys: self.keys,
            params: self.params,
            peer: self.peer,
            v: self.v,
            ladder: self.ladder,
            tx_cancel_sig_bob: msg.tx_cancel_sig,
            tx_punish_sig_bob: msg.tx_punish_sig,
        })
    }
}

impl State3 {
    pub open spec fn wf(&self) -> bool {
        &&& self.keys.wf()
        &&& self.params.wf()
        &&& self.peer.wf()
        &&& ed_scalar_canonical(self.v@)
        &&& ladder_matches(self.ladder, self.keys, self.peer, self.params)
        &&& bob_sigs_valid(self.ladder, self.peer, self.tx_cancel_sig_bob@, self.tx_punish_sig_bob@)
    }

    /// The id of the lock transaction, for the wallet to watch.
    pub fn tx_lock_id(&self) -> (r: Vec<u8>)
        ensures
            r@ == self.ladder.tx_lock.txid@,
    {
        self.ladder.tx_lock.txid()
    }

    /// Moves on once the wallet has seen the lock transaction confirmed.
    pub fn watch_for_lock_btc(self) -> (r: State4)
        requires
            self.wf(),
        ensures
            after_lock_confirmed(self, r),
    {
        State4 {
            keys: self.keys,
            params: self.params,
            peer: self.peer,
            v: self.v,
            ladder: self.ladder,
            tx_cancel_sig_bob: self.tx_cancel_sig_bob,
            tx_punish_sig_bob: self.tx_punish_sig_bob,
        }
    }
}

impl State4 {
    pub open spec fn wf(&self) -> bool {
        &&& self.keys.wf()
        &&& self.params.wf()
        &&& self.peer.wf()
        &&& ed_scalar_canonical(self.v@)
        &&& ladder_matches(self.ladder, self.keys, self.peer, self.params)
        &&& bob_sigs_valid(self.ladder, self.peer, self.tx_cancel_sig_bob@, self.tx_punish_sig_bob@)
    }

    /// The Monero transfer that locks `xmr`: to the sum of both parties' spend
    /// points, seen by the combined view key.
    pub fn lock_xmr_request(&self) -> (r: Result<TransferRequest, Error>)
        requires
            self.wf(),
        ensures
            r is Ok,
            r is Err ==> r == Err::<TransferRequest, Error>(Error::InvalidCurvePoint),
            r is Ok ==> ({
                let t = r.unwrap();
                &&& t.spend_point@ == ed_point_sum_of(self.keys.s_monero@, self.peer.s_monero@)
                &&& t.view_point@ == ed_public_of(self.v@)
                &&& t.amount == self.params.xmr
            }),
    {
        let spend_point = match ed_point_sum(&self.keys.s_monero, &self.peer.s_monero) {
            Some(p) => p,
            None => return Err(Error::InvalidCurvePoint),
        };
        let view_point = match ed_public_key(&self.v) {
            Some(p) => p,
            None => return Err(Error::InvalidScalar),
        };
        Ok(TransferRequest { spend_point, view_point, amount: self.params.xmr })
    }

    /// Moves on once the wallet has made the transfer, with its proof and fee.
    pub fn lock_xmr(self, tx_lock_proof: TransferProof, fee: u64) -> (r: State4b)
        requires
            self.wf(),
        ensures
            after_xmr_locked(self, tx_lock_proof, fee, r),
    {
        State4b {
            keys: self.keys,
            params: self.params,
            peer: self.peer,
            v: self.v,
            ladder: self.ladder,
            tx_cancel_sig_bob: self.tx_cancel_sig_bob,
            tx_punish_sig_bob: self.tx_punish_sig_bob,
            tx_lock_proof,
            lock_xmr_fee: fee,
        }
    }

    /// The cancel and punish transactions, each with Alice's signature and
    /// Bob's: the wallet broadcasts cancel once `refund_timelock` blocks have
    /// passed since the lock, and punish `punish_timelock` blocks after cancel.
    pub fn punish(&self) -> (r: (SignedTransaction, SignedTransaction))
        requires
            self.wf(),
        ensures
            punish_pair_matches(r, self.keys, self.peer, self.ladder, self.tx_cancel_sig_bob@, self.tx_punish_sig_bob@),
    {
        punish_transactions(&self.keys, &self.peer, &self.ladder, &self.tx_cancel_sig_bob, &self.tx_punish_sig_bob)
    }
}

impl State4b {
    pub open spec fn wf(&self) -> bool {
        &&& self.keys.wf()
        &&& self.params.wf()
        &&& self.peer.wf()
        &&& ed_scalar_canonical(self.v@)
        &&& ladder_matches(self.ladder, self.keys, self.peer, self.params)
        &&& bob_sigs_valid(self.ladder, self.peer, self.tx_cancel_sig_bob@, self.tx_punish_sig_bob@)
    }

    /// The proof of the Monero transfer, for Bob.
    pub fn next_message(&self) -> (r: Message2)
        ensures
            r.tx_lock_proof.tx_hash@ == self.tx_lock_proof.tx_hash@,
            r.tx_lock_proof.tx_key@ == self.tx_lock_proof.tx_key@,
    {
        Message2 {
            tx_lock_proof: TransferProof {
                tx_hash: copy_bytes(&self.tx_lock_proof.tx_hash),
                tx_key: copy_bytes(&self.tx_lock_proof.tx_key),
            },
        }
    }

    /// Why `receive` would refuse Bob's adaptor signature, without consuming
    /// anything.
    pub fn check_message3(&self, msg: &bob::Message3) -> (r: Option<Error>)
        requires
            self.wf(),
        ensures
            r == redeem_encsig_error(*self, *msg),
    {
        let tx_redeem = self.ladder.tx_redeem();
        if encsig_verify(
            &self.peer.x_public,
            &self.keys.s_bitcoin,
            &tx_redeem.digest(),
            &msg.tx_redeem_encsig,
        ) {
            None
        } else {
            Some(Error::SignatureInvalid)
        }
    }

    /// Takes Bob's adaptor signature of redeem; it must decrypt, with Alice's
    /// `s_a`, to a signature of redeem under Bob's key.
    pub fn receive(self, msg: bob::Message3) -> (r: Result<State5, Error>)
        requires
            self.wf(),
        ensures
            r is Ok <==> encsig_valid_of(
                self.peer.x_public@,
                self.keys.s_bitcoin@,
                digest_of(self.ladder.redeem_spec()),
                msg.tx_redeem_encsig@,
            ),
            r is Err ==> r == Err::<State5, Error>(Error::SignatureInvalid),
            r is Ok ==> after_redeem_encsig(self, msg, r.unwrap()),
    {
        let tx_redeem = self.ladder.tx_redeem();
        if !encsig_verify(
            &self.peer.x_public,
            &self.keys.s_bitcoin,
            &tx_redeem.digest(),
            &msg.tx_redeem_encsig,
        ) {
            return Err(Error::SignatureInvalid);
        }
        Ok(State5 {
            keys: self.keys,
            params: self.params,
            peer: self.peer,
            v: self.v,
            ladder: self.ladder,
            tx_punish_sig_bob: self.tx_punish_sig_bob,
            tx_lock_proof: self.tx_lock_proof,
            lock_xmr_fee: self.lock_xmr_fee,
            tx_redeem_encsig: msg.tx_redeem_encsig,
        })
    }

    /// The id of the refund transaction, for the wallet to watch.
    pub fn tx_refund_id(&self) -> (r: Vec<u8>)
        requires
            self.wf(),
        ensures
            r@ == crate::bitcoin::txid_of(self.ladder.refund_spec()),
    {
        self.ladder.tx_refund().txid()
    }

    /// Once Bob has published the refund transaction, his signature in it
    /// (`tx_refund_sig`) and Alice's adaptor signature reveal his `s_b`; with
    /// her `s_a` it gives the spend key of the locked Monero.
    pub fn refund_xmr(&self, tx_refund_sig: &Vec<u8>) -> (r: Result<MoneroKeys, Error>)
        requires
            self.wf(),
        ensures
            refund_keys_match(r, self.keys, self.peer, self.ladder, self.v@, tx_refund_sig@),
    {
        refund_keys(&self.keys, &self.peer, &self.ladder, &self.v, tx_refund_sig)
    }

    /// The punish branch, as from the lock confirmed on.
    pub fn punish(&self) -> (r: (SignedTransaction, SignedTransaction))
        requires
            self.wf(),
        ensures
            punish_pair_matches(r, self.keys, self.peer, self.ladder, self.tx_cancel_sig_bob@, self.tx_punish_sig_bob@),
    {
        punish_transactions(&self.keys, &self.peer, &self.ladder, &self.tx_cancel_sig_bob, &self.tx_punish_sig_bob)
    }
}

impl State5 {
    pub open spec fn wf(&self) -> bool {
        &&& self.keys.wf()
        &&& self.params.wf()
        &&& self.peer.wf()
        &&& ed_scalar_canonical(self.v@)
        &&& ladder_matches(self.ladder, self.keys, self.peer, self.params)
        &&& encsig_valid_of(
            self.peer.x_public@,
            self.keys.s_bitcoin@,
            digest_of(self.ladder.redeem_spec()),
            self.tx_redeem_encsig@,
        )
    }

    /// The redeem transaction with Alice's signature and Bob's, which Alice
    /// decrypts with her `s_a` and checks under Bob's key. Publishing it
    /// reveals `s_a` to Bob.
    pub fn redeem_btc(&self) -> (r: Result<SignedTransaction, Error>)
        requires
            self.wf(),
        ensures
            ({
                let dec = decrypted_of(reverse_bytes(self.keys.s@), self.tx_redeem_encsig@);
                let digest = digest_of(self.ladder.redeem_spec());
                &&& r is Ok <==> (dec is Some && ecdsa_valid_of(self.peer.x_public@, digest, dec->0))
                &&& r is Err ==> r == Err::<SignedTransaction, Error>(Error::VerificationFailed)
                &&& r is Ok ==> ({
                    let t = r.unwrap();
                    &&& t.tx@ == self.ladder.redeem_spec()
                    &&& t.a@ == self.keys.x_public@
                    &&& t.sig_a@ == ecdsa_sig_of(self.keys.x@, digest)
                    &&& t.b@ == self.peer.x_public@
                    &&& t.sig_b@ == dec->0
                    &&& ecdsa_valid_of(self.peer.x_public@, digest, t.sig_b@)
                })
            }),
    {
        let tx_redeem = self.ladder.tx_redeem();
        let digest = tx_redeem.digest();
        let sig_a = ecdsa_sign(&self.keys.x, &digest);
        let s_a = reverse_byte_order(&self.keys.s);
        let sig_b = match decrypt_signature(&s_a, &self.tx_redeem_encsig) {
            Some(s) => s,
            None => return Err(Error::VerificationFailed),
        };
        if !ecdsa_verify(&self.peer.x_public, &digest, &sig_b) {
            return Err(Error::VerificationFailed);
        }
        Ok(SignedTransaction {
            tx: tx_redeem,
            a: copy_bytes(&self.keys.x_public),
            sig_a,
            b: copy_bytes(&self.peer.x_public),
            sig_b,
        })
    }

    /// The id of the refund transaction, for the wallet to watch.
    pub fn tx_refund_id(&self) -> (r: Vec<u8>)
        requires
            self.wf(),
        ensures
            r@ == crate::bitcoin::txid_of(self.ladder.refund_spec()),
    {
        self.ladder.tx_refund().txid()
    }

    /// The refund branch, as from the Monero locked on.
    pub fn refund_xmr(&self, tx_refund_sig: &Vec<u8>) -> (r: Result<MoneroKeys, Error>)
        requires
            self.wf(),
        ensures
            refund_keys_match(r, self.keys, self.peer, self.ladder, self.v@, tx_refund_sig@),
    {
        refund_keys(&self.keys, &self.peer, &self.ladder, &self.v, tx_refund_sig)
    }

    pub fn lock_xmr_fee(&self) -> (r: u64)
        ensures
            r == self.lock_xmr_fee,
    {
        self.lock_xmr_fee
    }
}

impl State {
    pub open spec fn wf(&self) -> bool {
        match self {
            State::State0(s) => s.wf(),
            State::State1(s) => s.wf(),
            State::State2(s) => s.wf(),
            State::State3(s) => s.wf(),
            State::State4(s) => s.wf(),
            State::State4b(s) => s.wf(),
            State::State5(s) => s.wf(),
        }
    }

    /// How far along the swap a state is; each step moves one further.
    pub open spec fn stage(&self) -> nat {
        match self {
            State::State0(_) => 0,
            State::State1(_) => 1,
            State::State2(_) => 2,
            State::State3(_) => 3,
            State::State4(_) => 4,
            State::State4b(_) => 5,
            State::State5(_) => 6,
        }
    }

    /// Alice's first state, with freshly drawn keys.
    pub fn new(
        btc: u64,
        xmr: u64,
        refund_timelock: u32,
        punish_timelock: u32,
        redeem_address: Vec<u8>,
        punish_address: Vec<u8>,
    ) -> (r: Result<State, Error>)
        ensures
            !(Params { btc, xmr, refund_timelock, punish_timelock }).wf() ==> r == Err::<
                State,
                Error,
            >(Error::InvalidParameters),
            r is Ok <==> (Params { btc, xmr, refund_timelock, punish_timelock }).wf(),
            r is Ok ==> r.unwrap() is State0 && r.unwrap().wf(),
            r is Ok ==> ({
                let s = r.unwrap()->State0_0;
                &&& s.params == (Params { btc, xmr, refund_timelock, punish_timelock })
                &&& s.redeem_address == redeem_address && s.punish_address == punish_address
            }),
    {
        let s = State0::new(
            btc,
            xmr,
            refund_timelock,
            punish_timelock,
            redeem_address,
            punish_address,
        )?;
        Ok(State::State0(s))
    }
}

/// Whether Alice holds Bob's adaptor signature of redeem: the last state,
/// from which she redeems.
pub fn is_state5(state: &State) -> (r: bool)
    ensures
        r == (state is State5),
{
    match state {
        State::State5(_) => true,
        _ => false,
    }
}

/// Whether Alice has locked her Monero and waits for Bob's last message.
pub fn is_state4b(state: &State) -> (r: bool)
    ensures
        r == (state is State4b),
{
    match state {
        State::State4b(_) => true,
        _ => false,
    }
}

/// Whether Alice has seen the lock transaction confirmed: from here on she
/// may punish.
pub fn is_state4(state: &State) -> (r: bool)
    ensures
        r == (state is State4),
{
    match state {
        State::State4(_) => true,
        _ => false,
    }
}

} // verus!
