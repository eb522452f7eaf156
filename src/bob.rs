//! The buyer's side of a swap: Bob locks bitcoin and receives monero.
//!
//! As on Alice's side, each step that checks what the counterparty sent has
//! a `check_*` method that consumes nothing.
use vstd::prelude::*;

use crate::alice;
use crate::bitcoin::{digest_of, Ladder, SignedTransaction, TxLock};
use crate::crypto::{
    ed_point_check, secp_point_check,
    decrypt_signature, decrypted_of, ecdsa_sig_of, ecdsa_sign, ecdsa_valid_of, ecdsa_verify,
    ed_point_sum, ed_point_sum_of, ed_point_valid, ed_public_key, ed_public_of, ed_scalar_canonical,
    ed_scalar_sum, ed_scalar_sum_of, encsig_of, encsig_valid_of, encsig_verify, encsign,
    recover_decryption_key, recovered_of, reverse_byte_order, reverse_bytes, secp_public_of,
    secp_scalar_valid,
};
use crate::monero::{MoneroKeys, TransferProof, TransferRequest};
use crate::protocol::{copy_bytes, Error, Params, PartyKeys, PeerKeys};

pub mod node;

verus! {

/// Bob's keys, his proof and his refund address.
#[derive(Clone, Debug)]
pub struct Message0 {
    pub b_public: Vec<u8>,
    pub s_b_monero: Vec<u8>,
    pub s_b_bitcoin: Vec<u8>,
    pub dleq_proof_s_b: Vec<u8>,
    pub v_b: Vec<u8>,
    pub refund_address: Vec<u8>,
}

/// The lock transaction that Bob's wallet built.
#[derive(Clone, Debug)]
pub struct Message1 {
    pub tx_lock: TxLock,
}

/// Bob's signatures of the cancel and punish transactions.
#[derive(Clone, Debug)]
pub struct Message2 {
    pub tx_punish_sig: Vec<u8>,
    pub tx_cancel_sig: Vec<u8>,
}

/// Bob's adaptor signature of the redeem transaction, encrypted to Alice.
#[derive(Clone, Debug)]
pub struct Message3 {
    pub tx_redeem_encsig: String,
}

/// A message that Bob sends.
#[derive(Clone, Debug)]
pub enum Message {
    Message0(Message0),
    Message1(Message1),
    Message2(Message2),
    Message3(Message3),
}

/// A message of another kind than the one awaited.
#[derive(Clone, Debug)]
pub struct UnexpectedMessage {
    pub expected_type: String,
    pub received: Message,
}

impl UnexpectedMessage {
    pub fn new(expected_type: &str, received: Message) -> (r: UnexpectedMessage)
        ensures
            r.expected_type@ == expected_type@,
            r.received == received,
    {
        UnexpectedMessage { expected_type: expected_type.to_owned(), received }
    }
}

impl Message0 {
    pub fn try_from(m: Message) -> (r: Result<Message0, UnexpectedMessage>)
        ensures
            m is Message0 ==> r == Ok::<Message0, UnexpectedMessage>(m->Message0_0),
            !(m is Message0) ==> r is Err && r->Err_0.received == m,
    {
        match m {
            Message::Message0(m) => Ok(m),
            _ => Err(UnexpectedMessage::new("Message0", m)),
        }
    }
}

impl Message1 {
    pub fn try_from(m: Message) -> (r: Result<Message1, UnexpectedMessage>)
        ensures
            m is Message1 ==> r == Ok::<Message1, UnexpectedMessage>(m->Message1_0),
            !(m is Message1) ==> r is Err && r->Err_0.received == m,
    {
        match m {
            Message::Message1(m) => Ok(m),
            _ => Err(UnexpectedMessage::new("Message1", m)),
        }
    }
}

impl Message2 {
    pub fn try_from(m: Message) -> (r: Result<Message2, UnexpectedMessage>)
        ensures
            m is Message2 ==> r == Ok::<Message2, UnexpectedMessage>(m->Message2_0),
            !(m is Message2) ==> r is Err && r->Err_0.received == m,
    {
        match m {
            Message::Message2(m) => Ok(m),
            _ => Err(UnexpectedMessage::new("Message2", m)),
        }
    }
}

impl Message3 {
    pub fn try_from(m: Message) -> (r: Result<Message3, UnexpectedMessage>)
        ensures
            m is Message3 ==> r == Ok::<Message3, UnexpectedMessage>(m->Message3_0),
            !(m is Message3) ==> r is Err && r->Err_0.received == m,
    {
        match m {
            Message::Message3(m) => Ok(m),
            _ => Err(UnexpectedMessage::new("Message3", m)),
        }
    }
}

/// Bob's state before any message: his keys, the parameters and his refund address.
#[derive(Clone, Debug)]
pub struct State0 {
    pub keys: PartyKeys,
    pub params: Params,
    pub refund_address: Vec<u8>,
}

/// Keys exchanged, Alice's proof checked and the lock transaction built.
#[derive(Clone, Debug)]
pub struct State1 {
    pub keys: PartyKeys,
    pub params: Params,
    pub peer: PeerKeys,
    pub v: Vec<u8>,
    pub ladder: Ladder,
}

/// Alice's signature of cancel and her adaptor signature of refund checked.
#[derive(Clone, Debug)]
pub struct State2 {
    pub keys: PartyKeys,
    pub params: Params,
    pub peer: PeerKeys,
    pub v: Vec<u8>,
    pub ladder: Ladder,
    pub tx_cancel_sig_alice: Vec<u8>,
    pub tx_refund_encsig: String,
}

/// The lock transaction broadcast.
#[derive(Clone, Debug)]
pub struct State2b {
    pub keys: PartyKeys,
    pub params: Params,
    pub peer: PeerKeys,
    pub v: Vec<u8>,
    pub ladder: Ladder,
    pub tx_cancel_sig_alice: Vec<u8>,
    pub tx_refund_encsig: String,
}

/// Alice's Monero transfer checked.
#[derive(Clone, Debug)]
pub struct State3 {
    pub keys: PartyKeys,
    pub params: Params,
    pub peer: PeerKeys,
    pub v: Vec<u8>,
    pub ladder: Ladder,
    pub tx_cancel_sig_alice: Vec<u8>,
    pub tx_refund_encsig: String,
    pub tx_lock_proof: TransferProof,
}

/// Alice's `s_a` recovered from her redeem transaction (little-endian).
#[derive(Clone, Debug)]
pub struct State4 {
    pub keys: PartyKeys,
    pub params: Params,
    pub peer: PeerKeys,
    pub v: Vec<u8>,
    pub ladder: Ladder,
    pub s_a: Vec<u8>,
}

/// Any of Bob's states.
#[derive(Clone, Debug)]
pub enum State {
    State0(State0),
    State1(State1),
    State2(State2),
    State2b(State2b),
    State3(State3),
    State4(State4),
}

/// What holds of the ladder once Bob knows it: it is built from Alice's key,
/// his own, the agreed amount and timelocks, and his refund address.
pub open spec fn ladder_matches(
    ladder: Ladder,
    keys: PartyKeys,
    peer: PeerKeys,
    params: Params,
) -> bool {
    &&& ladder.wf()
    &&& ladder.tx_lock.amount == params.btc
    &&& ladder.tx_lock.a@ == peer.x_public@
    &&& ladder.tx_lock.b@ == keys.x_public@
    &&& ladder.refund_timelock == params.refund_timelock
    &&& ladder.punish_timelock == params.punish_timelock
}

/// Alice's signature of cancel verifies under her key, and her adaptor
/// signature of refund decrypts with Bob's `s_b` to a signature of refund.
pub open spec fn alice_sigs_valid(
    ladder: Ladder,
    keys: PartyKeys,
    peer: PeerKeys,
    cancel_sig: Seq<u8>,
    refund_encsig: Seq<char>,
) -> bool {
    &&& ecdsa_valid_of(peer.x_public@, digest_of(ladder.cancel_spec()), cancel_sig)
    &&& encsig_valid_of(peer.x_public@, keys.s_bitcoin@, digest_of(ladder.refund_spec()), refund_encsig)
}

/// The pair that `refund_btc` returns: cancel with both signatures, and
/// refund with Bob's signature and Alice's, decrypted with his `s_b`.
pub open spec fn refund_pair_matches(
    r: (SignedTransaction, SignedTransaction),
    keys: PartyKeys,
    peer: PeerKeys,
    ladder: Ladder,
    cancel_sig_alice: Seq<u8>,
    refund_sig_alice: Seq<u8>,
) -> bool {
    &&& r.0.tx@ == ladder.cancel_spec()
    &&& r.0.a@ == peer.x_public@ && r.0.sig_a@ == cancel_sig_alice
    &&& r.0.b@ == keys.x_public@
    &&& r.0.sig_b@ == ecdsa_sig_of(keys.x@, digest_of(ladder.cancel_spec()))
    &&& r.1.tx@ == ladder.refund_spec()
    &&& r.1.a@ == peer.x_public@ && r.1.sig_a@ == refund_sig_alice
    &&& ecdsa_valid_of(peer.x_public@, digest_of(ladder.refund_spec()), refund_sig_alice)
    &&& r.1.b@ == keys.x_public@
    &&& r.1.sig_b@ == ecdsa_sig_of(keys.x@, digest_of(ladder.refund_spec()))
}

/// State1 as `State0::receive` makes it from Alice's first message and the lock's id.
pub open spec fn after_peer_keys(prev: State0, msg: alice::Message0, tx_lock_txid: Vec<u8>, s: State1) -> bool {
    &&& s.wf()
    &&& s.keys == prev.keys && s.params == prev.params
    &&& s.peer.x_public == msg.a_public && s.peer.s_bitcoin == msg.s_a_bitcoin
    &&& s.peer.s_monero == msg.s_a_monero
    &&& s.v@ == ed_scalar_sum_of(msg.v_a@, prev.keys.v@)
    &&& s.ladder.tx_lock.txid == tx_lock_txid
    &&& s.ladder.refund_address == prev.refund_address
    &&& s.ladder.redeem_address == msg.redeem_address
    &&& s.ladder.punish_address == msg.punish_address
}

/// State2 as `State1::receive` makes it from Alice's signatures.
pub open spec fn after_presigs(prev: State1, msg: alice::Message1, s: State2) -> bool {
    &&& s.wf()
    &&& s.keys == prev.keys && s.params == prev.params && s.peer == prev.peer
    &&& s.v == prev.v && s.ladder == prev.ladder
    &&& s.tx_cancel_sig_alice == msg.tx_cancel_sig
    &&& s.tx_refund_encsig == msg.tx_refund_encsig
}

/// State3 as `State2b::watch_for_lock_xmr` makes it from Alice's transfer proof.
pub open spec fn after_xmr_checked(prev: State2b, msg: alice::Message2, s: State3) -> bool {
    &&& s.wf()
    &&& s.keys == prev.keys && s.params == prev.params && s.peer == prev.peer
    &&& s.v == prev.v && s.ladder == prev.ladder
    &&& s.tx_cancel_sig_alice == prev.tx_cancel_sig_alice
    &&& s.tx_refund_encsig == prev.tx_refund_encsig
    &&& s.tx_lock_proof == msg.tx_lock_proof
}

/// State4 as `State3::watch_for_redeem_btc` makes it from Bob's signature
/// in Alice's redeem transaction.
pub open spec fn after_redeem_seen(prev: State3, tx_redeem_sig: Seq<u8>, s: State4) -> bool {
    let e = encsig_of(prev.keys.x@, prev.peer.s_bitcoin@, digest_of(prev.ladder.redeem_spec()));
    &&& forall|k: Seq<u8>|
        secp_scalar_valid(k) && secp_public_of(k) == prev.peer.s_bitcoin@ && #[trigger] decrypted_of(
            k,
            e,
        ) == Some(tx_redeem_sig) ==> s.s_a@ == reverse_bytes(k)
    &&& s.wf()
    &&& s.keys == prev.keys && s.params == prev.params && s.peer == prev.peer
    &&& s.v == prev.v && s.ladder == prev.ladder
    &&& recovered_of(prev.peer.s_bitcoin@, tx_redeem_sig, e) is Some
    &&& s.s_a@ == reverse_bytes(recovered_of(prev.peer.s_bitcoin@, tx_redeem_sig, e)->0)
}

/// State2b as `State2::lock_btc` makes it.
pub open spec fn after_lock_broadcast(prev: State2, s: State2b) -> bool {
    &&& s.wf()
    &&& s.keys == prev.keys && s.params == prev.params && s.peer == prev.peer
    &&& s.v == prev.v && s.ladder == prev.ladder
    &&& s.tx_cancel_sig_alice == prev.tx_cancel_sig_alice
    &&& s.tx_refund_encsig == prev.tx_refund_encsig
}

/// Why Alice's first message is refused, if it is: first the verdict on
/// her proof, then her points, then her share of the view key.
pub open spec fn peer_keys_error(msg: alice::Message0, dleq_proof_valid: bool) -> Option<Error> {
    if !dleq_proof_valid {
        Some(Error::ProofInvalid)
    } else if !PeerKeys::points_valid(msg.a_public@, msg.s_a_bitcoin@, msg.s_a_monero@) {
        Some(Error::InvalidCurvePoint)
    } else if !ed_scalar_canonical(msg.v_a@) {
        Some(Error::InvalidScalar)
    } else {
        None
    }
}

/// Why Alice's signature of cancel and adaptor signature of refund are
/// refused, if they are.
pub open spec fn presigs_error(s: State1, msg: alice::Message1) -> Option<Error> {
    if alice_sigs_valid(s.ladder, s.keys, s.peer, msg.tx_cancel_sig@, msg.tx_refund_encsig@) {
        None
    } else {
        Some(Error::SignatureInvalid)
    }
}

/// Why Bob's signature in Alice's redeem transaction reveals no key, if it
/// does not.
pub open spec fn redeem_sig_error(s: State3, tx_redeem_sig: Seq<u8>) -> Option<Error> {
    let e = encsig_of(s.keys.x@, s.peer.s_bitcoin@, digest_of(s.ladder.redeem_spec()));
    if recovered_of(s.peer.s_bitcoin@, tx_redeem_sig, e) is Some {
        None
    } else {
        Some(Error::VerificationFailed)
    }
}

/// Cancel and refund, both signed, from what Bob holds once Alice's
/// signatures are checked.
fn refund_transactions(
    keys: &PartyKeys,
    peer: &PeerKeys,
    ladder: &Ladder,
    tx_cancel_sig_alice: &Vec<u8>,
    tx_refund_encsig: &String,
) -> (r: Result<(SignedTransaction, SignedTransaction), Error>)
    requires
        keys.wf(),
        ladder.wf(),
    ensures
        ({
            let dec = decrypted_of(reverse_bytes(keys.s@), tx_refund_encsig@);
            &&& r is Ok <==> (dec is Some && ecdsa_valid_of(
                peer.x_public@,
                digest_of(ladder.refund_spec()),
                dec->0,
            ))
            &&& r is Err ==> r->Err_0 == Error::VerificationFailed
            &&& r is Ok ==> refund_pair_matches(
                r.unwrap(),
                *keys,
                *peer,
                *ladder,
                tx_cancel_sig_alice@,
                dec->0,
            )
        }),
{
    let tx_cancel = ladder.tx_cancel();
    let sig_b = ecdsa_sign(&keys.x, &tx_cancel.digest());
    let signed_cancel = SignedTransaction {
        tx: tx_cancel,
        a: copy_bytes(&peer.x_public),
        sig_a: copy_bytes(tx_cancel_sig_alice),
        b: copy_bytes(&keys.x_public),
        sig_b,
    };
    let tx_refund = ladder.tx_refund();
    let digest = tx_refund.digest();
    let sig_b = ecdsa_sign(&keys.x, &digest);
    let s_b = reverse_byte_order(&keys.s);
    let sig_a = match decrypt_signature(&s_b, tx_refund_encsig) {
        Some(s) => s,
        None => return Err(Error::VerificationFailed),
    };
    if !ecdsa_verify(&peer.x_public, &digest, &sig_a) {
        return Err(Error::VerificationFailed);
    }
    let signed_refund = SignedTransaction {
        tx: tx_refund,
        a: copy_bytes(&peer.x_public),
        sig_a,
        b: copy_bytes(&keys.x_public),
        sig_b,
    };
    Ok((signed_cancel, signed_refund))
}

impl State0 {
    pub open spec fn wf(&self) -> bool {
        self.keys.wf() && self.params.wf()
    }

    /// Bob's first state, from his secrets: `b` signs on Bitcoin, `s_b` is
    /// his cross-curve secret and `v_b` his share of the view key.
    pub fn from_secrets(
        b: Vec<u8>,
        s_b: Vec<u8>,
        v_b: Vec<u8>,
        btc: u64,
        xmr: u64,
        refund_timelock: u32,
        punish_timelock: u32,
        refund_address: Vec<u8>,
    ) -> (r: Result<State0, Error>)
        ensures
            !(Params { btc, xmr, refund_timelock, punish_timelock }).wf() ==> r == Err::<
                State0,
                Error,
            >(Error::InvalidParameters),
            (Params { btc, xmr, refund_timelock, punish_timelock }).wf() ==> (r is Ok
                <==> PartyKeys::secrets_valid(b@, s_b@, v_b@)),
            r is Err ==> r->Err_0 == Error::InvalidParameters || r->Err_0 == Error::InvalidScalar,
            r is Ok ==> ({
                let s = r.unwrap();
                &&& s.wf()
                &&& s.keys.x == b && s.keys.s == s_b && s.keys.v == v_b
                &&& s.params == (Params { btc, xmr, refund_timelock, punish_timelock })
                &&& s.refund_address == refund_address
            }),
    {
        let params = Params::new(btc, xmr, refund_timelock, punish_timelock)?;
        let keys = PartyKeys::from_secrets(b, s_b, v_b)?;
        Ok(State0 { keys, params, refund_address })
    }

    /// Bob's first state, with freshly drawn keys.
    pub fn new(
        btc: u64,
        xmr: u64,
        refund_timelock: u32,
        punish_timelock: u32,
        refund_address: Vec<u8>,
    ) -> (r: Result<State0, Error>)
        ensures
            !(Params { btc, xmr, refund_timelock, punish_timelock }).wf() ==> r == Err::<
                State0,
                Error,
            >(Error::InvalidParameters),
            r is Ok <==> (Params { btc, xmr, refund_timelock, punish_timelock }).wf(),
            r is Ok ==> ({
                let s = r.unwrap();
                &&& s.wf()
                &&& s.params == (Params { btc, xmr, refund_timelock, punish_timelock })
                &&& s.refund_address == refund_address
            }),
    {
        let params = Params::new(btc, xmr, refund_timelock, punish_timelock)?;
        let keys = PartyKeys::generate();
        Ok(State0 { keys, params, refund_address })
    }

    /// Bob's first message; `dleq_proof_s_b` proves that his two images of
    /// `s_b` share their secret.
    pub fn next_message(&self, dleq_proof_s_b: Vec<u8>) -> (r: Message0)
        ensures
            r.b_public@ == self.keys.x_public@,
            r.s_b_monero@ == self.keys.s_monero@,
            r.s_b_bitcoin@ == self.keys.s_bitcoin@,
            r.dleq_proof_s_b == dleq_proof_s_b,
            r.v_b@ == self.keys.v@,
            r.refund_address@ == self.refund_address@,
    {
        Message0 {
            b_public: copy_bytes(&self.keys.x_public),
            s_b_monero: copy_bytes(&self.keys.s_monero),
            s_b_bitcoin: copy_bytes(&self.keys.s_bitcoin),
            dleq_proof_s_b,
            v_b: copy_bytes(&self.keys.v),
            refund_address: copy_bytes(&self.refund_address),
        }
    }

    /// Why `receive` would refuse Alice's first message, without consuming
    /// anything.
    pub fn check_message0(&self, msg: &alice::Message0, dleq_proof_valid: bool) -> (r: Option<Error>)
        ensures
            r == peer_keys_error(*msg, dleq_proof_valid),
    {
        if !dleq_proof_valid {
            return Some(Error::ProofInvalid);
        }
        if !(secp_point_check(&msg.a_public) && secp_point_check(&msg.s_a_bitcoin) && ed_point_check(
            &msg.s_a_monero,
        )) {
            return Some(Error::InvalidCurvePoint);
        }
        if ed_public_key(&msg.v_a).is_none() {
            return Some(Error::InvalidScalar);
        }
        None
    }

    /// Takes Alice's first message. `dleq_proof_valid` is the verdict on her
    /// cross-curve proof; `tx_lock_txid` is the id of the lock transaction
    /// that Bob's wallet built, paying `btc` to the 2-of-2 output of her key
    /// and his.
    pub fn receive(self, msg: alice::Message0, dleq_proof_valid: bool, tx_lock_txid: Vec<u8>) -> (r:
        Result<State1, Error>)
        requires
            self.wf(),
        ensures
            !dleq_proof_valid ==> r == Err::<State1, Error>(Error::ProofInvalid),
            dleq_proof_valid && !PeerKeys::points_valid(
                msg.a_public@,
                msg.s_a_bitcoin@,
                msg.s_a_monero@,
            ) ==> r == Err::<State1, Error>(Error::InvalidCurvePoint),
            dleq_proof_valid && PeerKeys::points_valid(
                msg.a_public@,
                msg.s_a_bitcoin@,
                msg.s_a_monero@,
            ) && !ed_scalar_canonical(msg.v_a@) ==> r == Err::<State1, Error>(
                Error::InvalidScalar,
            ),
            r is Ok <==> dleq_proof_valid && PeerKeys::points_valid(
                msg.a_public@,
                msg.s_a_bitcoin@,
                msg.s_a_monero@,
            ) && ed_scalar_canonical(msg.v_a@),
            r is Ok ==> after_peer_keys(self, msg, tx_lock_txid, r.unwrap()),
    {
        if !dleq_proof_valid {
            return Err(Error::ProofInvalid);
        }
        let peer = PeerKeys::check(msg.a_public, msg.s_a_bitcoin, msg.s_a_monero)?;
        proof {
            crate::crypto::lemma_ed_scalar_sum_canonical(msg.v_a@, self.keys.v@);
        }
        let v = match ed_scalar_sum(&msg.v_a, &self.keys.v) {
            Some(v) => v,
            None => return Err(Error::InvalidScalar),
        };
        let tx_lock = TxLock::new(
            tx_lock_txid,
            self.params.btc,
            copy_bytes(&peer.x_public),
            copy_bytes(&self.keys.x_public),
        );
        let ladder = Ladder {
            tx_lock,
            refund_timelock: self.params.refund_timelock,
            punish_timelock: self.params.punish_timelock,
            refund_address: self.refund_address,
            redeem_address: msg.redeem_address,
            punish_address: msg.punish_address,
        };
        Ok(State1 { keys: self.keys, params: self.params, peer, v, ladder })
    }
}

impl State1 {
    pub open spec fn wf(&self) -> bool {
        &&& self.keys.wf()
        &&& self.params.wf()
        &&& self.peer.wf()
        &&& ed_scalar_canonical(self.v@)
        &&& ladder_matches(self.ladder, self.keys, self.peer, self.params)
    }

    /// The lock transaction, for Alice.
    pub fn next_message(&self) -> (r: Message1)
        ensures
            r.tx_lock@ == self.ladder.tx_lock@,
    {
        Message1 {
            tx_lock: TxLock::new(
                copy_bytes(&self.ladder.tx_lock.txid),
                self.ladder.tx_lock.amount,
                copy_bytes(&self.ladder.tx_lock.a),
                copy_bytes(&self.ladder.tx_lock.b),
            ),
        }
    }

    /// Why `receive` would refuse Alice's signatures, without consuming
    /// anything.
    pub fn check_message1(&self, msg: &alice::Message1) -> (r: Option<Error>)
        requires
            self.wf(),
        ensures
            r == presigs_error(*self, *msg),
    {
        let tx_cancel = self.ladder.tx_cancel();
        let tx_refund = self.ladder.tx_refund();
        if ecdsa_verify(&self.peer.x_public, &tx_cancel.digest(), &msg.tx_cancel_sig) && encsig_verify(
            &self.peer.x_public,
            &self.keys.s_bitcoin,
            &tx_refund.digest(),
            &msg.tx_refund_encsig,
        ) {
                None
        } else {
            Some(Error::SignatureInvalid)
        }
    }

    /// Takes Alice's signature of cancel and her adaptor signature of refund;
    /// both must verify.
    pub fn receive(self, msg: alice::Message1) -> (r: Result<State2, Error>)
        requires
            self.wf(),
        ensures
            r is Ok <==> alice_sigs_valid(
                self.ladder,
                self.keys,
                self.peer,
                msg.tx_cancel_sig@,
                msg.tx_refund_encsig@,
            ),
            r is Err ==> r == Err::<State2, Error>(Error::SignatureInvalid),
            r is Ok ==> after_presigs(self, msg, r.unwrap()),
    {
        let tx_cancel = self.ladder.tx_cancel();
        if !ecdsa_verify(&self.peer.x_public, &tx_cancel.digest(), &msg.tx_cancel_sig) {
            return Err(Error::SignatureInvalid);
        }
        let tx_refund = self.ladder.tx_refund();
        if !encsig_verify(
            &self.peer.x_public,
            &self.keys.s_bitcoin,
            &tx_refund.digest(),
            &msg.tx_refund_encsig,
        ) {
            return Err(Error::SignatureInvalid);
        }
        Ok(State2 {
            keys: self.keys,
            params: self.params,
            peer: self.peer,
            v: self.v,
            ladder: self.ladder,
            tx_cancel_sig_alice: msg.tx_cancel_sig,
            tx_refund_encsig: msg.tx_refund_encsig,
        })
    }
}

impl State2 {
    pub open spec fn wf(&self) -> bool {
        &&& self.keys.wf()
        &&& self.params.wf()
        &&& self.peer.wf()
        &&& ed_scalar_canonical(self.v@)
        &&& ladder_matches(self.ladder, self.keys, self.peer, self.params)
        &&& alice_sigs_valid(
            self.ladder,
            self.keys,
            self.peer,
            self.tx_cancel_sig_alice@,
            self.tx_refund_encsig@,
        )
    }

    /// Bob's signatures of punish and cancel, for Alice.
    pub fn next_message(&self) -> (r: Message2)
        requires
            self.wf(),
        ensures
            r.tx_punish_sig@ == ecdsa_sig_of(self.keys.x@, digest_of(self.ladder.punish_spec())),
            r.tx_cancel_sig@ == ecdsa_sig_of(self.keys.x@, digest_of(self.ladder.cancel_spec())),
    {
        let tx_cancel = self.ladder.tx_cancel();
        let tx_punish = self.ladder.tx_punish();
        let tx_punish_sig = ecdsa_sign(&self.keys.x, &tx_punish.digest());
        let tx_cancel_sig = ecdsa_sign(&self.keys.x, &tx_cancel.digest());
        Message2 { tx_punish_sig, tx_cancel_sig }
    }

    /// The id of the lock transaction.
    pub fn tx_lock_id(&self) -> (r: Vec<u8>)
        ensures
            r@ == self.ladder.tx_lock.txid@,
    {
        self.ladder.tx_lock.txid()
    }

    /// Moves on once the wallet has signed and broadcast the lock transaction.
    pub fn lock_btc(self) -> (r: State2b)
        requires
            self.wf(),
        ensures
            after_lock_broadcast(self, r),
    {
        State2b {
            keys: self.keys,
            params: self.params,
            peer: self.peer,
            v: self.v,
            ladder: self.ladder,
            tx_cancel_sig_alice: self.tx_cancel_sig_alice,
            tx_refund_encsig: self.tx_refund_encsig,
        }
    }
}

impl State2b {
    pub open spec fn wf(&self) -> bool {
        &&& self.keys.wf()
        &&& self.params.wf()
        &&& self.peer.wf()
        &&& ed_scalar_canonical(self.v@)
        &&& ladder_matches(self.ladder, self.keys, self.peer, self.params)
        &&& alice_sigs_valid(
            self.ladder,
            self.keys,
            self.peer,
            self.tx_cancel_sig_alice@,
            self.tx_refund_encsig@,
        )
    }

    /// The Monero transfer that Bob expects of Alice: `xmr` to the sum of both
    /// parties' spend points, seen by the combined view key.
    pub fn expected_transfer(&self) -> (r: Result<TransferRequest, Error>)
        requires
            self.wf(),
        ensures
            r is Ok,
            r is Err ==> r == Err::<TransferRequest, Error>(Error::InvalidCurvePoint),
            r is Ok ==> ({
                let t = r.unwrap();
                &&& t.spend_point@ == ed_point_sum_of(self.peer.s_monero@, self.keys.s_monero@)
                &&& t.view_point@ == ed_public_of(self.v@)
                &&& t.amount == self.params.xmr
            }),
    {
        let spend_point = match ed_point_sum(&self.peer.s_monero, &self.keys.s_monero) {
            Some(p) => p,
            None => return Err(Error::InvalidCurvePoint),
        };
        let view_point = match ed_public_key(&self.v) {
            Some(p) => p,
            None => return Err(Error::InvalidScalar),
        };
        Ok(TransferRequest { spend_point, view_point, amount: self.params.xmr })
    }

    /// Takes the proof of Alice's transfer. `transfer_valid` is the wallet's
    /// verdict on it against `expected_transfer`: amount, keys and
    /// confirmations. A forged or short transfer ends the swap.
    pub fn watch_for_lock_xmr(self, msg: alice::Message2, transfer_valid: bool) -> (r: Result<
        State3,
        Error,
    >)
        requires
            self.wf(),
        ensures
            r is Ok <==> transfer_valid,
            r is Err ==> r == Err::<State3, Error>(Error::TransferMismatch),
            r is Ok ==> after_xmr_checked(self, msg, r.unwrap()),
    {
        if !transfer_valid {
            return Err(Error::TransferMismatch);
        }
        Ok(State3 {
            keys: self.keys,
            params: self.params,
            peer: self.peer,
            v: self.v,
            ladder: self.ladder,
            tx_cancel_sig_alice: self.tx_cancel_sig_alice,
            tx_refund_encsig: self.tx_refund_encsig,
            tx_lock_proof: msg.tx_lock_proof,
        })
    }

    /// Cancel and refund, both signed: the wallet broadcasts cancel once
    /// `refund_timelock` blocks have passed since the lock, then refund.
    /// Publishing refund reveals `s_b` to Alice.
    pub fn refund_btc(&self) -> (r: Result<(SignedTransaction, SignedTransaction), Error>)
        requires
            self.wf(),
        ensures
            ({
                let dec = decrypted_of(reverse_bytes(self.keys.s@), self.tx_refund_encsig@);
                &&& r is Ok <==> (dec is Some && ecdsa_valid_of(
                    self.peer.x_public@,
                    digest_of(self.ladder.refund_spec()),
                    dec->0,
                ))
                &&& r is Err ==> r->Err_0 == Error::VerificationFailed
                &&& r is Ok ==> refund_pair_matches(
                    r.unwrap(),
                    self.keys,
                    self.peer,
                    self.ladder,
                    self.tx_cancel_sig_alice@,
                    dec->0,
                )
            }),
    {
        refund_transactions(
            &self.keys,
            &self.peer,
            &self.ladder,
            &self.tx_cancel_sig_alice,
            &self.tx_refund_encsig,
        )
    }
}

impl State3 {
    pub open spec fn wf(&self) -> bool {
        &&& self.keys.wf()
        &&& self.params.wf()
        &&& self.peer.wf()
        &&& ed_scalar_canonical(self.v@)
        &&& ladder_matches(self.ladder, self.keys, self.peer, self.params)
        &&& alice_sigs_valid(
            self.ladder,
            self.keys,
            self.peer,
            self.tx_cancel_sig_alice@,
            self.tx_refund_encsig@,
        )
    }

    /// Bob's adaptor signature of redeem, encrypted to Alice's `s_a`: when
    /// she redeems, she reveals `s_a` to him.
    pub fn next_message(&self) -> (r: Message3)
        requires
            self.wf(),
        ensures
            r.tx_redeem_encsig@ == encsig_of(
                self.keys.x@,
                self.peer.s_bitcoin@,
                digest_of(self.ladder.redeem_spec()),
            ),
    {
        let tx_redeem = self.ladder.tx_redeem();
        let tx_redeem_encsig = encsign(&self.keys.x, &self.peer.s_bitcoin, &tx_redeem.digest());
        Message3 { tx_redeem_encsig }
    }

    /// The id of the redeem transaction, for the wallet to watch.
    pub fn tx_redeem_id(&self) -> (r: Vec<u8>)
        requires
            self.wf(),
        ensures
            r@ == crate::bitcoin::txid_of(self.ladder.redeem_spec()),
    {
        self.ladder.tx_redeem().txid()
    }

    /// Cancel and refund, both signed, as from the lock on.
    pub fn refund_btc(&self) -> (r: Result<(SignedTransaction, SignedTransaction), Error>)
        requires
            self.wf(),
        ensures
            ({
                let dec = decrypted_of(reverse_bytes(self.keys.s@), self.tx_refund_encsig@);
                &&& r is Ok <==> (dec is Some && ecdsa_valid_of(
                    self.peer.x_public@,
                    digest_of(self.ladder.refund_spec()),
                    dec->0,
                ))
                &&& r is Err ==> r->Err_0 == Error::VerificationFailed
                &&& r is Ok ==> refund_pair_matches(
                    r.unwrap(),
                    self.keys,
                    self.peer,
                    self.ladder,
                    self.tx_cancel_sig_alice@,
                    dec->0,
                )
            }),
    {
        refund_transactions(
            &self.keys,
            &self.peer,
            &self.ladder,
            &self.tx_cancel_sig_alice,
            &self.tx_refund_encsig,
        )
    }

    /// Why `watch_for_redeem_btc` would refuse a signature, without consuming
    /// anything.
    pub fn check_redeem_sig(&self, tx_redeem_sig: &Vec<u8>) -> (r: Option<Error>)
        requires
            self.wf(),
        ensures
            r == redeem_sig_error(*self, tx_redeem_sig@),
    {
        let tx_redeem = self.ladder.tx_redeem();
        let tx_redeem_encsig = encsign(&self.keys.x, &self.peer.s_bitcoin, &tx_redeem.digest());
        match recover_decryption_key(&self.peer.s_bitcoin, tx_redeem_sig, &tx_redeem_encsig) {
            Some(_) => None,
            None => Some(Error::VerificationFailed),
        }
    }

    /// Once Alice has published the redeem transaction, Bob's signature in it
    /// (`tx_redeem_sig`, which she decrypted) and his adaptor signature
    /// reveal her `s_a`.
    pub fn watch_for_redeem_btc(self, tx_redeem_sig: &Vec<u8>) -> (r: Result<State4, Error>)
        requires
            self.wf(),
        ensures
            ({
                let e = encsig_of(
                    self.keys.x@,
                    self.peer.s_bitcoin@,
                    digest_of(self.ladder.redeem_spec()),
                );
                let rec = recovered_of(self.peer.s_bitcoin@, tx_redeem_sig@, e);
                &&& r is Ok <==> rec is Some
                &&& r is Err ==> r == Err::<State4, Error>(Error::VerificationFailed)
                &&& r is Ok ==> after_redeem_seen(self, tx_redeem_sig@, r.unwrap())
            }),
    {
        let tx_redeem = self.ladder.tx_redeem();
        let tx_redeem_encsig = encsign(&self.keys.x, &self.peer.s_bitcoin, &tx_redeem.digest());
        let s_a = match recover_decryption_key(
            &self.peer.s_bitcoin,
            tx_redeem_sig,
            &tx_redeem_encsig,
        ) {
            Some(s) => s,
            None => return Err(Error::VerificationFailed),
        };
        let s_a = reverse_byte_order(&s_a);
        Ok(State4 {
            keys: self.keys,
            params: self.params,
            peer: self.peer,
            v: self.v,
            ladder: self.ladder,
            s_a,
        })
    }
}

impl State4 {
    pub open spec fn wf(&self) -> bool {
        &&& self.keys.wf()
        &&& self.params.wf()
        &&& self.peer.wf()
        &&& ed_scalar_canonical(self.v@)
        &&& ladder_matches(self.ladder, self.keys, self.peer, self.params)
    }

    /// The id of the lock transaction.
    pub fn tx_lock_id(&self) -> (r: Vec<u8>)
        ensures
            r@ == self.ladder.tx_lock.txid@,
    {
        self.ladder.tx_lock.txid()
    }

    /// The keys of the locked Monero: spend key `s_a + s_b`, and the combined
    /// view key.
    pub fn claim_xmr(&self) -> (r: Result<MoneroKeys, Error>)
        requires
            self.wf(),
        ensures
            r is Ok <==> ed_scalar_canonical(self.s_a@),
            r is Err ==> r == Err::<MoneroKeys, Error>(Error::InvalidScalar),
            r is Ok ==> r.unwrap().spend_key@ == ed_scalar_sum_of(self.s_a@, self.keys.s@)
                && r.unwrap().view_key@ == self.v@,
    {
        let spend_key = match ed_scalar_sum(&self.s_a, &self.keys.s) {
            Some(s) => s,
            None => return Err(Error::InvalidScalar),
        };
        Ok(MoneroKeys { spend_key, view_key: copy_bytes(&self.v) })
    }
}

impl State {
    pub open spec fn wf(&self) -> bool {
        match self {
            State::State0(s) => s.wf(),
            State::State1(s) => s.wf(),
            State::State2(s) => s.wf(),
            State::State2b(s) => s.wf(),
            State::State3(s) => s.wf(),
            State::State4(s) => s.wf(),
        }
    }

    /// How far along the swap a state is; each step moves one further.
    pub open spec fn stage(&self) -> nat {
        match self {
            State::State0(_) => 0,
            State::State1(_) => 1,
            State::State2(_) => 2,
            State::State2b(_) => 3,
            State::State3(_) => 4,
            State::State4(_) => 5,
        }
    }

    /// Bob's first state, with freshly drawn keys.
    pub fn new(
        btc: u64,
        xmr: u64,
        refund_timelock: u32,
        punish_timelock: u32,
        refund_address: Vec<u8>,
    ) -> (r: Result<State, Error>)
        ensures
            !(Params { btc, xmr, refund_timelock, punish_timelock }).wf() ==> r == Err::<
                State,
                Error,
            >(Error::InvalidParameters),
            r is Ok <==> (Params { btc, xmr, refund_timelock, punish_timelock }).wf(),
            r is Ok ==> r.unwrap() is State0 && r.unwrap().wf(),
            r is Ok ==> ({
                let s = r.unwrap()->State0_0;
                &&& s.params == (Params { btc, xmr, refund_timelock, punish_timelock })
                &&& s.refund_address == refund_address
            }),
    {
        let s = State0::new(btc, xmr, refund_timelock, punish_timelock, refund_address)?;
        Ok(State::State0(s))
    }
}

/// Whether Bob has recovered Alice's `s_a`: the last state, from which he
/// claims the Monero.
pub fn is_state4(state: &State) -> (r: bool)
    ensures
        r == (state is State4),
{
    match state {
        State::State4(_) => true,
        _ => false,
    }
}

/// Whether Bob has broadcast the lock transaction and waits for Alice's
/// transfer: from here on he may refund.
pub fn is_state2b(state: &State) -> (r: bool)
    ensures
        r == (state is State2b),
{
    match state {
        State::State2b(_) => true,
        _ => false,
    }
}

} // verus!
