//! The Bitcoin side of a swap: the lock output and the four transactions
//! that spend it (cancel, refund, punish, redeem).
//!
//! Each transaction is a template of public data. Its canonical encoding is
//! this library's own, not Bitcoin's serialization, and its digest and id are
//! this library's own too, not Bitcoin's signature hash. So the templates and
//! their signatures cannot be broadcast on Bitcoin as they stand: they fix
//! the ladder's rules and what each party signs. The encoding leaves out
//! every witness, so both parties compute the same signing digest and the same
//! id from the data alone.
//!
//! The id of the lock transaction is what Bob's wallet reports; nothing here
//! checks it against the transaction that the wallet built.
use vstd::prelude::*;

use crate::crypto::{ecdsa_valid_of, ecdsa_verify, sha256, sha256_of};
use crate::protocol::copy_bytes;

verus! {

/// Fee paid by each transaction of the ladder, in satoshi.
pub const TX_FEE: u64 = 10_000;

/// The funding transaction that Bob's wallet builds: it pays `amount` into an
/// output that needs the signatures of both `a` (Alice) and `b` (Bob).
#[derive(Clone, Debug)]
pub struct TxLock {
    pub txid: Vec<u8>,
    pub amount: u64,
    pub a: Vec<u8>,
    pub b: Vec<u8>,
}

/// The mathematical value of a lock transaction.
pub struct TxLockModel {
    pub txid: Seq<u8>,
    pub amount: u64,
    pub a: Seq<u8>,
    pub b: Seq<u8>,
}

impl View for TxLock {
    type V = TxLockModel;

    open spec fn view(&self) -> TxLockModel {
        TxLockModel { txid: self.txid@, amount: self.amount, a: self.a@, b: self.b@ }
    }
}

/// Which rung of the ladder a transaction is.
#[derive(Clone, Copy, Debug, PartialEq, Eq, Structural)]
pub enum TxKind {
    Cancel,
    Refund,
    Punish,
    Redeem,
}

/// Where a transaction pays: a 2-of-2 output of two public keys, or an address.
#[derive(Clone, Debug)]
pub enum Output {
    MultiSig { a: Vec<u8>, b: Vec<u8> },
    Address { address: Vec<u8> },
}

pub enum OutputModel {
    MultiSig { a: Seq<u8>, b: Seq<u8> },
    Address { address: Seq<u8> },
}

impl View for Output {
    type V = OutputModel;

    open spec fn view(&self) -> OutputModel {
        match self {
            Output::MultiSig { a, b } => OutputModel::MultiSig { a: a@, b: b@ },
            Output::Address { address } => OutputModel::Address { address: address@ },
        }
    }
}

/// An unsigned transaction with one input and one output. `sequence` is the
/// relative timelock of its input, in blocks after its parent confirmed.
#[derive(Clone, Debug)]
pub struct Transaction {
    pub kind: TxKind,
    pub prev_txid: Vec<u8>,
    pub sequence: u32,
    pub value: u64,
    pub output: Output,
}

pub struct TransactionModel {
    pub kind: TxKind,
    pub prev_txid: Seq<u8>,
    pub sequence: u32,
    pub value: u64,
    pub output: OutputModel,
}

impl View for Transaction {
    type V = TransactionModel;

    open spec fn view(&self) -> TransactionModel {
        TransactionModel {
            kind: self.kind,
            prev_txid: self.prev_txid@,
            sequence: self.sequence,
            value: self.value,
            output: self.output@,
        }
    }
}

pub open spec fn kind_tag(k: TxKind) -> u8 {
    match k {
        TxKind::Cancel => 1,
        TxKind::Refund => 2,
        TxKind::Punish => 3,
        TxKind::Redeem => 4,
    }
}

pub open spec fn u32_le(x: u32) -> Seq<u8> {
    seq![x as u8, (x >> 8) as u8, (x >> 16) as u8, (x >> 24) as u8]
}

pub open spec fn u64_le(x: u64) -> Seq<u8> {
    seq![
        x as u8, (x >> 8) as u8, (x >> 16) as u8, (x >> 24) as u8,
        (x >> 32) as u8, (x >> 40) as u8, (x >> 48) as u8, (x >> 56) as u8,
    ]
}

pub open spec fn encode_output(o: OutputModel) -> Seq<u8> {
    match o {
        OutputModel::MultiSig { a, b } => seq![0u8] + a + b,
        OutputModel::Address { address } => seq![1u8] + u64_le(address.len() as u64) + address,
    }
}

/// The canonical encoding of an unsigned transaction.
pub open spec fn encode_tx(t: TransactionModel) -> Seq<u8> {
    seq![kind_tag(t.kind)] + t.prev_txid + u32_le(t.sequence) + u64_le(t.value) + encode_output(
        t.output,
    )
}

/// The digest that both parties sign for a transaction.
pub open spec fn digest_of(t: TransactionModel) -> Seq<u8> {
    sha256_of(encode_tx(t).push(1u8))
}

/// The id of a transaction: the double SHA-256 of its encoding.
pub open spec fn txid_of(t: TransactionModel) -> Seq<u8> {
    sha256_of(sha256_of(encode_tx(t)))
}

pub open spec fn cancel_model(lock: TxLockModel, refund_timelock: u32, a: Seq<u8>, b: Seq<u8>) -> TransactionModel {
    TransactionModel {
        kind: TxKind::Cancel,
        prev_txid: lock.txid,
        sequence: refund_timelock,
        value: (lock.amount - TX_FEE) as u64,
        output: OutputModel::MultiSig { a, b },
    }
}

pub open spec fn refund_model(cancel: TransactionModel, refund_address: Seq<u8>) -> TransactionModel {
    TransactionModel {
        kind: TxKind::Refund,
        prev_txid: txid_of(cancel),
        sequence: 0,
        value: (cancel.value - TX_FEE) as u64,
        output: OutputModel::Address { address: refund_address },
    }
}

pub open spec fn punish_model(cancel: TransactionModel, punish_address: Seq<u8>, punish_timelock: u32) -> TransactionModel {
    TransactionModel {
        kind: TxKind::Punish,
        prev_txid: txid_of(cancel),
        sequence: punish_timelock,
        value: (cancel.value - TX_FEE) as u64,
        output: OutputModel::Address { address: punish_address },
    }
}

pub open spec fn redeem_model(lock: TxLockModel, redeem_address: Seq<u8>) -> TransactionModel {
    TransactionModel {
        kind: TxKind::Redeem,
        prev_txid: lock.txid,
        sequence: 0,
        value: (lock.amount - TX_FEE) as u64,
        output: OutputModel::Address { address: redeem_address },
    }
}

/// Whether a transaction may be mined in block `height`, its parent having
/// confirmed in block `parent_height`.
pub open spec fn final_at(t: TransactionModel, parent_height: int, height: int) -> bool {
    height >= parent_height + t.sequence
}

fn append_bytes(out: &mut Vec<u8>, data: &Vec<u8>)
    ensures
        final(out)@ == old(out)@ + data@,
{
    let ghost start = out@;
    let mut i: usize = 0;
    while i < data.len()
        invariant
            i <= data@.len(),
            out@ == start + data@.subrange(0, i as int),
        decreases data@.len() - i,
    {
        out.push(data[i]);
        i = i + 1;
    }
    assert(data@.subrange(0, data@.len() as int) =~= data@);
}

fn append_u32(out: &mut Vec<u8>, x: u32)
    ensures
        final(out)@ == old(out)@ + u32_le(x),
{
    out.push(x as u8);
    out.push((x >> 8) as u8);
    out.push((x >> 16) as u8);
    out.push((x >> 24) as u8);
    assert(final(out)@ =~= old(out)@ + u32_le(x));
}

fn append_u64(out: &mut Vec<u8>, x: u64)
    ensures
        final(out)@ == old(out)@ + u64_le(x),
{
    out.push(x as u8);
    out.push((x >> 8) as u8);
    out.push((x >> 16) as u8);
    out.push((x >> 24) as u8);
    out.push((x >> 32) as u8);
    out.push((x >> 40) as u8);
    out.push((x >> 48) as u8);
    out.push((x >> 56) as u8);
    assert(final(out)@ =~= old(out)@ + u64_le(x));
}

impl TxLock {
    pub fn new(txid: Vec<u8>, amount: u64, a: Vec<u8>, b: Vec<u8>) -> (r: TxLock)
        ensures
            r == (TxLock { txid, amount, a, b }),
    {
        TxLock { txid, amount, a, b }
    }

    pub fn txid(&self) -> (r: Vec<u8>)
        ensures
            r@ == self.txid@,
    {
        copy_bytes(&self.txid)
    }
}

impl Output {
    fn encode_into(&self, out: &mut Vec<u8>)
        ensures
            final(out)@ == old(out)@ + encode_output(self@),
    {
        match self {
            Output::MultiSig { a, b } => {
                out.push(0u8);
                append_bytes(out, a);
                append_bytes(out, b);
            },
            Output::Address { address } => {
                out.push(1u8);
                append_u64(out, address.len() as u64);
                append_bytes(out, address);
            },
        }
        assert(final(out)@ =~= old(out)@ + encode_output(self@));
    }
}

impl Transaction {
    /// The canonical encoding of the transaction, without witness data.
    pub fn encode(&self) -> (r: Vec<u8>)
        ensures
            r@ == encode_tx(self@),
    {
        let mut out: Vec<u8> = Vec::new();
        let tag: u8 = match self.kind {
            TxKind::Cancel => 1,
            TxKind::Refund => 2,
            TxKind::Punish => 3,
            TxKind::Redeem => 4,
        };
        out.push(tag);
        append_bytes(&mut out, &self.prev_txid);
        append_u32(&mut out, self.sequence);
        append_u64(&mut out, self.value);
        self.output.encode_into(&mut out);
        assert(out@ =~= encode_tx(self@));
        out
    }

    /// The digest that both parties sign for this transaction.
    pub fn digest(&self) -> (r: Vec<u8>)
        ensures
            r@ == digest_of(self@),
            r@.len() == 32,
    {
        let mut bytes = self.encode();
        bytes.push(1u8);
        sha256(&bytes)
    }

    pub fn txid(&self) -> (r: Vec<u8>)
        ensures
            r@ == txid_of(self@),
            r@.len() == 32,
    {
        let first = sha256(&self.encode());
        sha256(&first)
    }

    /// Whether the transaction may be mined in block `height`, its parent
    /// having confirmed in block `parent_height`.
    pub fn is_final_at(&self, parent_height: u64, height: u64) -> (r: bool)
        ensures
            r == final_at(self@, parent_height as int, height as int),
    {
        height >= parent_height && height - parent_height >= self.sequence as u64
    }
}

/// The cancel transaction: spends the lock output into a new 2-of-2 output,
/// and is valid `refund_timelock` blocks after the lock confirmed.
pub fn tx_cancel(lock: &TxLock, refund_timelock: u32, a: &Vec<u8>, b: &Vec<u8>) -> (r: Transaction)
    requires
        lock.amount >= TX_FEE,
    ensures
        r@ == cancel_model(lock@, refund_timelock, a@, b@),
{
    Transaction {
        kind: TxKind::Cancel,
        prev_txid: copy_bytes(&lock.txid),
        sequence: refund_timelock,
        value: lock.amount - TX_FEE,
        output: Output::MultiSig { a: copy_bytes(a), b: copy_bytes(b) },
    }
}

/// The refund transaction: spends the cancel output to Bob's refund address.
pub fn tx_refund(cancel: &Transaction, refund_address: &Vec<u8>) -> (r: Transaction)
    requires
        cancel.value >= TX_FEE,
    ensures
        r@ == refund_model(cancel@, refund_address@),
{
    Transaction {
        kind: TxKind::Refund,
        prev_txid: cancel.txid(),
        sequence: 0,
        value: cancel.value - TX_FEE,
        output: Output::Address { address: copy_bytes(refund_address) },
    }
}

/// The punish transaction: spends the cancel output to Alice's punish address,
/// valid `punish_timelock` blocks after the cancel transaction confirmed.
pub fn tx_punish(cancel: &Transaction, punish_address: &Vec<u8>, punish_timelock: u32) -> (r: Transaction)
    requires
        cancel.value >= TX_FEE,
    ensures
        r@ == punish_model(cancel@, punish_address@, punish_timelock),
{
    Transaction {
        kind: TxKind::Punish,
        prev_txid: cancel.txid(),
        sequence: punish_timelock,
        value: cancel.value - TX_FEE,
        output: Output::Address { address: copy_bytes(punish_address) },
    }
}

/// The redeem transaction: spends the lock output to Alice's redeem address.
pub fn tx_redeem(lock: &TxLock, redeem_address: &Vec<u8>) -> (r: Transaction)
    requires
        lock.amount >= TX_FEE,
    ensures
        r@ == redeem_model(lock@, redeem_address@),
{
    Transaction {
        kind: TxKind::Redeem,
        prev_txid: copy_bytes(&lock.txid),
        sequence: 0,
        value: lock.amount - TX_FEE,
        output: Output::Address { address: copy_bytes(redeem_address) },
    }
}

/// A transaction that spends a 2-of-2 output, with the signature of each key,
/// ready for a wallet to put the witness together and broadcast it.
#[derive(Clone, Debug)]
pub struct SignedTransaction {
    pub tx: Transaction,
    pub a: Vec<u8>,
    pub sig_a: Vec<u8>,
    pub b: Vec<u8>,
    pub sig_b: Vec<u8>,
}

impl SignedTransaction {
    /// Whether both signatures are valid for the transaction's digest under
    /// their keys: what a wallet checks before it broadcasts.
    pub fn signatures_valid(&self) -> (r: bool)
        ensures
            r == (ecdsa_valid_of(self.a@, digest_of(self.tx@), self.sig_a@) && ecdsa_valid_of(
                self.b@,
                digest_of(self.tx@),
                self.sig_b@,
            )),
    {
        let digest = self.tx.digest();
        ecdsa_verify(&self.a, &digest, &self.sig_a) && ecdsa_verify(&self.b, &digest, &self.sig_b)
    }
}

/// Everything the ladder of transactions is built from: the lock, the two
/// timelocks and the three addresses. Both parties hold the same one.
#[derive(Clone, Debug)]
pub struct Ladder {
    pub tx_lock: TxLock,
    pub refund_timelock: u32,
    pub punish_timelock: u32,
    pub refund_address: Vec<u8>,
    pub redeem_address: Vec<u8>,
    pub punish_address: Vec<u8>,
}

impl Ladder {
    /// The lock pays at least the fees of the two transactions on any path.
    pub open spec fn wf(&self) -> bool {
        self.tx_lock.amount >= 2 * TX_FEE
    }

    pub open spec fn cancel_spec(&self) -> TransactionModel {
        cancel_model(self.tx_lock@, self.refund_timelock, self.tx_lock.a@, self.tx_lock.b@)
    }

    pub open spec fn refund_spec(&self) -> TransactionModel {
        refund_model(self.cancel_spec(), self.refund_address@)
    }

    pub open spec fn punish_spec(&self) -> TransactionModel {
        punish_model(self.cancel_spec(), self.punish_address@, self.punish_timelock)
    }

    pub open spec fn redeem_spec(&self) -> TransactionModel {
        redeem_model(self.tx_lock@, self.redeem_address@)
    }

    pub fn tx_cancel(&self) -> (r: Transaction)
        requires
            self.wf(),
        ensures
            r@ == self.cancel_spec(),
            r.value >= TX_FEE,
    {
        tx_cancel(&self.tx_lock, self.refund_timelock, &self.tx_lock.a, &self.tx_lock.b)
    }

    pub fn tx_refund(&self) -> (r: Transaction)
        requires
            self.wf(),
        ensures
            r@ == self.refund_spec(),
    {
        tx_refund(&self.tx_cancel(), &self.refund_address)
    }

    pub fn tx_punish(&self) -> (r: Transaction)
        requires
            self.wf(),
        ensures
            r@ == self.punish_spec(),
    {
        tx_punish(&self.tx_cancel(), &self.punish_address, self.punish_timelock)
    }

    pub fn tx_redeem(&self) -> (r: Transaction)
        requires
            self.wf(),
        ensures
            r@ == self.redeem_spec(),
    {
        tx_redeem(&self.tx_lock, &self.redeem_address)
    }
}

/// On a chain where the lock confirmed at `lock_height`: the cancel
/// transaction is premature before `refund_timelock` more blocks and valid
/// from then on; the punish transaction, spending a cancel transaction that
/// confirmed at `cancel_height`, is premature before
/// `refund_timelock + punish_timelock` blocks after the lock, and is valid at
/// exactly that height when cancel confirmed as early as it could.
pub proof fn lemma_timelock_ordering(
    ladder: Ladder,
    lock_height: int,
    cancel_height: int,
    height: int,
)
    ensures
        final_at(ladder.cancel_spec(), lock_height, height) <==> height >= lock_height
            + ladder.refund_timelock,
        final_at(ladder.cancel_spec(), lock_height, cancel_height) && final_at(
            ladder.punish_spec(),
            cancel_height,
            height,
        ) ==> height >= lock_height + ladder.refund_timelock + ladder.punish_timelock,
        final_at(
            ladder.punish_spec(),
            lock_height + ladder.refund_timelock,
            lock_height + ladder.refund_timelock + ladder.punish_timelock,
        ),
{
}

} // verus!
