//! What both roles share: the negotiated parameters, the errors of the
//! protocol, a party's own keys and the keys it learns of its counterparty.
use vstd::prelude::*;

use crate::bitcoin::TX_FEE;
use crate::crypto::{
    be_nat, le_nat, pow256,
    ed_point_check, ed_point_valid, ed_public_key, ed_public_of, ed_scalar_canonical,
    random_bytes, random_secp_scalar, reverse_byte_order, reverse_bytes, secp_point_check,
    secp_point_valid, secp_public_key, secp_public_of, secp_scalar_valid,
};

verus! {

/// Amounts and timelocks agreed before a swap starts. Timelocks count blocks:
/// cancel becomes valid `refund_timelock` blocks after the lock confirmed,
/// punish `punish_timelock` blocks after cancel confirmed.
#[derive(Clone, Copy, Debug, PartialEq, Eq, Structural)]
pub struct Params {
    pub btc: u64,
    pub xmr: u64,
    pub refund_timelock: u32,
    pub punish_timelock: u32,
}

impl Params {
    /// Both timelocks are positive and the locked amount pays the fees of the
    /// two transactions on any path out of the lock.
    pub open spec fn wf(self) -> bool {
        self.refund_timelock > 0 && self.punish_timelock > 0 && self.btc >= 2 * TX_FEE
    }

    pub fn new(btc: u64, xmr: u64, refund_timelock: u32, punish_timelock: u32) -> (r: Result<
        Params,
        Error,
    >)
        ensures
            r is Ok <==> (Params { btc, xmr, refund_timelock, punish_timelock }).wf(),
            r is Ok ==> r.unwrap() == (Params { btc, xmr, refund_timelock, punish_timelock }),
            r is Err ==> r == Err::<Params, Error>(Error::InvalidParameters),
    {
        if refund_timelock == 0 || punish_timelock == 0 || btc < 2 * TX_FEE {
            Err(Error::InvalidParameters)
        } else {
            Ok(Params { btc, xmr, refund_timelock, punish_timelock })
        }
    }
}

/// Why a step of the protocol was refused. All of them end the swap's
/// forward progress; the caller may turn to the refund or punish branch.
#[derive(Clone, Copy, Debug, PartialEq, Eq, Structural)]
pub enum Error {
    /// The counterparty's cross-curve proof does not verify.
    ProofInvalid,
    /// A received point is not on its curve.
    InvalidCurvePoint,
    /// A received or derived scalar is out of range.
    InvalidScalar,
    /// A received signature or adaptor signature does not verify.
    SignatureInvalid,
    /// A signature could not be decrypted or a key could not be recovered.
    VerificationFailed,
    /// The Monero transfer does not match the agreed amount and keys.
    TransferMismatch,
    /// The lock transaction does not pay the agreed amount to both keys.
    TxLockMismatch,
    /// The negotiated amounts or timelocks are unusable.
    InvalidParameters,
}

/// 32 little-endian bytes cut to their low 252 bits.
pub open spec fn mask252(b: Seq<u8>) -> Seq<u8> {
    b.update(31, b[31] & 0x0f)
}

/// All bytes of `b` are zero.
pub open spec fn all_zero(b: Seq<u8>) -> bool {
    forall|i: int| 0 <= i < b.len() ==> b[i] == 0
}

/// A drawn cross-curve secret: cut to 252 bits, and one where that leaves zero.
pub open spec fn draw_secret(b: Seq<u8>) -> Seq<u8> {
    if all_zero(mask252(b)) {
        mask252(b).update(0, 1)
    } else {
        mask252(b)
    }
}

proof fn lemma_le_nat_zero(b: Seq<u8>)
    ensures
        le_nat(b) == 0 <==> all_zero(b),
    decreases b.len(),
{
    if b.len() > 0 {
        let t = b.drop_first();
        lemma_le_nat_zero(t);
        if all_zero(b) {
            assert(b[0] == 0);
            assert forall|i: int| 0 <= i < t.len() implies t[i] == 0 by {
                assert(t[i] == b[i + 1]);
            }
        }
        if le_nat(b) == 0 {
            assert forall|i: int| 0 <= i < b.len() implies b[i] == 0 by {
                if i > 0 {
                    assert(b[i] == t[i - 1]);
                }
            }
        }
    }
}

proof fn lemma_le_nat_top(b: Seq<u8>)
    requires
        b.len() >= 1,
    ensures
        le_nat(b) < (b[b.len() - 1] + 1) * pow256((b.len() - 1) as nat),
    decreases b.len(),
{
    let t = b.drop_first();
    assert(le_nat(b) == b[0] + 256 * le_nat(t));
    if b.len() == 1 {
        assert(le_nat(t) == 0);
        assert(pow256(0) == 1);
    } else {
        lemma_le_nat_top(t);
        assert(t[t.len() - 1] == b[b.len() - 1]);
        let c: int = b[b.len() - 1] + 1;
        let p = pow256((t.len() - 1) as nat) as int;
        assert(pow256((b.len() - 1) as nat) == 256 * p);
        let l = le_nat(t) as int;
        let h = b[0] as int;
        assert(l < c * p);
        assert(h + 256 * l < c * (256 * p)) by (nonlinear_arith)
            requires
                l < c * p,
                0 <= h < 256,
                0 <= l,
        ;
        assert(c * (256 * p) == (b[b.len() - 1] + 1) * pow256((b.len() - 1) as nat));
    }
}

proof fn lemma_reverse_be(s: Seq<u8>)
    ensures
        be_nat(reverse_bytes(s)) == le_nat(s),
    decreases s.len(),
{
    if s.len() > 0 {
        lemma_reverse_be(s.drop_first());
        assert(reverse_bytes(s).drop_last() =~= reverse_bytes(s.drop_first()));
    }
}

/// 32 bytes whose top byte is below 16 write a number below 2^252.
proof fn lemma_below_2_252(b: Seq<u8>)
    requires
        b.len() == 32,
        b[31] < 16,
    ensures
        le_nat(b) < 0x1000000000000000000000000000000000000000000000000000000000000000nat,
{
    lemma_le_nat_top(b);
    reveal_with_fuel(pow256, 32);
    assert(pow256(31) == 0x100000000000000000000000000000000000000000000000000000000000000nat);
    assert((b[31] + 1) * pow256(31) <= 16 * pow256(31)) by (nonlinear_arith)
        requires
            b[31] < 16,
    ;
}

proof fn lemma_mask252(b: Seq<u8>)
    requires
        b.len() == 32,
    ensures
        mask252(b).len() == 32,
        mask252(b)[31] < 16,
{
    let x = b[31];
    assert(x & 0x0f < 16) by (bit_vector);
}

/// A masked draw is a canonical ed25519 scalar.
pub proof fn lemma_masked_canonical(b: Seq<u8>)
    requires
        b.len() == 32,
    ensures
        ed_scalar_canonical(mask252(b)),
{
    lemma_mask252(b);
    lemma_below_2_252(mask252(b));
}

/// A drawn cross-curve secret is a valid scalar on both curves.
pub proof fn lemma_drawn_secret_valid(b: Seq<u8>)
    requires
        b.len() == 32,
    ensures
        ed_scalar_canonical(draw_secret(b)),
        secp_scalar_valid(reverse_bytes(draw_secret(b))),
{
    lemma_mask252(b);
    let d = draw_secret(b);
    assert(d.len() == 32 && d[31] < 16);
    lemma_below_2_252(d);
    lemma_le_nat_zero(d);
    if all_zero(mask252(b)) {
        assert(d[0] == 1);
    }
    assert(!all_zero(d));
    lemma_reverse_be(d);
    assert(reverse_bytes(d).len() == 32);
}

/// A party's secrets and their public images: `x` signs on Bitcoin, `s` is
/// the cross-curve secret (little-endian, below 2^252 in practice) whose two
/// images are `s_bitcoin` and `s_monero`, and `v` is the party's share of the
/// Monero view key.
#[derive(Clone, Debug)]
pub struct PartyKeys {
    pub x: Vec<u8>,
    pub x_public: Vec<u8>,
    pub s: Vec<u8>,
    pub s_bitcoin: Vec<u8>,
    pub s_monero: Vec<u8>,
    pub v: Vec<u8>,
}

impl PartyKeys {
    pub open spec fn secrets_valid(x: Seq<u8>, s: Seq<u8>, v: Seq<u8>) -> bool {
        &&& secp_scalar_valid(x)
        &&& ed_scalar_canonical(s)
        &&& secp_scalar_valid(reverse_bytes(s))
        &&& ed_scalar_canonical(v)
    }

    pub open spec fn wf(&self) -> bool {
        &&& PartyKeys::secrets_valid(self.x@, self.s@, self.v@)
        &&& self.x_public@ == secp_public_of(self.x@)
        &&& self.s_bitcoin@ == secp_public_of(reverse_bytes(self.s@))
        &&& self.s_monero@ == ed_public_of(self.s@)
        &&& PeerKeys::points_valid(self.x_public@, self.s_bitcoin@, self.s_monero@)
    }

    /// The keys of secrets `x`, `s` and `v`, if each is in range.
    pub fn from_secrets(x: Vec<u8>, s: Vec<u8>, v: Vec<u8>) -> (r: Result<PartyKeys, Error>)
        ensures
            r is Ok <==> PartyKeys::secrets_valid(x@, s@, v@),
            r is Ok ==> r.unwrap().wf() && r.unwrap().x == x && r.unwrap().s == s
                && r.unwrap().v == v,
            r is Err ==> r == Err::<PartyKeys, Error>(Error::InvalidScalar),
    {
        let x_public = match secp_public_key(&x) {
            Some(p) => p,
            None => return Err(Error::InvalidScalar),
        };
        let s_secp = reverse_byte_order(&s);
        let s_bitcoin = match secp_public_key(&s_secp) {
            Some(p) => p,
            None => return Err(Error::InvalidScalar),
        };
        let s_monero = match ed_public_key(&s) {
            Some(p) => p,
            None => return Err(Error::InvalidScalar),
        };
        if ed_public_key(&v).is_none() {
            return Err(Error::InvalidScalar);
        }
        Ok(PartyKeys { x, x_public, s, s_bitcoin, s_monero, v })
    }

    /// The keys of drawn bytes: `x` as it was drawn, `s_raw` cut to 252 bits
    /// (and made one where that leaves zero), and `v_raw` cut to 252 bits. So
    /// `s` is canonical on ed25519 and a non-zero scalar below secp256k1's
    /// order, and `v` is canonical: only `x` can be refused.
    pub fn from_draws(x: Vec<u8>, s_raw: Vec<u8>, v_raw: Vec<u8>) -> (r: Result<PartyKeys, Error>)
        requires
            s_raw@.len() == 32,
            v_raw@.len() == 32,
        ensures
            r is Ok <==> secp_scalar_valid(x@),
            r is Err ==> r == Err::<PartyKeys, Error>(Error::InvalidScalar),
            r is Ok ==> ({
                let k = r.unwrap();
                &&& k.wf()
                &&& k.x == x && k.s@ == draw_secret(s_raw@) && k.v@ == mask252(v_raw@)
            }),
    {
        let mut s = s_raw;
        let top = s[31] & 0x0f;
        s.set(31, top);
        assert(s@ =~= mask252(s_raw@));
        let mut zero = true;
        let mut i: usize = 0;
        while i < 32
            invariant
                s@ == mask252(s_raw@),
                s@.len() == 32,
                i <= 32,
                zero == (forall|j: int| 0 <= j < i ==> s@[j] == 0),
            decreases 32 - i,
        {
            zero = zero && s[i] == 0;
            i = i + 1;
        }
        if zero {
            s.set(0, 1);
        }
        assert(s@ =~= draw_secret(s_raw@));
        let mut v = v_raw;
        let top = v[31] & 0x0f;
        v.set(31, top);
        assert(v@ =~= mask252(v_raw@));
        proof {
            lemma_drawn_secret_valid(s_raw@);
            lemma_masked_canonical(v_raw@);
        }
        PartyKeys::from_secrets(x, s, v)
    }

    /// Fresh keys, from the thread's random number generator.
    pub fn generate() -> (r: PartyKeys)
        ensures
            r.wf(),
    {
        let x = random_secp_scalar();
        let s = random_bytes();
        let v = random_bytes();
        match PartyKeys::from_draws(x, s, v) {
            Ok(k) => k,
            Err(_) => unreached(),
        }
    }
}

/// What a party learns of its counterparty's keys in the first message.
#[derive(Clone, Debug)]
pub struct PeerKeys {
    pub x_public: Vec<u8>,
    pub s_bitcoin: Vec<u8>,
    pub s_monero: Vec<u8>,
}

impl PeerKeys {
    pub open spec fn points_valid(x_public: Seq<u8>, s_bitcoin: Seq<u8>, s_monero: Seq<u8>) -> bool {
        &&& x_public.len() == 33 && secp_point_valid(x_public)
        &&& s_bitcoin.len() == 33 && secp_point_valid(s_bitcoin)
        &&& ed_point_valid(s_monero)
    }

    pub open spec fn wf(&self) -> bool {
        PeerKeys::points_valid(self.x_public@, self.s_bitcoin@, self.s_monero@)
    }

    /// The counterparty's keys, if each is a point of its curve.
    pub fn check(x_public: Vec<u8>, s_bitcoin: Vec<u8>, s_monero: Vec<u8>) -> (r: Result<
        PeerKeys,
        Error,
    >)
        ensures
            r is Ok <==> PeerKeys::points_valid(x_public@, s_bitcoin@, s_monero@),
            r is Ok ==> r.unwrap().wf() && r.unwrap().x_public == x_public
                && r.unwrap().s_bitcoin == s_bitcoin && r.unwrap().s_monero == s_monero,
            r is Err ==> r == Err::<PeerKeys, Error>(Error::InvalidCurvePoint),
    {
        if secp_point_check(&x_public) && secp_point_check(&s_bitcoin) && ed_point_check(
            &s_monero,
        ) {
            Ok(PeerKeys { x_public, s_bitcoin, s_monero })
        } else {
            Err(Error::InvalidCurvePoint)
        }
    }
}

/// Whether two byte strings are equal.
pub fn same_bytes(a: &Vec<u8>, b: &Vec<u8>) -> (r: bool)
    ensures
        r == (a@ == b@),
{
    if a.len() != b.len() {
        return false;
    }
    let mut i: usize = 0;
    while i < a.len()
        invariant
            a@.len() == b@.len(),
            i <= a@.len(),
            a@.subrange(0, i as int) == b@.subrange(0, i as int),
        decreases a@.len() - i,
    {
        if a[i] != b[i] {
            assert(a@[i as int] != b@[i as int]);
            return false;
        }
        assert(a@.subrange(0, i + 1) =~= a@.subrange(0, i as int).push(a@[i as int]));
        assert(b@.subrange(0, i + 1) =~= b@.subrange(0, i as int).push(b@[i as int]));
        i = i + 1;
    }
    assert(a@ =~= a@.subrange(0, a@.len() as int));
    assert(b@ =~= b@.subrange(0, b@.len() as int));
    true
}

/// A copy of a byte string.
pub fn copy_bytes(v: &Vec<u8>) -> (r: Vec<u8>)
    ensures
        r@ == v@,
{
    let mut r: Vec<u8> = Vec::new();
    let mut i: usize = 0;
    while i < v.len()
        invariant
            i <= v@.len(),
            r@ == v@.subrange(0, i as int),
        decreases v@.len() - i,
    {
        r.push(v[i]);
        i = i + 1;
    }
    assert(r@ =~= v@);
    r
}

} // verus!
