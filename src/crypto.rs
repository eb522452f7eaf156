//! Keys, signatures and adaptor signatures, held as bytes.
//!
//! Secp256k1 scalars are 32 big-endian bytes and points 33 compressed bytes;
//! ed25519 scalars and points are 32 little-endian bytes, as Monero writes them.
//! An adaptor signature is held as the hex text that ecdsa_fun prints for it.
//! Every operation on them is made by an outside crate, and its result is
//! named by an uninterpreted spec function of the bytes.
use vstd::prelude::*;

use ecdsa_fun::adaptor::{Adaptor, EncryptedSignature, HashTranscript};
use ecdsa_fun::fun::marker::{NonZero, Normal, Public, Secret, Zero};
use ecdsa_fun::fun::{Point, Scalar};
use ecdsa_fun::nonce::Deterministic;
use ecdsa_fun::{Signature, ECDSA};
use monero::{PrivateKey, PublicKey};
use rand::rngs::StdRng;
use sha2::{Digest, Sha256};

verus! {

type AdaptorScheme = Adaptor<HashTranscript<Sha256, StdRng>, Deterministic<Sha256>>;

/// Order of the secp256k1 group.
pub open spec fn secp_order() -> nat {
    0xFFFFFFFFFFFFFFFFFFFFFFFFFFFFFFFEBAAEDCE6AF48A03BBFD25E8CD0364141nat
}

/// Order of the prime-order subgroup of ed25519.
pub open spec fn ed_order() -> nat {
    0x1000000000000000000000000000000014DEF9DEA2F79CD65812631A5CF5D3EDnat
}

/// The natural number that `b` writes in big-endian order.
pub open spec fn be_nat(b: Seq<u8>) -> nat
    decreases b.len(),
{
    if b.len() == 0 {
        0
    } else {
        be_nat(b.drop_last()) * 256 + b.last() as nat
    }
}

/// The natural number that `b` writes in little-endian order.
pub open spec fn le_nat(b: Seq<u8>) -> nat
    decreases b.len(),
{
    if b.len() == 0 {
        0
    } else {
        b[0] as nat + 256 * le_nat(b.drop_first())
    }
}

/// A secp256k1 secret key: 32 bytes of a non-zero integer below the group order.
pub open spec fn secp_scalar_valid(b: Seq<u8>) -> bool {
    b.len() == 32 && 0 < be_nat(b) < secp_order()
}

/// An ed25519 (Monero) secret key: 32 bytes of an integer below the group order.
pub open spec fn ed_scalar_canonical(b: Seq<u8>) -> bool {
    b.len() == 32 && le_nat(b) < ed_order()
}

/// The compressed point `x * G` on secp256k1.
pub uninterp spec fn secp_public_of(x: Seq<u8>) -> Seq<u8>;

/// Whether 33 bytes are the compressed form of a non-zero secp256k1 point.
pub uninterp spec fn secp_point_valid(p: Seq<u8>) -> bool;

/// The deterministic ECDSA signature of a 32-byte digest under secret key `x`.
pub uninterp spec fn ecdsa_sig_of(x: Seq<u8>, digest: Seq<u8>) -> Seq<u8>;

/// Whether `sig` is a valid ECDSA signature of `digest` under public key `pk`
/// (false where one of them does not parse).
pub uninterp spec fn ecdsa_valid_of(pk: Seq<u8>, digest: Seq<u8>, sig: Seq<u8>) -> bool;

/// The adaptor signature of `digest` under secret key `x`, encrypted to point `y`.
pub uninterp spec fn encsig_of(x: Seq<u8>, y: Seq<u8>, digest: Seq<u8>) -> Seq<char>;

/// Whether adaptor signature `e` decrypts to a signature of `digest` under `pk`
/// with the secret key of encryption point `y` (false where one does not parse).
pub uninterp spec fn encsig_valid_of(pk: Seq<u8>, y: Seq<u8>, digest: Seq<u8>, e: Seq<char>) -> bool;

/// The signature that decryption key `y` gives from adaptor signature `e`
/// (none where `e` does not parse).
pub uninterp spec fn decrypted_of(y: Seq<u8>, e: Seq<char>) -> Option<Seq<u8>>;

/// The decryption key that signature `sig` and adaptor signature `e` reveal for
/// encryption point `y`, where `sig` was decrypted from `e`.
pub uninterp spec fn recovered_of(y: Seq<u8>, sig: Seq<u8>, e: Seq<char>) -> Option<Seq<u8>>;

/// The compressed point `s * G` on ed25519.
pub uninterp spec fn ed_public_of(s: Seq<u8>) -> Seq<u8>;

/// The `len` little-endian bytes of `n`, modulo `256^len`.
pub open spec fn le_bytes(n: nat, len: nat) -> Seq<u8>
    decreases len,
{
    if len == 0 {
        seq![]
    } else {
        seq![(n % 256) as u8] + le_bytes(n / 256, (len - 1) as nat)
    }
}

pub open spec fn pow256(len: nat) -> nat
    decreases len,
{
    if len == 0 {
        1
    } else {
        256 * pow256((len - 1) as nat)
    }
}

/// `le_bytes` writes `n` modulo `256^len` in `len` bytes.
pub proof fn lemma_le_bytes(n: nat, len: nat)
    ensures
        le_bytes(n, len).len() == len,
        le_nat(le_bytes(n, len)) == n % pow256(len),
    decreases len,
{
    if len > 0 {
        let t = le_bytes(n / 256, (len - 1) as nat);
        lemma_le_bytes(n / 256, (len - 1) as nat);
        assert(le_bytes(n, len).drop_first() =~= t);
        lemma_pow256_positive((len - 1) as nat);
        vstd::arithmetic::div_mod::lemma_mod_breakdown(n as int, 256, pow256((len - 1) as nat) as int);
    }
}

pub proof fn lemma_pow256_positive(len: nat)
    ensures
        pow256(len) > 0,
    decreases len,
{
    if len > 0 {
        lemma_pow256_positive((len - 1) as nat);
    }
}

/// A sum of scalars is a canonical scalar.
pub proof fn lemma_ed_scalar_sum_canonical(a: Seq<u8>, b: Seq<u8>)
    ensures
        ed_scalar_canonical(ed_scalar_sum_of(a, b)),
{
    let n = ((le_nat(a) + le_nat(b)) % ed_order()) as nat;
    lemma_le_bytes(n, 32);
    reveal_with_fuel(pow256, 33);
    assert(pow256(32) == 0x10000000000000000000000000000000000000000000000000000000000000000nat);
    assert(n < ed_order());
    vstd::arithmetic::div_mod::lemma_small_mod(n, pow256(32));
}

/// The sum of two ed25519 scalars modulo the group order, in 32 bytes.
pub open spec fn ed_scalar_sum_of(a: Seq<u8>, b: Seq<u8>) -> Seq<u8> {
    le_bytes((le_nat(a) + le_nat(b)) % ed_order(), 32)
}

/// Whether 32 bytes are the canonical compressed form of an ed25519 point.
pub uninterp spec fn ed_point_valid(p: Seq<u8>) -> bool;

/// The compressed sum of two ed25519 points.
pub uninterp spec fn ed_point_sum_of(a: Seq<u8>, b: Seq<u8>) -> Seq<u8>;

/// The SHA-256 digest of `data`.
pub uninterp spec fn sha256_of(data: Seq<u8>) -> Seq<u8>;

/// Relies on secp256kfun's `Scalar::from_bytes` and `non_zero` (which accept
/// exactly the non-zero integers below the order) and on
/// `ECDSA::verification_key_for`, which computes `x * G`: a non-zero point,
/// whose compressed bytes `Point::from_bytes` parses back.
#[verifier::external_body]
pub(crate) fn secp_public_key(x: &Vec<u8>) -> (r: Option<Vec<u8>>)
    ensures
        r.is_some() <==> secp_scalar_valid(x@),
        r.is_some() ==> r.unwrap()@ == secp_public_of(x@) && r.unwrap()@.len() == 33,
        r.is_some() ==> secp_point_valid(r.unwrap()@),
{
    let bytes: [u8; 32] = x.as_slice().try_into().ok()?;
    let x = Scalar::<Secret, Zero>::from_bytes(bytes)?.non_zero()?;
    Some(ECDSA::verify_only().verification_key_for(&x).to_bytes().to_vec())
}

/// Relies on secp256kfun's `Point::from_bytes`: whether the bytes parse as a
/// non-zero point.
#[verifier::external_body]
pub(crate) fn secp_point_check(p: &Vec<u8>) -> (r: bool)
    ensures
        r == (p@.len() == 33 && secp_point_valid(p@)),
{
    match <[u8; 33]>::try_from(p.as_slice()) {
        Ok(bytes) => Point::<Normal, Public, NonZero>::from_bytes(bytes).is_some(),
        Err(_) => false,
    }
}

/// Relies on ecdsa_fun's `ECDSA::sign` with deterministic nonces, whose
/// signature depends on the key and the digest alone and verifies under the
/// key's public point (its documented example).
#[verifier::external_body]
pub(crate) fn ecdsa_sign(x: &Vec<u8>, digest: &Vec<u8>) -> (r: Vec<u8>)
    requires
        secp_scalar_valid(x@),
        digest@.len() == 32,
    ensures
        r@ == ecdsa_sig_of(x@, digest@),
        r@.len() == 64,
        ecdsa_valid_of(secp_public_of(x@), digest@, r@),
{
    let x = Scalar::<Secret, NonZero>::from_slice(x.as_slice()).unwrap();
    let digest: [u8; 32] = digest.as_slice().try_into().unwrap();
    ECDSA::new(Deterministic::<Sha256>::default()).sign(&x, &digest).to_bytes().to_vec()
}

/// Relies on ecdsa_fun's `ECDSA::verify`, after `Point::from_bytes` and
/// `Signature::from_bytes`.
#[verifier::external_body]
pub(crate) fn ecdsa_verify(pk: &Vec<u8>, digest: &Vec<u8>, sig: &Vec<u8>) -> (r: bool)
    ensures
        r == ecdsa_valid_of(pk@, digest@, sig@),
{
    let (Ok(pk), Ok(digest), Ok(sig)) = (<[u8; 33]>::try_from(pk.as_slice()),
        <[u8; 32]>::try_from(digest.as_slice()), <[u8; 64]>::try_from(sig.as_slice())) else {
        return false;
    };
    let (Some(pk), Some(sig)) = (Point::from_bytes(pk), Signature::from_bytes(sig)) else {
        return false;
    };
    ECDSA::verify_only().verify(&pk, &digest, &sig)
}

/// Relies on ecdsa_fun's `Adaptor::encrypted_sign` with deterministic nonces,
/// whose result depends on its arguments alone, printed as hex; it passes
/// `verify_encrypted_signature` under the signer's public point (the
/// module's synopsis).
#[verifier::external_body]
pub(crate) fn encsign(x: &Vec<u8>, y: &Vec<u8>, digest: &Vec<u8>) -> (r: String)
    requires
        secp_scalar_valid(x@),
        y@.len() == 33 && secp_point_valid(y@),
        digest@.len() == 32,
    ensures
        r@ == encsig_of(x@, y@, digest@),
        encsig_valid_of(secp_public_of(x@), y@, digest@, r@),
{
    let x = Scalar::<Secret, NonZero>::from_slice(x.as_slice()).unwrap();
    let y = Point::from_bytes(<[u8; 33]>::try_from(y.as_slice()).unwrap()).unwrap();
    let digest: [u8; 32] = digest.as_slice().try_into().unwrap();
    AdaptorScheme::default().encrypted_sign(&x, &y, &digest).to_string()
}

/// Relies on ecdsa_fun's `Adaptor::verify_encrypted_signature`, after parsing
/// the points and the hex text of the adaptor signature. As documented there,
/// a valid adaptor signature decrypts, with the secret key of `y`, to a
/// signature of `digest` under `pk`.
#[verifier::external_body]
pub(crate) fn encsig_verify(pk: &Vec<u8>, y: &Vec<u8>, digest: &Vec<u8>, e: &String) -> (r: bool)
    ensures
        r == encsig_valid_of(pk@, y@, digest@, e@),
        r ==> forall|k: Seq<u8>|
            secp_scalar_valid(k) && secp_public_of(k) == y@ ==> (#[trigger] decrypted_of(k, e@)) is Some
                && ecdsa_valid_of(pk@, digest@, decrypted_of(k, e@)->0),
{
    let (Ok(pk), Ok(y), Ok(digest)) = (<[u8; 33]>::try_from(pk.as_slice()),
        <[u8; 33]>::try_from(y.as_slice()), <[u8; 32]>::try_from(digest.as_slice())) else {
        return false;
    };
    let (Some(pk), Some(y), Ok(e)) = (Point::<Normal, Public, NonZero>::from_bytes(pk),
        Point::from_bytes(y), e.parse::<EncryptedSignature>()) else {
        return false;
    };
    AdaptorScheme::default().verify_encrypted_signature(&pk, &y, &digest, &e)
}

/// Relies on ecdsa_fun's `Adaptor::decrypt_signature`, after parsing the hex
/// text of the adaptor signature.
#[verifier::external_body]
pub(crate) fn decrypt_signature(y: &Vec<u8>, e: &String) -> (r: Option<Vec<u8>>)
    requires
        secp_scalar_valid(y@),
    ensures
        decrypted_of(y@, e@) == (match r { Some(s) => Some(s@), None => None::<Seq<u8>> }),
        r.is_some() ==> r.unwrap()@.len() == 64,
{
    let y = Scalar::<Secret, NonZero>::from_slice(y.as_slice()).unwrap();
    let e = e.parse::<EncryptedSignature>().ok()?;
    Some(AdaptorScheme::default().decrypt_signature(&y, e).to_bytes().to_vec())
}

/// Relies on ecdsa_fun's `Adaptor::recover_decryption_key`, whose key is
/// non-zero and is returned only where its point is `y`, after parsing its
/// arguments: from a signature decrypted from `e` with the secret key of `y`,
/// it recovers that key.
#[verifier::external_body]
pub(crate) fn recover_decryption_key(y: &Vec<u8>, sig: &Vec<u8>, e: &String) -> (r: Option<Vec<u8>>)
    ensures
        recovered_of(y@, sig@, e@) == (match r { Some(s) => Some(s@), None => None::<Seq<u8>> }),
        r.is_some() ==> secp_scalar_valid(r.unwrap()@),
        r.is_some() ==> secp_public_of(r.unwrap()@) == y@,
        forall|k: Seq<u8>|
            secp_scalar_valid(k) && secp_public_of(k) == y@ && #[trigger] decrypted_of(k, e@) == Some(
                sig@,
            ) ==> r.is_some() && r.unwrap()@ == k,
{
    let y = Point::<Normal, Public, NonZero>::from_bytes(<[u8; 33]>::try_from(y.as_slice()).ok()?)?;
    let sig = Signature::from_bytes(<[u8; 64]>::try_from(sig.as_slice()).ok()?)?;
    let e = e.parse::<EncryptedSignature>().ok()?;
    let key = AdaptorScheme::default().recover_decryption_key(&y, &sig, &e)?;
    Some(key.to_bytes().to_vec())
}

/// Relies on secp256kfun's `Scalar::random`: a non-zero scalar drawn from the
/// thread's random number generator.
#[verifier::external_body]
pub(crate) fn random_secp_scalar() -> (r: Vec<u8>)
    ensures
        secp_scalar_valid(r@),
{
    Scalar::random(&mut rand::thread_rng()).to_bytes().to_vec()
}

/// Relies on rand's `random`: 32 bytes drawn from the thread's random number
/// generator.
#[verifier::external_body]
pub(crate) fn random_bytes() -> (r: Vec<u8>)
    ensures
        r@.len() == 32,
{
    rand::random::<[u8; 32]>().to_vec()
}

/// Relies on monero's `PrivateKey::from_slice` (which accepts exactly the
/// canonical scalars) and `PublicKey::from_private_key`, whose compressed
/// point `PublicKey::from_slice` accepts.
#[verifier::external_body]
pub(crate) fn ed_public_key(s: &Vec<u8>) -> (r: Option<Vec<u8>>)
    ensures
        r.is_some() <==> ed_scalar_canonical(s@),
        r.is_some() ==> r.unwrap()@ == ed_public_of(s@) && r.unwrap()@.len() == 32,
        r.is_some() ==> ed_point_valid(r.unwrap()@),
{
    let key = PrivateKey::from_slice(s.as_slice()).ok()?;
    Some(PublicKey::from_private_key(&key).to_bytes().to_vec())
}

/// Relies on monero's `PrivateKey` addition, which adds the scalars modulo the
/// group order (curve25519-dalek keeps scalars reduced).
#[verifier::external_body]
pub(crate) fn ed_scalar_sum(a: &Vec<u8>, b: &Vec<u8>) -> (r: Option<Vec<u8>>)
    ensures
        r.is_some() <==> (ed_scalar_canonical(a@) && ed_scalar_canonical(b@)),
        r.is_some() ==> r.unwrap()@ == ed_scalar_sum_of(a@, b@),
{
    let a = PrivateKey::from_slice(a.as_slice()).ok()?;
    let b = PrivateKey::from_slice(b.as_slice()).ok()?;
    Some((a + b).to_bytes().to_vec())
}

/// Relies on monero's `PublicKey::from_slice`: whether the bytes are a
/// canonical compressed point.
#[verifier::external_body]
pub(crate) fn ed_point_check(p: &Vec<u8>) -> (r: bool)
    ensures
        r == ed_point_valid(p@),
{
    PublicKey::from_slice(p.as_slice()).is_ok()
}

/// Relies on monero's `PublicKey` addition, after `PublicKey::from_slice`:
/// points of `G`-multiples add as their scalars do, modulo the group order.
#[verifier::external_body]
pub(crate) fn ed_point_sum(a: &Vec<u8>, b: &Vec<u8>) -> (r: Option<Vec<u8>>)
    ensures
        r.is_some() <==> (ed_point_valid(a@) && ed_point_valid(b@)),
        r.is_some() ==> r.unwrap()@ == ed_point_sum_of(a@, b@) && r.unwrap()@.len() == 32,
        forall|sa: Seq<u8>, sb: Seq<u8>|
            ed_scalar_canonical(sa) && ed_scalar_canonical(sb) && #[trigger] ed_public_of(sa) == a@
                && #[trigger] ed_public_of(sb) == b@ ==> r.is_some() && r.unwrap()@ == ed_public_of(
                ed_scalar_sum_of(sa, sb),
            ),
{
    let a = PublicKey::from_slice(a.as_slice()).ok()?;
    let b = PublicKey::from_slice(b.as_slice()).ok()?;
    Some((a + b).to_bytes().to_vec())
}

/// Relies on sha2's `Sha256::digest`.
#[verifier::external_body]
pub(crate) fn sha256(data: &Vec<u8>) -> (r: Vec<u8>)
    ensures
        r@ == sha256_of(data@),
        r@.len() == 32,
{
    Sha256::digest(data.as_slice()).to_vec()
}


/// The bytes of `s` in the opposite order.
pub open spec fn reverse_bytes(s: Seq<u8>) -> Seq<u8> {
    Seq::new(s.len(), |i: int| s[s.len() - 1 - i])
}

/// The same integer in the other byte order: a cross-curve secret is held in
/// ed25519's little-endian order and handed to secp256k1 in big-endian order.
pub fn reverse_byte_order(s: &Vec<u8>) -> (r: Vec<u8>)
    ensures
        r@ == reverse_bytes(s@),
{
    let mut r: Vec<u8> = Vec::new();
    let mut i: usize = s.len();
    while i > 0
        invariant
            i <= s@.len(),
            r@.len() == s@.len() - i,
            forall|j: int| 0 <= j < r@.len() ==> r@[j] == s@[s@.len() - 1 - j],
        decreases i,
    {
        i = i - 1;
        r.push(s[i]);
    }
    assert(r@ =~= reverse_bytes(s@));
    r
}

} // verus!
