//! Atomic swap of bitcoin for monero between two parties who do not trust
//! each other: the two roles' state machines, the ladder of Bitcoin
//! transactions they sign, and the keys and adaptor signatures that tie the
//! two chains together.
use vstd::prelude::*;
use vstd::string::StringSliceAdditionalSpecFns;

pub mod alice;
pub mod bitcoin;
pub mod bob;
pub mod crypto;
pub mod monero;
pub mod protocol;

verus! {

/// XMR/BTC swap amounts: `btc` in satoshi, `xmr` in piconero.
#[derive(Clone, Copy, Debug, PartialEq, Eq, Structural)]
pub struct SwapAmounts {
    pub btc: u64,
    pub xmr: u64,
}

/// Commands sent from Bob to the main task.
#[derive(Clone, Copy, Debug, PartialEq, Eq, Structural)]
pub enum Cmd {
    VerifyAmounts(SwapAmounts),
}

/// Responses sent from the main task back to Bob.
#[derive(Clone, Copy, Debug, PartialEq, Eq, Structural)]
pub enum Rsp {
    VerifiedAmounts,
    Abort,
}

/// The answers that accept a swap: "y", "Y", "yes", "YES" and "Yes", in ASCII.
pub open spec fn is_yes_bytes(b: Seq<u8>) -> bool {
    ||| b == seq![121u8]
    ||| b == seq![89u8]
    ||| b == seq![121u8, 101u8, 115u8]
    ||| b == seq![89u8, 69u8, 83u8]
    ||| b == seq![89u8, 101u8, 115u8]
}

/// The answer with one trailing line feed (10), then one trailing carriage
/// return (13), taken off.
pub open spec fn trim_line_end(b: Seq<u8>) -> Seq<u8> {
    let b = if b.len() > 0 && b.last() == 10u8 { b.drop_last() } else { b };
    if b.len() > 0 && b.last() == 13u8 { b.drop_last() } else { b }
}

fn is_yes_prefix(b: &[u8], n: usize) -> (r: bool)
    requires
        n <= b@.len(),
    ensures
        r == is_yes_bytes(b@.subrange(0, n as int)),
{
    let ghost p = b@.subrange(0, n as int);
    let r = if n == 1 {
        b[0] == 121u8 || b[0] == 89u8
    } else if n == 3 {
        (b[0] == 121u8 && b[1] == 101u8 && b[2] == 115u8) || (b[0] == 89u8 && b[1] == 69u8 && b[2]
            == 83u8) || (b[0] == 89u8 && b[1] == 101u8 && b[2] == 115u8)
    } else {
        false
    };
    proof {
        let lits = seq![
            seq![121u8],
            seq![89u8],
            seq![121u8, 101u8, 115u8],
            seq![89u8, 69u8, 83u8],
            seq![89u8, 101u8, 115u8],
        ];
        assert forall|k: int| 0 <= k < 5 implies (p == #[trigger] lits[k] <==> (p.len()
            == lits[k].len() && forall|i: int| 0 <= i < p.len() ==> p[i] == lits[k][i])) by {
            if p.len() == lits[k].len() && forall|i: int| 0 <= i < p.len() ==> p[i] == lits[k][i] {
                assert(p =~= lits[k]);
            }
        }
        assert(lits[0].len() == 1 && lits[0][0] == 121u8);
        assert(lits[1].len() == 1 && lits[1][0] == 89u8);
        assert(lits[2].len() == 3 && lits[2][0] == 121u8 && lits[2][1] == 101u8 && lits[2][2] == 115u8);
        assert(lits[3].len() == 3 && lits[3][0] == 89u8 && lits[3][1] == 69u8 && lits[3][2] == 83u8);
        assert(lits[4].len() == 3 && lits[4][0] == 89u8 && lits[4][1] == 101u8 && lits[4][2] == 115u8);
        assert(p.len() == n);
        assert(forall|i: int| 0 <= i < p.len() ==> p[i] == b@[i]);
        assert(is_yes_bytes(p) <==> (p == lits[0] || p == lits[1] || p == lits[2] || p == lits[3]
            || p == lits[4]));
    }
    r
}

/// Whether an answer accepts the swap.
pub fn is_yes(s: &str) -> (r: bool)
    ensures
        r == is_yes_bytes(s.spec_bytes()),
{
    let b = s.as_bytes();
    assert(b@.subrange(0, b@.len() as int) =~= b@);
    is_yes_prefix(b, b.len())
}

/// Bob's response to the amounts that Alice offers, from the line he typed:
/// the swap goes on only if he answered yes.
pub fn response_to(line: &str) -> (r: Rsp)
    ensures
        r == (if is_yes_bytes(trim_line_end(line.spec_bytes())) {
            Rsp::VerifiedAmounts
        } else {
            Rsp::Abort
        }),
{
    let b = line.as_bytes();
    let mut n: usize = b.len();
    if n > 0 && b[n - 1] == 10u8 {
        n = n - 1;
    }
    if n > 0 && b[n - 1] == 13u8 {
        n = n - 1;
    }
    assert(b@.subrange(0, n as int) =~= trim_line_end(b@));
    if is_yes_prefix(b, n) {
        Rsp::VerifiedAmounts
    } else {
        Rsp::Abort
    }
}

/// Both parties build the same ladder, byte for byte. Once the first two
/// rounds are delivered as sent, Alice's and Bob's states hold the same lock
/// transaction, parameters and addresses; then their cancel, refund, punish
/// and redeem transactions have the same encodings, digests and ids, so each
/// signs exactly what the other checks.
pub proof fn lemma_parties_build_same_ladder(a: alice::State2, b: bob::State1)
    requires
        a.wf(),
        b.wf(),
        a.params == b.params,
        a.ladder.tx_lock@ == b.ladder.tx_lock@,
        a.ladder.refund_address@ == b.ladder.refund_address@,
        a.ladder.redeem_address@ == b.ladder.redeem_address@,
        a.ladder.punish_address@ == b.ladder.punish_address@,
    ensures
        a.ladder.cancel_spec() == b.ladder.cancel_spec(),
        a.ladder.refund_spec() == b.ladder.refund_spec(),
        a.ladder.punish_spec() == b.ladder.punish_spec(),
        a.ladder.redeem_spec() == b.ladder.redeem_spec(),
        bitcoin::digest_of(a.ladder.cancel_spec()) == bitcoin::digest_of(b.ladder.cancel_spec()),
        bitcoin::digest_of(a.ladder.refund_spec()) == bitcoin::digest_of(b.ladder.refund_spec()),
        bitcoin::digest_of(a.ladder.punish_spec()) == bitcoin::digest_of(b.ladder.punish_spec()),
        bitcoin::digest_of(a.ladder.redeem_spec()) == bitcoin::digest_of(b.ladder.redeem_spec()),
        bitcoin::txid_of(a.ladder.refund_spec()) == bitcoin::txid_of(b.ladder.refund_spec()),
        bitcoin::txid_of(a.ladder.redeem_spec()) == bitcoin::txid_of(b.ladder.redeem_spec()),
{
}

/// An honest first message is accepted: the keys that Bob's well-formed first
/// state sends, with a proof that verifies, pass all of Alice's checks.
pub proof fn lemma_alice_accepts_honest_keys(b: bob::State0, msg: bob::Message0)
    requires
        b.wf(),
        msg.b_public@ == b.keys.x_public@,
        msg.s_b_bitcoin@ == b.keys.s_bitcoin@,
        msg.s_b_monero@ == b.keys.s_monero@,
        msg.v_b@ == b.keys.v@,
    ensures
        alice::peer_keys_error(msg, true) is None,
{
}

/// An honest first message is accepted: the keys that Alice's well-formed
/// first state sends, with a proof that verifies, pass all of Bob's checks.
pub proof fn lemma_bob_accepts_honest_keys(a: alice::State0, msg: alice::Message0)
    requires
        a.wf(),
        msg.a_public@ == a.keys.x_public@,
        msg.s_a_bitcoin@ == a.keys.s_bitcoin@,
        msg.s_a_monero@ == a.keys.s_monero@,
        msg.v_a@ == a.keys.v@,
    ensures
        bob::peer_keys_error(msg, true) is None,
{
}

} // verus!
