//! What the Monero wallet is handed and hands back.
use vstd::prelude::*;

verus! {

/// What the sender's wallet hands back after a transfer, for the receiver to
/// check the transfer with.
#[derive(Clone, Debug)]
pub struct TransferProof {
    pub tx_hash: Vec<u8>,
    pub tx_key: Vec<u8>,
}

/// A transfer of `amount` piconero to the output of spend point `spend_point`
/// that view key `view_point` sees: what Alice sends and Bob checks.
#[derive(Clone, Debug)]
pub struct TransferRequest {
    pub spend_point: Vec<u8>,
    pub view_point: Vec<u8>,
    pub amount: u64,
}

/// The spend and view secret keys of the locked output, for a wallet to
/// import it.
#[derive(Clone, Debug)]
pub struct MoneroKeys {
    pub spend_key: Vec<u8>,
    pub view_key: Vec<u8>,
}

} // verus!
