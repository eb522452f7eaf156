//! Driving Bob's state machine: one step per input, each input being what
//! the caller's loop awaited for the current state (a message from Alice, or
//! a wallet's report). A step consumes the state only when it succeeds; a
//! refused step hands the state back with the reason.
use vstd::prelude::*;

use crate::alice;
use crate::bob::{
    after_lock_broadcast, after_peer_keys, after_presigs, after_redeem_seen, after_xmr_checked,
    peer_keys_error, presigs_error, redeem_sig_error, State,
};
use crate::protocol::Error;

verus! {

/// What Bob's loop hands to the next step.
#[derive(Clone, Debug)]
pub enum Input {
    /// Alice's first message, with the verdict on the cross-curve proof in
    /// it and the id of the lock transaction that Bob's wallet built.
    PeerKeys { message: alice::Message, dleq_proof_valid: bool, tx_lock_txid: Vec<u8> },
    /// Alice's second message.
    Message(alice::Message),
    /// The wallet has signed and broadcast the lock transaction.
    LockBroadcast,
    /// Alice's transfer proof, with the wallet's verdict on the transfer.
    Transfer { message: alice::Message, transfer_valid: bool },
    /// Alice's redeem transaction is on chain, with Bob's signature in it.
    RedeemSeen { tx_redeem_sig: Vec<u8> },
}

/// Why a step was refused.
#[derive(Clone, Debug)]
pub enum StepError {
    /// The awaited input failed the step's checks.
    Rejected(Error),
    /// A message of another kind than the one awaited, carried back.
    UnexpectedMessage(alice::UnexpectedMessage),
    /// An input that the state does not await, carried back.
    UnexpectedInput(Input),
}

/// The transport and the two wallets that Bob's loop works with.
pub struct Node<T, B, M> {
    pub transport: T,
    pub bitcoin_wallet: B,
    pub monero_wallet: M,
}

impl<T, B, M> Node<T, B, M> {
    pub fn new(transport: T, bitcoin_wallet: B, monero_wallet: M) -> (r: Node<T, B, M>)
        ensures
            r.transport == transport,
            r.bitcoin_wallet == bitcoin_wallet,
            r.monero_wallet == monero_wallet,
    {
        Node { transport, bitcoin_wallet, monero_wallet }
    }
}

/// The input that a state awaits, by its stage; the last state, where the
/// swap has ended, awaits none.
pub open spec fn awaits(state: State, input: Input) -> bool {
    match state {
        State::State0(_) => input is PeerKeys && input->PeerKeys_message is Message0,
        State::State1(_) => input is Message && input->Message_0 is Message1,
        State::State2(_) => input is LockBroadcast,
        State::State2b(_) => input is Transfer && input->Transfer_message is Message2,
        State::State3(_) => input is RedeemSeen,
        State::State4(_) => false,
    }
}

/// Whether the input is a message, but not the one the state awaits.
pub open spec fn wrong_message(state: State, input: Input) -> bool {
    !awaits(state, input) && match state {
        State::State0(_) => input is PeerKeys,
        State::State1(_) => input is Message,
        State::State2b(_) => input is Transfer,
        _ => false,
    }
}

/// The message that an input carries, if any.
pub open spec fn message_of(input: Input) -> alice::Message {
    match input {
        Input::PeerKeys { message, .. } => message,
        Input::Message(m) => m,
        Input::Transfer { message, .. } => message,
        _ => arbitrary(),
    }
}

/// Why the awaited input is refused, if it is. A transfer that the wallet
/// finds short or misdirected is a `TransferMismatch`.
pub open spec fn rejection(state: State, input: Input) -> Option<Error> {
    match (state, input) {
        (
            State::State0(_),
            Input::PeerKeys { message: alice::Message::Message0(m), dleq_proof_valid, .. },
        ) => peer_keys_error(m, dleq_proof_valid),
        (State::State1(s), Input::Message(alice::Message::Message1(m))) => presigs_error(s, m),
        (State::State2b(_), Input::Transfer { transfer_valid, .. }) => if transfer_valid {
            None
        } else {
            Some(Error::TransferMismatch)
        },
        (State::State3(s), Input::RedeemSeen { tx_redeem_sig }) => redeem_sig_error(s, tx_redeem_sig@),
        _ => None,
    }
}

/// One step of Bob's protocol: the state consumes the input it awaits and
/// becomes the next one. Otherwise the step hands the state back, unchanged,
/// with the reason: the check that failed, or the message or input that came
/// instead of the awaited one. A message of the wrong kind is never
/// reinterpreted. The last state is where the swap ends: a step there
/// leaves it as it is, whatever the input.
pub fn next_state(state: State, input: Input) -> (r: Result<State, (State, StepError)>)
    requires
        state.wf(),
    ensures
        r is Err ==> r->Err_0.0 == state,
        wrong_message(state, input) ==> r is Err && r->Err_0.1 is UnexpectedMessage
            && r->Err_0.1->UnexpectedMessage_0.received == message_of(input),
        state is State4 ==> r == Ok::<State, (State, StepError)>(state),
        !(state is State4) && !awaits(state, input) && !wrong_message(state, input) ==> r is Err
            && r->Err_0.1 == StepError::UnexpectedInput(input),
        awaits(state, input) ==> (r is Ok <==> rejection(state, input) is None),
        awaits(state, input) && rejection(state, input) is Some ==> r is Err && r->Err_0.1
            == StepError::Rejected(rejection(state, input)->0),
        r is Ok ==> r.unwrap().wf(),
        r is Ok && !(state is State4) ==> r.unwrap().stage() == state.stage() + 1,
        r is Ok && !(state is State4) ==> match (state, input, r.unwrap()) {
            (
                State::State0(s),
                Input::PeerKeys { message: alice::Message::Message0(m), tx_lock_txid, .. },
                State::State1(t),
            ) => after_peer_keys(s, m, tx_lock_txid, t),
            (State::State1(s), Input::Message(alice::Message::Message1(m)), State::State2(t)) =>
                after_presigs(s, m, t),
            (State::State2(s), Input::LockBroadcast, State::State2b(t)) => after_lock_broadcast(s, t),
            (
                State::State2b(s),
                Input::Transfer { message: alice::Message::Message2(m), .. },
                State::State3(t),
            ) => after_xmr_checked(s, m, t),
            (State::State3(s), Input::RedeemSeen { tx_redeem_sig }, State::State4(t)) =>
                after_redeem_seen(s, tx_redeem_sig@, t),
            _ => false,
        },
{
    match state {
        State::State0(s) => match input {
            Input::PeerKeys { message, dleq_proof_valid, tx_lock_txid } => match message {
                alice::Message::Message0(m) => match s.check_message0(&m, dleq_proof_valid) {
                    Some(e) => Err((State::State0(s), StepError::Rejected(e))),
                    None => match s.receive(m, dleq_proof_valid, tx_lock_txid) {
                        Ok(t) => Ok(State::State1(t)),
                        Err(_) => unreached(),
                    },
                },
                other => Err(
                    (
                        State::State0(s),
                        StepError::UnexpectedMessage(alice::UnexpectedMessage::new("Message0", other)),
                    ),
                ),
            },
            other => Err((State::State0(s), StepError::UnexpectedInput(other))),
        },
        State::State1(s) => match input {
            Input::Message(message) => match message {
                alice::Message::Message1(m) => match s.check_message1(&m) {
                    Some(e) => Err((State::State1(s), StepError::Rejected(e))),
                    None => match s.receive(m) {
                        Ok(t) => Ok(State::State2(t)),
                        Err(_) => unreached(),
                    },
                },
                other => Err(
                    (
                        State::State1(s),
                        StepError::UnexpectedMessage(alice::UnexpectedMessage::new("Message1", other)),
                    ),
                ),
            },
            other => Err((State::State1(s), StepError::UnexpectedInput(other))),
        },
        State::State2(s) => match input {
            Input::LockBroadcast => Ok(State::State2b(s.lock_btc())),
            other => Err((State::State2(s), StepError::UnexpectedInput(other))),
        },
        State::State2b(s) => match input {
            Input::Transfer { message, transfer_valid } => match message {
                alice::Message::Message2(m) => if transfer_valid {
                    match s.watch_for_lock_xmr(m, transfer_valid) {
                        Ok(t) => Ok(State::State3(t)),
                        Err(_) => unreached(),
                    }
                } else {
                    Err((State::State2b(s), StepError::Rejected(Error::TransferMismatch)))
                },
                other => Err(
                    (
                        State::State2b(s),
                        StepError::UnexpectedMessage(alice::UnexpectedMessage::new("Message2", other)),
                    ),
                ),
            },
            other => Err((State::State2b(s), StepError::UnexpectedInput(other))),
        },
        State::State3(s) => match input {
            Input::RedeemSeen { tx_redeem_sig } => match s.check_redeem_sig(&tx_redeem_sig) {
                Some(e) => Err((State::State3(s), StepError::Rejected(e))),
                None => match s.watch_for_redeem_btc(&tx_redeem_sig) {
                    Ok(t) => Ok(State::State4(t)),
                    Err(_) => unreached(),
                },
            },
            other => Err((State::State3(s), StepError::UnexpectedInput(other))),
        },
        State::State4(s) => Ok(State::State4(s)),
    }
}

} // verus!
