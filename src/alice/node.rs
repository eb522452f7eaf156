//! Driving Alice's state machine: one step per input, each input being what
//! the caller's loop awaited for the current state (a message from Bob, or a
//! wallet's report). A step consumes the state only when it succeeds; a
//! refused step hands the state back with the reason.
use vstd::prelude::*;

use crate::alice::{
    after_lock_confirmed, after_peer_keys, after_presigs, after_redeem_encsig, after_tx_lock,
    after_xmr_locked, peer_keys_error, presigs_error, redeem_encsig_error, tx_lock_error, State,
};
use crate::bob;
use crate::monero::TransferProof;
use crate::protocol::Error;

verus! {

/// What Alice's loop hands to the next step.
#[derive(Clone, Debug)]
pub enum Input {
    /// Bob's first message, with the verdict on the cross-curve proof in it.
    PeerKeys { message: bob::Message, dleq_proof_valid: bool },
    /// Any later message from Bob.
    Message(bob::Message),
    /// The wallet has seen the lock transaction confirmed.
    LockConfirmed,
    /// The wallet has made the Monero transfer.
    XmrLocked { proof: TransferProof, fee: u64 },
}

/// Why a step was refused.
#[derive(Clone, Debug)]
pub enum StepError {
    /// The awaited input failed the step's checks.
    Rejected(Error),
    /// A message of another kind than the one awaited, carried back.
    UnexpectedMessage(bob::UnexpectedMessage),
    /// An input that the state does not await, carried back.
    UnexpectedInput(Input),
}

/// The transport and the two wallets that Alice's loop works with.
pub struct Node<T, B, M> {
    pub transport: T,
    pub bitcoin_wallet: B,
    pub monero_wallet: M,
}

impl<T, B, M> Node<T, B, M> {
    pub fn new(transport: T, bitcoin_wallet: B, monero_wallet: M) -> (r: Node<T, B, M>)
        ensures
            r.transport == transport,
            r.bitcoin_wallet == bitcoin_wallet,
            r.monero_wallet == monero_wallet,
    {
        Node { transport, bitcoin_wallet, monero_wallet }
    }
}

/// The input that a state awaits, by its stage; the last state, where the
/// swap has ended, awaits none.
pub open spec fn awaits(state: State, input: Input) -> bool {
    match state {
        State::State0(_) => input is PeerKeys && input->PeerKeys_message is Message0,
        State::State1(_) => input is Message && input->Message_0 is Message1,
        State::State2(_) => input is Message && input->Message_0 is Message2,
        State::State3(_) => input is LockConfirmed,
        State::State4(_) => input is XmrLocked,
        State::State4b(_) => input is Message && input->Message_0 is Message3,
        State::State5(_) => false,
    }
}

/// Whether the input is a message, but not the one the state awaits.
pub open spec fn wrong_message(state: State, input: Input) -> bool {
    !awaits(state, input) && match state {
        State::State0(_) => input is PeerKeys,
        State::State1(_) | State::State2(_) | State::State4b(_) => input is Message,
        _ => false,
    }
}

/// The message that an input carries, if any.
pub open spec fn message_of(input: Input) -> bob::Message {
    match input {
        Input::PeerKeys { message, .. } => message,
        Input::Message(m) => m,
        _ => arbitrary(),
    }
}

/// Why the awaited input is refused, if it is.
pub open spec fn rejection(state: State, input: Input) -> Option<Error> {
    match (state, input) {
        (State::State0(_), Input::PeerKeys { message: bob::Message::Message0(m), dleq_proof_valid }) =>
            peer_keys_error(m, dleq_proof_valid),
        (State::State1(s), Input::Message(bob::Message::Message1(m))) => tx_lock_error(s, m),
        (State::State2(s), Input::Message(bob::Message::Message2(m))) => presigs_error(s, m),
        (State::State4b(s), Input::Message(bob::Message::Message3(m))) => redeem_encsig_error(s, m),
        _ => None,
    }
}

/// One step of Alice's protocol: the state consumes the input it awaits and
/// becomes the next one. Otherwise the step hands the state back, unchanged,
/// with the reason: the check that failed, or the message or input that came
/// instead of the awaited one. A message of the wrong kind is never
/// reinterpreted. The last state is where the swap ends: a step there
/// leaves it as it is, whatever the input.
pub fn next_state(state: State, input: Input) -> (r: Result<State, (State, StepError)>)
    requires
        state.wf(),
    ensures
        r is Err ==> r->Err_0.0 == state,
        wrong_message(state, input) ==> r is Err && r->Err_0.1 is UnexpectedMessage
            && r->Err_0.1->UnexpectedMessage_0.received == message_of(input),
        state is State5 ==> r == Ok::<State, (State, StepError)>(state),
        !(state is State5) && !awaits(state, input) && !wrong_message(state, input) ==> r is Err
            && r->Err_0.1 == StepError::UnexpectedInput(input),
        awaits(state, input) ==> (r is Ok <==> rejection(state, input) is None),
        awaits(state, input) && rejection(state, input) is Some ==> r is Err && r->Err_0.1
            == StepError::Rejected(rejection(state, input)->0),
        r is Ok ==> r.unwrap().wf(),
        r is Ok && !(state is State5) ==> r.unwrap().stage() == state.stage() + 1,
        r is Ok && !(state is State5) ==> match (state, input, r.unwrap()) {
            (
                State::State0(s),
                Input::PeerKeys { message: bob::Message::Message0(m), .. },
                State::State1(t),
            ) => after_peer_keys(s, m, t),
            (State::State1(s), Input::Message(bob::Message::Message1(m)), State::State2(t)) =>
                after_tx_lock(s, m, t),
            (State::State2(s), Input::Message(bob::Message::Message2(m)), State::State3(t)) =>
                after_presigs(s, m, t),
            (State::State3(s), Input::LockConfirmed, State::State4(t)) => after_lock_confirmed(s, t),
            (State::State4(s), Input::XmrLocked { proof, fee }, State::State4b(t)) =>
                after_xmr_locked(s, proof, fee, t),
            (State::State4b(s), Input::Message(bob::Message::Message3(m)), State::State5(t)) =>
                after_redeem_encsig(s, m, t),
            _ => false,
        },
{
    match state {
        State::State0(s) => match input {
            Input::PeerKeys { message, dleq_proof_valid } => match message {
                bob::Message::Message0(m) => match s.check_message0(&m, dleq_proof_valid) {
                    Some(e) => Err((State::State0(s), StepError::Rejected(e))),
                    None => match s.receive(m, dleq_proof_valid) {
                        Ok(t) => Ok(State::State1(t)),
                        Err(_) => unreached(),
                    },
                },
                other => Err(
                    (
                        State::State0(s),
                        StepError::UnexpectedMessage(bob::UnexpectedMessage::new("Message0", other)),
                    ),
                ),
            },
            other => Err((State::State0(s), StepError::UnexpectedInput(other))),
        },
        State::State1(s) => match input {
            Input::Message(message) => match message {
                bob::Message::Message1(m) => match s.check_message1(&m) {
                    Some(e) => Err((State::State1(s), StepError::Rejected(e))),
                    None => match s.receive(m) {
                        Ok(t) => Ok(State::State2(t)),
                        Err(_) => unreached(),
                    },
                },
                other => Err(
                    (
                        State::State1(s),
                        StepError::UnexpectedMessage(bob::UnexpectedMessage::new("Message1", other)),
                    ),
                ),
            },
            other => Err((State::State1(s), StepError::UnexpectedInput(other))),
        },
        State::State2(s) => match input {
            Input::Message(message) => match message {
                bob::Message::Message2(m) => match s.check_message2(&m) {
                    Some(e) => Err((State::State2(s), StepError::Rejected(e))),
                    None => match s.receive(m) {
                        Ok(t) => Ok(State::State3(t)),
                        Err(_) => unreached(),
                    },
                },
                other => Err(
                    (
                        State::State2(s),
                        StepError::UnexpectedMessage(bob::UnexpectedMessage::new("Message2", other)),
                    ),
                ),
            },
            other => Err((State::State2(s), StepError::UnexpectedInput(other))),
        },
        State::State3(s) => match input {
            Input::LockConfirmed => Ok(State::State4(s.watch_for_lock_btc())),
            other => Err((State::State3(s), StepError::UnexpectedInput(other))),
        },
        State::State4(s) => match input {
            Input::XmrLocked { proof, fee } => Ok(State::State4b(s.lock_xmr(proof, fee))),
            other => Err((State::State4(s), StepError::UnexpectedInput(other))),
        },
        State::State4b(s) => match input {
            Input::Message(message) => match message {
                bob::Message::Message3(m) => match s.check_message3(&m) {
                    Some(e) => Err((State::State4b(s), StepError::Rejected(e))),
                    None => match s.receive(m) {
                        Ok(t) => Ok(State::State5(t)),
                        Err(_) => unreached(),
                    },
                },
                other => Err(
                    (
                        State::State4b(s),
                        StepError::UnexpectedMessage(bob::UnexpectedMessage::new("Message3", other)),
                    ),
                ),
            },
            other => Err((State::State4b(s), StepError::UnexpectedInput(other))),
        },
        State::State5(s) => Ok(State::State5(s)),
    }
}

} // verus!
