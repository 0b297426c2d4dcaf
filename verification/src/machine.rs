//! The orchestrator as a state machine. The machine decides; whoever runs
//! it does the lookups: a state says what it needs to know next, and an
//! event brings the answer.

use crate::error::{Error, SysError};
use crate::extract::{
    committed_pubkey_hash, ownership_argument, spec_committed_pubkey_hash,
    spec_ownership_argument, spec_verify_pubkey, spec_witness_signature, verify_pubkey,
    witness_signature,
};
use crate::scanner::{type_hash_view, Tally};
use vstd::prelude::*;

verus! {

/// How far a validation has come.
#[derive(Clone, Copy, Debug, PartialEq, Eq)]
pub enum State {
    /// Nothing is known yet.
    Start,
    /// The ownership argument is in hand and the input cells before
    /// `index` have been looked at.
    ArgsChecked { arg: [u8; 32], index: usize, seen: Tally },
    /// Exactly one puppet cell was found, at position `puppet`.
    Scanned { puppet: usize },
    /// The puppet cell commits to `pubkey_hash`.
    HashChecked { pubkey_hash: [u8; 20] },
    /// The witness carries `signature`.
    WitnessParsed { pubkey_hash: [u8; 20], signature: [u8; 65] },
    /// The curve library's precomputed data is loaded.
    CurveLoaded { pubkey_hash: [u8; 20], signature: [u8; 65] },
    /// The transaction hash `message` is in hand; the key that signed it
    /// is being recovered.
    Recovering { pubkey_hash: [u8; 20], signature: [u8; 65], message: [u8; 32] },
    /// The spender owns the puppet cell.
    Accept,
    /// The validation failed.
    Reject(Error),
}

/// What a state needs to know next.
#[derive(Clone, Copy, Debug, PartialEq, Eq)]
pub enum Request {
    /// The argument bytes of the validating script.
    ScriptArgs,
    /// The type hash of the input cell at `index`.
    CellTypeHash { index: usize },
    /// The data of the input cell at `index`.
    CellData { index: usize },
    /// The lock field of the first witness of the script's own input group.
    WitnessLock,
    /// Whether the curve library's precomputed data can be loaded.
    PrefilledData,
    /// The hash of the transaction.
    TxHash,
    /// The public key that made `signature` over `message`.
    RecoverPubkey { signature: [u8; 65], message: [u8; 32] },
}

/// What is to be done in a state: look something up, or end.
#[derive(Clone, Copy, Debug, PartialEq, Eq)]
pub enum Action {
    /// Look up what the request names and hand the answer to `step`.
    Ask(Request),
    /// The validation is over, with this verdict.
    Finish(Result<(), Error>),
}

/// An answer from the environment.
#[derive(Debug, PartialEq, Eq)]
pub enum Event {
    /// The argument bytes of the validating script, or why they could not
    /// be read.
    ScriptArgs(Result<Vec<u8>, SysError>),
    /// The type hash of the cell asked for, `None` where the cell has no
    /// type script; or why the cell could not be read.
    CellTypeHash(Result<Option<[u8; 32]>, SysError>),
    /// The data of the cell asked for, or why it could not be read.
    CellData(Result<Vec<u8>, SysError>),
    /// The lock field of the witness, `None` where the witness has none;
    /// or why the witness could not be read.
    WitnessLock(Result<Option<Vec<u8>>, SysError>),
    /// Whether the curve library's precomputed data was loaded.
    PrefilledData(bool),
    /// The hash of the transaction.
    TxHash([u8; 32]),
    /// The recovered public key, `None` where recovery failed.
    RecoveredPubkey(Option<Vec<u8>>),
}

/// A state with its byte strings as sequences.
pub enum StateView {
    Start,
    ArgsChecked { arg: Seq<u8>, index: usize, seen: Tally },
    Scanned { puppet: usize },
    HashChecked { pubkey_hash: Seq<u8> },
    WitnessParsed { pubkey_hash: Seq<u8>, signature: Seq<u8> },
    CurveLoaded { pubkey_hash: Seq<u8>, signature: Seq<u8> },
    Recovering { pubkey_hash: Seq<u8>, signature: Seq<u8>, message: Seq<u8> },
    Accept,
    Reject(Error),
}

/// A request with its byte strings as sequences.
pub enum RequestView {
    ScriptArgs,
    CellTypeHash { index: usize },
    CellData { index: usize },
    WitnessLock,
    PrefilledData,
    TxHash,
    RecoverPubkey { signature: Seq<u8>, message: Seq<u8> },
}

/// An action with its byte strings as sequences.
pub enum ActionView {
    Ask(RequestView),
    Finish(Result<(), Error>),
}

/// An event with its byte strings as sequences.
pub enum EventView {
    ScriptArgs(Result<Seq<u8>, SysError>),
    CellTypeHash(Result<Option<Seq<u8>>, SysError>),
    CellData(Result<Seq<u8>, SysError>),
    WitnessLock(Result<Option<Seq<u8>>, SysError>),
    PrefilledData(bool),
    TxHash(Seq<u8>),
    RecoveredPubkey(Option<Seq<u8>>),
}

impl View for State {
    type V = StateView;

    open spec fn view(&self) -> StateView {
        match *self {
            State::Start => StateView::Start,
            State::ArgsChecked { arg, index, seen } => StateView::ArgsChecked {
                arg: arg@,
                index,
                seen,
            },
            State::Scanned { puppet } => StateView::Scanned { puppet },
            State::HashChecked { pubkey_hash } => StateView::HashChecked {
                pubkey_hash: pubkey_hash@,
            },
            State::WitnessParsed { pubkey_hash, signature } => StateView::WitnessParsed {
                pubkey_hash: pubkey_hash@,
                signature: signature@,
            },
            State::CurveLoaded { pubkey_hash, signature } => StateView::CurveLoaded {
                pubkey_hash: pubkey_hash@,
                signature: signature@,
            },
            State::Recovering { pubkey_hash, signature, message } => StateView::Recovering {
                pubkey_hash: pubkey_hash@,
                signature: signature@,
                message: message@,
            },
            State::Accept => StateView::Accept,
            State::Reject(e) => StateView::Reject(e),
        }
    }
}

impl View for Request {
    type V = RequestView;

    open spec fn view(&self) -> RequestView {
        match *self {
            Request::ScriptArgs => RequestView::ScriptArgs,
            Request::CellTypeHash { index } => RequestView::CellTypeHash { index },
            Request::CellData { index } => RequestView::CellData { index },
            Request::WitnessLock => RequestView::WitnessLock,
            Request::PrefilledData => RequestView::PrefilledData,
            Request::TxHash => RequestView::TxHash,
            Request::RecoverPubkey { signature, message } => RequestView::RecoverPubkey {
                signature: signature@,
                message: message@,
            },
        }
    }
}

impl View for Action {
    type V = ActionView;

    open spec fn view(&self) -> ActionView {
        match *self {
            Action::Ask(request) => ActionView::Ask(request@),
            Action::Finish(verdict) => ActionView::Finish(verdict),
        }
    }
}

impl View for Event {
    type V = EventView;

    open spec fn view(&self) -> EventView {
        match *self {
            Event::ScriptArgs(Ok(args)) => EventView::ScriptArgs(Ok(args@)),
            Event::ScriptArgs(Err(e)) => EventView::ScriptArgs(Err(e)),
            Event::CellTypeHash(Ok(type_hash)) => EventView::CellTypeHash(
                Ok(type_hash_view(type_hash)),
            ),
            Event::CellTypeHash(Err(e)) => EventView::CellTypeHash(Err(e)),
            Event::CellData(Ok(data)) => EventView::CellData(Ok(data@)),
            Event::CellData(Err(e)) => EventView::CellData(Err(e)),
            Event::WitnessLock(Ok(Some(lock))) => EventView::WitnessLock(Ok(Some(lock@))),
            Event::WitnessLock(Ok(None)) => EventView::WitnessLock(Ok(None)),
            Event::WitnessLock(Err(e)) => EventView::WitnessLock(Err(e)),
            Event::PrefilledData(loaded) => EventView::PrefilledData(loaded),
            Event::TxHash(message) => EventView::TxHash(message@),
            Event::RecoveredPubkey(Some(pubkey)) => EventView::RecoveredPubkey(Some(pubkey@)),
            Event::RecoveredPubkey(None) => EventView::RecoveredPubkey(None),
        }
    }
}

/// The failure that a failed lookup of the script or of a cell's type hash
/// ends the validation with.
pub open spec fn spec_propagate(e: SysError) -> Error {
    Error::Environment(e)
}

/// The failure that a failed lookup of the puppet cell's data ends the
/// validation with: a cell that is no longer there counts as not found.
pub open spec fn spec_data_failure(e: SysError) -> Error {
    match e {
        SysError::IndexOutOfBound => Error::NoPuppetCellFound,
        _ => Error::Environment(e),
    }
}

/// The failure that a failed lookup of the witness ends the validation
/// with: a witness that is not there counts as a puppet cell not found.
pub open spec fn spec_witness_failure(e: SysError) -> Error {
    match e {
        SysError::IndexOutOfBound => Error::NoPuppetCellFound,
        _ => Error::LoadWitnessArgs,
    }
}

/// The state that a finished scan leads to.
pub open spec fn spec_scanned(seen: Tally) -> StateView {
    match seen.spec_outcome() {
        Ok(puppet) => StateView::Scanned { puppet },
        Err(e) => StateView::Reject(e),
    }
}

/// The state that follows `state` when `event` arrives. An event that does
/// not answer what the state asked for leaves the state as it is.
pub open spec fn spec_step(state: StateView, event: EventView) -> StateView {
    match (state, event) {
        (StateView::Start, EventView::ScriptArgs(Ok(args))) => match spec_ownership_argument(args) {
            Ok(arg) => StateView::ArgsChecked { arg, index: 0, seen: Tally::Zero },
            Err(e) => StateView::Reject(e),
        },
        (StateView::Start, EventView::ScriptArgs(Err(e))) => StateView::Reject(spec_propagate(e)),
        (StateView::ArgsChecked { arg, index, seen }, EventView::CellTypeHash(Ok(type_hash))) => {
            let seen = seen.spec_observe(index, type_hash, arg);
            if index < usize::MAX {
                StateView::ArgsChecked { arg, index: (index + 1) as usize, seen }
            } else {
                spec_scanned(seen)
            }
        },
        (
            StateView::ArgsChecked { arg, index, seen },
            EventView::CellTypeHash(Err(SysError::IndexOutOfBound)),
        ) => spec_scanned(seen),
        (StateView::ArgsChecked { arg, index, seen }, EventView::CellTypeHash(Err(e))) => {
            StateView::Reject(spec_propagate(e))
        },
        (StateView::Scanned { puppet }, EventView::CellData(Ok(data))) => {
            match spec_committed_pubkey_hash(data) {
                Ok(pubkey_hash) => StateView::HashChecked { pubkey_hash },
                Err(e) => StateView::Reject(e),
            }
        },
        (StateView::Scanned { puppet }, EventView::CellData(Err(e))) => StateView::Reject(
            spec_data_failure(e),
        ),
        (StateView::HashChecked { pubkey_hash }, EventView::WitnessLock(Ok(Some(lock)))) => {
            match spec_witness_signature(lock) {
                Ok(signature) => StateView::WitnessParsed { pubkey_hash, signature },
                Err(e) => StateView::Reject(e),
            }
        },
        (StateView::HashChecked { pubkey_hash }, EventView::WitnessLock(Ok(None))) => {
            StateView::Reject(Error::WitnessArgsEncoding)
        },
        (StateView::HashChecked { pubkey_hash }, EventView::WitnessLock(Err(e))) => {
            StateView::Reject(spec_witness_failure(e))
        },
        (StateView::WitnessParsed { pubkey_hash, signature }, EventView::PrefilledData(loaded)) => {
            if loaded {
                StateView::CurveLoaded { pubkey_hash, signature }
            } else {
                StateView::Reject(Error::LoadPrefilledData)
            }
        },
        (StateView::CurveLoaded { pubkey_hash, signature }, EventView::TxHash(message)) => {
            StateView::Recovering { pubkey_hash, signature, message }
        },
        (
            StateView::Recovering { pubkey_hash, signature, message },
            EventView::RecoveredPubkey(Some(pubkey)),
        ) => match spec_verify_pubkey(pubkey, pubkey_hash) {
            Ok(_) => StateView::Accept,
            Err(e) => StateView::Reject(e),
        },
        (
            StateView::Recovering { pubkey_hash, signature, message },
            EventView::RecoveredPubkey(None),
        ) => StateView::Reject(Error::RecoverPubkey),
        _ => state,
    }
}

/// What is to be done in `state`: the lookup it waits for, or the verdict
/// it has reached.
pub open spec fn spec_action(state: StateView) -> ActionView {
    match state {
        StateView::Start => ActionView::Ask(RequestView::ScriptArgs),
        StateView::ArgsChecked { arg, index, seen } => ActionView::Ask(
            RequestView::CellTypeHash { index },
        ),
        StateView::Scanned { puppet } => ActionView::Ask(RequestView::CellData { index: puppet }),
        StateView::HashChecked { pubkey_hash } => ActionView::Ask(RequestView::WitnessLock),
        StateView::WitnessParsed { pubkey_hash, signature } => ActionView::Ask(
            RequestView::PrefilledData,
        ),
        StateView::CurveLoaded { pubkey_hash, signature } => ActionView::Ask(RequestView::TxHash),
        StateView::Recovering { pubkey_hash, signature, message } => ActionView::Ask(
            RequestView::RecoverPubkey { signature, message },
        ),
        StateView::Accept => ActionView::Finish(Ok(())),
        StateView::Reject(e) => ActionView::Finish(Err(e)),
    }
}

/// The state a finished scan leads to.
fn scanned(seen: Tally) -> (next: State)
    ensures
        next@ == spec_scanned(seen),
{
    match seen.outcome() {
        Ok(puppet) => State::Scanned { puppet },
        Err(e) => State::Reject(e),
    }
}

impl State {
    /// The state in which every validation begins.
    pub fn start() -> (state: State)
        ensures
            state@ == StateView::Start,
    {
        State::Start
    }

    /// What is to be done in this state: the lookup it waits for, or the
    /// verdict it has reached.
    pub fn action(&self) -> (action: Action)
        ensures
            action@ == spec_action(self@),
    {
        match self {
            State::Start => Action::Ask(Request::ScriptArgs),
            State::ArgsChecked { arg: _, index, seen: _ } => Action::Ask(
                Request::CellTypeHash { index: *index },
            ),
            State::Scanned { puppet } => Action::Ask(Request::CellData { index: *puppet }),
            State::HashChecked { pubkey_hash: _ } => Action::Ask(Request::WitnessLock),
            State::WitnessParsed { pubkey_hash: _, signature: _ } => Action::Ask(
                Request::PrefilledData,
            ),
            State::CurveLoaded { pubkey_hash: _, signature: _ } => Action::Ask(Request::TxHash),
            State::Recovering { pubkey_hash: _, signature, message } => Action::Ask(
                Request::RecoverPubkey { signature: *signature, message: *message },
            ),
            State::Accept => Action::Finish(Ok(())),
            State::Reject(e) => Action::Finish(Err(*e)),
        }
    }

    /// Takes the answer `event` and moves on. Every failure is final: the
    /// first one met is the verdict.
    pub fn step(self, event: Event) -> (next: State)
        ensures
            next@ == spec_step(self@, event@),
    {
        match (self, event) {
            (State::Start, Event::ScriptArgs(Ok(args))) => match ownership_argument(
                args.as_slice(),
            ) {
                Ok(arg) => State::ArgsChecked { arg, index: 0, seen: Tally::Zero },
                Err(e) => State::Reject(e),
            },
            (State::Start, Event::ScriptArgs(Err(e))) => State::Reject(Error::Environment(e)),
            (State::ArgsChecked { arg, index, seen }, Event::CellTypeHash(Ok(type_hash))) => {
                let seen = seen.observe(index, &type_hash, &arg);
                if index < usize::MAX {
                    State::ArgsChecked { arg, index: index + 1, seen }
                } else {
                    scanned(seen)
                }
            },
            (State::ArgsChecked { arg: _, index: _, seen }, Event::CellTypeHash(Err(e))) => {
                match e {
                    SysError::IndexOutOfBound => scanned(seen),
                    _ => State::Reject(Error::Environment(e)),
                }
            },
            (State::Scanned { puppet: _ }, Event::CellData(Ok(data))) => {
                match committed_pubkey_hash(data.as_slice()) {
                    Ok(pubkey_hash) => State::HashChecked { pubkey_hash },
                    Err(e) => State::Reject(e),
                }
            },
            (State::Scanned { puppet: _ }, Event::CellData(Err(e))) => match e {
                SysError::IndexOutOfBound => State::Reject(Error::NoPuppetCellFound),
                _ => State::Reject(Error::Environment(e)),
            },
            (State::HashChecked { pubkey_hash }, Event::WitnessLock(Ok(Some(lock)))) => {
                match witness_signature(lock.as_slice()) {
                    Ok(signature) => State::WitnessParsed { pubkey_hash, signature },
                    Err(e) => State::Reject(e),
                }
            },
            (State::HashChecked { pubkey_hash: _ }, Event::WitnessLock(Ok(None))) => {
                State::Reject(Error::WitnessArgsEncoding)
            },
            (State::HashChecked { pubkey_hash: _ }, Event::WitnessLock(Err(e))) => match e {
                SysError::IndexOutOfBound => State::Reject(Error::NoPuppetCellFound),
                _ => State::Reject(Error::LoadWitnessArgs),
            },
            (State::WitnessParsed { pubkey_hash, signature }, Event::PrefilledData(loaded)) => {
                if loaded {
                    State::CurveLoaded { pubkey_hash, signature }
                } else {
                    State::Reject(Error::LoadPrefilledData)
                }
            },
            (State::CurveLoaded { pubkey_hash, signature }, Event::TxHash(message)) => {
                State::Recovering { pubkey_hash, signature, message }
            },
            (
                State::Recovering { pubkey_hash, signature: _, message: _ },
                Event::RecoveredPubkey(Some(pubkey)),
            ) => match verify_pubkey(pubkey.as_slice(), &pubkey_hash) {
                Ok(_) => State::Accept,
                Err(e) => State::Reject(e),
            },
            (
                State::Recovering { pubkey_hash: _, signature: _, message: _ },
                Event::RecoveredPubkey(None),
            ) => State::Reject(Error::RecoverPubkey),
            (state, _) => state,
        }
    }
}

} // verus!
