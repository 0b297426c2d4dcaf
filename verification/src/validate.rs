//! Validation of a whole transaction: what the environment holds, the
//! verdict that follows from it, and a run of the state machine that
//! reaches that verdict.

use crate::error::{Error, SysError};
use crate::extract::{
    spec_committed_pubkey_hash, spec_ownership_argument, spec_verify_pubkey,
    spec_witness_signature,
};
use crate::machine::{
    spec_action, spec_step, Action, ActionView, Event, EventView, Request, RequestView, State,
    StateView,
};
use crate::scanner::{lemma_tally_meaning, lemma_tally_push, tally, type_hash_view};
use vstd::prelude::*;
use vstd::slice::slice_to_vec;

verus! {

/// An input cell, as far as the check reads it.
#[derive(Debug, PartialEq, Eq)]
pub struct InputCell {
    /// The hash of the cell's type script; `None` where it has none.
    pub type_hash: Option<[u8; 32]>,
    /// The cell's data.
    pub data: Vec<u8>,
}

/// The first witness of the validating script's input group.
#[derive(Debug, PartialEq, Eq)]
pub enum Witness {
    /// There is no witness at that position.
    Absent,
    /// There is one, but it does not decode as witness arguments.
    Malformed,
    /// Witness arguments, with their lock field where they have one.
    Args { lock: Option<Vec<u8>> },
}

/// All that a validation can come to know of its surroundings.
#[derive(Debug, PartialEq, Eq)]
pub struct Environment {
    /// The argument bytes of the validating script.
    pub script_args: Vec<u8>,
    /// The transaction's input cells, in order.
    pub inputs: Vec<InputCell>,
    /// The first witness of the script's own input group.
    pub witness: Witness,
    /// The hash of the transaction.
    pub tx_hash: [u8; 32],
    /// Whether the curve library's precomputed data can be loaded.
    pub curve_data_loads: bool,
    /// The public key that the curve library recovers from the witness's
    /// signature over the transaction hash; `None` where it recovers none.
    pub recovered_pubkey: Option<Vec<u8>>,
}

/// An input cell with its byte strings as sequences.
pub struct InputCellView {
    pub type_hash: Option<Seq<u8>>,
    pub data: Seq<u8>,
}

/// A witness with its byte strings as sequences.
pub enum WitnessView {
    Absent,
    Malformed,
    Args { lock: Option<Seq<u8>> },
}

/// An environment with its byte strings as sequences.
pub struct EnvironmentView {
    pub script_args: Seq<u8>,
    pub inputs: Seq<InputCellView>,
    pub witness: WitnessView,
    pub tx_hash: Seq<u8>,
    pub curve_data_loads: bool,
    pub recovered_pubkey: Option<Seq<u8>>,
}

impl View for InputCell {
    type V = InputCellView;

    open spec fn view(&self) -> InputCellView {
        InputCellView { type_hash: type_hash_view(self.type_hash), data: self.data@ }
    }
}

impl View for Witness {
    type V = WitnessView;

    open spec fn view(&self) -> WitnessView {
        match *self {
            Witness::Absent => WitnessView::Absent,
            Witness::Malformed => WitnessView::Malformed,
            Witness::Args { lock: Some(lock) } => WitnessView::Args { lock: Some(lock@) },
            Witness::Args { lock: None } => WitnessView::Args { lock: None },
        }
    }
}

impl View for Environment {
    type V = EnvironmentView;

    open spec fn view(&self) -> EnvironmentView {
        EnvironmentView {
            script_args: self.script_args@,
            inputs: Seq::new(self.inputs@.len(), |i: int| self.inputs@[i]@),
            witness: self.witness@,
            tx_hash: self.tx_hash@,
            curve_data_loads: self.curve_data_loads,
            recovered_pubkey: match self.recovered_pubkey {
                Some(pubkey) => Some(pubkey@),
                None => None,
            },
        }
    }
}

impl EnvironmentView {
    /// The type hashes of the input cells, in order.
    pub open spec fn type_hashes(self) -> Seq<Option<Seq<u8>>> {
        Seq::new(self.inputs.len(), |i: int| self.inputs[i].type_hash)
    }

    /// The ownership argument, where the script arguments are valid.
    pub open spec fn ownership_argument(self) -> Result<Seq<u8>, Error> {
        spec_ownership_argument(self.script_args)
    }

    /// The position of the puppet cell, where the argument is valid and
    /// exactly one input cell carries it as its type hash.
    pub open spec fn puppet(self) -> Result<usize, Error> {
        match self.ownership_argument() {
            Ok(arg) => tally(arg, self.type_hashes()).spec_outcome(),
            Err(e) => Err(e),
        }
    }

    /// The committed public-key hash, where there is a puppet cell and its
    /// data is such a hash.
    pub open spec fn pubkey_hash(self) -> Result<Seq<u8>, Error> {
        match self.puppet() {
            Ok(puppet) => spec_committed_pubkey_hash(self.inputs[puppet as int].data),
            Err(e) => Err(e),
        }
    }

    /// The signature in the witness, read once the committed public-key
    /// hash is in hand.
    pub open spec fn signature(self) -> Result<Seq<u8>, Error> {
        match self.pubkey_hash() {
            Ok(_) => match self.witness {
                WitnessView::Absent => Err(Error::NoPuppetCellFound),
                WitnessView::Malformed => Err(Error::LoadWitnessArgs),
                WitnessView::Args { lock: None } => Err(Error::WitnessArgsEncoding),
                WitnessView::Args { lock: Some(lock) } => spec_witness_signature(lock),
            },
            Err(e) => Err(e),
        }
    }

    /// The public key recovered from the signature, once the signature is
    /// in hand and the curve library's data is loaded.
    pub open spec fn signer(self) -> Result<Seq<u8>, Error> {
        match self.signature() {
            Ok(_) => if !self.curve_data_loads {
                Err(Error::LoadPrefilledData)
            } else {
                match self.recovered_pubkey {
                    Some(pubkey) => Ok(pubkey),
                    None => Err(Error::RecoverPubkey),
                }
            },
            Err(e) => Err(e),
        }
    }

    /// The verdict on the transaction: acceptance where the recovered key
    /// hashes to the committed public-key hash, else the first failure met.
    pub open spec fn verdict(self) -> Result<(), Error> {
        match self.signer() {
            Ok(pubkey) => spec_verify_pubkey(pubkey, self.pubkey_hash().unwrap()),
            Err(e) => Err(e),
        }
    }

    /// What this environment answers to `request`.
    pub open spec fn answer(self, request: RequestView) -> EventView {
        match request {
            RequestView::ScriptArgs => EventView::ScriptArgs(Ok(self.script_args)),
            RequestView::CellTypeHash { index } => if index < self.inputs.len() {
                EventView::CellTypeHash(Ok(self.inputs[index as int].type_hash))
            } else {
                EventView::CellTypeHash(Err(SysError::IndexOutOfBound))
            },
            RequestView::CellData { index } => if index < self.inputs.len() {
                EventView::CellData(Ok(self.inputs[index as int].data))
            } else {
                EventView::CellData(Err(SysError::IndexOutOfBound))
            },
            RequestView::WitnessLock => match self.witness {
                WitnessView::Absent => EventView::WitnessLock(Err(SysError::IndexOutOfBound)),
                WitnessView::Malformed => EventView::WitnessLock(Err(SysError::Encoding)),
                WitnessView::Args { lock } => EventView::WitnessLock(Ok(lock)),
            },
            RequestView::PrefilledData => EventView::PrefilledData(self.curve_data_loads),
            RequestView::TxHash => EventView::TxHash(self.tx_hash),
            RequestView::RecoverPubkey { signature, message } => EventView::RecoveredPubkey(
                self.recovered_pubkey,
            ),
        }
    }

    /// Whether a run of the machine that has come to `state` in this
    /// environment has kept to what the environment holds.
    pub open spec fn on_course(self, state: StateView) -> bool {
        match state {
            StateView::Start => true,
            StateView::ArgsChecked { arg, index, seen } => {
                &&& self.ownership_argument() == Ok::<Seq<u8>, Error>(arg)
                &&& index <= self.inputs.len()
                &&& seen == tally(arg, self.type_hashes().take(index as int))
            },
            StateView::Scanned { puppet } => self.puppet() == Ok::<usize, Error>(puppet),
            StateView::HashChecked { pubkey_hash } => self.pubkey_hash() == Ok::<Seq<u8>, Error>(
                pubkey_hash,
            ),
            StateView::WitnessParsed { pubkey_hash, signature } => {
                &&& self.pubkey_hash() == Ok::<Seq<u8>, Error>(pubkey_hash)
                &&& self.signature() == Ok::<Seq<u8>, Error>(signature)
            },
            StateView::CurveLoaded { pubkey_hash, signature } => {
                &&& self.pubkey_hash() == Ok::<Seq<u8>, Error>(pubkey_hash)
                &&& self.signature() == Ok::<Seq<u8>, Error>(signature)
                &&& self.curve_data_loads
            },
            StateView::Recovering { pubkey_hash, signature, message } => {
                &&& self.pubkey_hash() == Ok::<Seq<u8>, Error>(pubkey_hash)
                &&& self.signature() == Ok::<Seq<u8>, Error>(signature)
                &&& self.curve_data_loads
                &&& message == self.tx_hash
            },
            StateView::Accept => self.verdict() == Ok::<(), Error>(()),
            StateView::Reject(e) => self.verdict() == Err::<(), Error>(e),
        }
    }

    /// A bound on the lookups still to be made from `state`.
    pub open spec fn lookups_left(self, state: StateView) -> nat {
        match state {
            StateView::Start => self.inputs.len() + 7,
            StateView::ArgsChecked { arg, index, seen } => if index <= self.inputs.len() {
                (self.inputs.len() - index + 6) as nat
            } else {
                6
            },
            StateView::Scanned { puppet } => 5,
            StateView::HashChecked { pubkey_hash } => 4,
            StateView::WitnessParsed { pubkey_hash, signature } => 3,
            StateView::CurveLoaded { pubkey_hash, signature } => 2,
            StateView::Recovering { pubkey_hash, signature, message } => 1,
            StateView::Accept => 0,
            StateView::Reject(e) => 0,
        }
    }
}

/// A step of the machine that is answered by the environment keeps the
/// run on course and brings it nearer to its end.
pub proof fn lemma_step_on_course(env: EnvironmentView, state: StateView, request: RequestView)
    requires
        env.inputs.len() <= usize::MAX,
        env.on_course(state),
        spec_action(state) == ActionView::Ask(request),
    ensures
        env.on_course(spec_step(state, env.answer(request))),
        env.lookups_left(spec_step(state, env.answer(request))) < env.lookups_left(state),
{
    match state {
        StateView::ArgsChecked { arg, index, seen } => {
            let all = env.type_hashes();
            if index < env.inputs.len() {
                lemma_tally_push(arg, all.take(index as int), all[index as int]);
                assert(all.take(index as int).push(all[index as int]) =~= all.take(index + 1));
            } else {
                assert(all.take(index as int) =~= all);
            }
        },
        StateView::Scanned { puppet } => {
            let arg = env.ownership_argument().unwrap();
            lemma_tally_meaning(arg, env.type_hashes());
        },
        _ => {},
    }
}

/// The verdict that the machine reaches in a state from which nothing is
/// asked is the verdict on the transaction.
pub proof fn lemma_finish_is_verdict(env: EnvironmentView, state: StateView, verdict: Result<(), Error>)
    requires
        env.on_course(state),
        spec_action(state) == ActionView::Finish(verdict),
    ensures
        verdict == env.verdict(),
{
}

impl Environment {
    /// Answers a request of the machine from what this environment holds.
    /// A cell position beyond the last input is answered as out of bound.
    pub fn answer(&self, request: &Request) -> (event: Event)
        ensures
            event@ == self@.answer(request@),
    {
        match request {
            Request::ScriptArgs => Event::ScriptArgs(Ok(slice_to_vec(self.script_args.as_slice()))),
            Request::CellTypeHash { index } => if *index < self.inputs.len() {
                Event::CellTypeHash(Ok(self.inputs[*index].type_hash))
            } else {
                Event::CellTypeHash(Err(SysError::IndexOutOfBound))
            },
            Request::CellData { index } => if *index < self.inputs.len() {
                Event::CellData(Ok(slice_to_vec(self.inputs[*index].data.as_slice())))
            } else {
                Event::CellData(Err(SysError::IndexOutOfBound))
            },
            Request::WitnessLock => match &self.witness {
                Witness::Absent => Event::WitnessLock(Err(SysError::IndexOutOfBound)),
                Witness::Malformed => Event::WitnessLock(Err(SysError::Encoding)),
                Witness::Args { lock: Some(lock) } => Event::WitnessLock(
                    Ok(Some(slice_to_vec(lock.as_slice()))),
                ),
                Witness::Args { lock: None } => Event::WitnessLock(Ok(None)),
            },
            Request::PrefilledData => Event::PrefilledData(self.curve_data_loads),
            Request::TxHash => Event::TxHash(self.tx_hash),
            Request::RecoverPubkey { signature: _, message: _ } => match &self.recovered_pubkey {
                Some(pubkey) => Event::RecoveredPubkey(Some(slice_to_vec(pubkey.as_slice()))),
                None => Event::RecoveredPubkey(None),
            },
        }
    }
}

/// Validates the transaction that `env` describes, by running the state
/// machine from its start and answering each of its requests from `env`.
pub fn validate(env: &Environment) -> (verdict: Result<(), Error>)
    ensures
        verdict == env@.verdict(),
{
    let mut state = State::start();
    assert(env@.inputs.len() == env.inputs.len());
    loop
        invariant
            env@.inputs.len() <= usize::MAX,
            env@.on_course(state@),
        decreases env@.lookups_left(state@),
    {
        match state.action() {
            Action::Finish(verdict) => {
                proof {
                    lemma_finish_is_verdict(env@, state@, verdict);
                }
                return verdict;
            },
            Action::Ask(request) => {
                let event = env.answer(&request);
                proof {
                    lemma_step_on_course(env@, state@, request@);
                }
                state = state.step(event);
            },
        }
    }
}

} // verus!
