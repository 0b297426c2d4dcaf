//! What holds of every validation, whatever the transaction.

use crate::digest::spec_blake160;
use crate::error::{spec_exit_code, Error};
use crate::machine::{spec_action, spec_step, ActionView, EventView, RequestView, StateView};
use crate::scanner::{
    is_puppet_at, lemma_tally_meaning, no_puppet, several_puppets, sole_puppet,
};
use crate::validate::{Environment, EnvironmentView, WitnessView};
use vstd::prelude::*;

verus! {

/// Whether a transaction is well formed with its puppet cell at `puppet`:
/// the script argument is a type hash, the cell at `puppet` is the only
/// input cell that carries it, that cell holds a public-key hash, the
/// witness has a lock field long enough for a signature, and the curve
/// library loads its data and recovers a key.
pub open spec fn well_formed(env: EnvironmentView, puppet: int) -> bool {
    &&& env.script_args.len() == 32
    &&& sole_puppet(env.script_args, env.type_hashes(), puppet)
    &&& env.inputs[puppet].data.len() == 20
    &&& env.witness matches WitnessView::Args { lock: Some(lock) }
    &&& lock.len() >= 65
    &&& env.curve_data_loads
    &&& env.recovered_pubkey is Some
}

/// A verdict is final: once the machine has accepted or rejected, no event
/// moves it, so the first failure met is the result.
pub proof fn lemma_verdict_is_final(state: StateView, event: EventView)
    requires
        spec_action(state) is Finish,
    ensures
        spec_step(state, event) == state,
{
}

/// Acceptance is the one state that ends a validation in success.
pub proof fn lemma_accept_is_the_only_success(state: StateView)
    ensures
        spec_action(state) == ActionView::Finish(Ok(())) <==> state == StateView::Accept,
{
}

/// Script arguments that are empty, or of any length but 32, are rejected
/// as invalid whatever else the transaction holds, and the machine comes
/// to that verdict on reading them, before it asks for any cell.
pub proof fn lemma_invalid_args_rejected(env: Environment)
    requires
        env.script_args@.len() != 32,
    ensures
        env@.verdict() == Err::<(), Error>(Error::NoValidArgs),
        spec_exit_code(env@.verdict()) == 5,
        spec_action(spec_step(StateView::Start, env@.answer(RequestView::ScriptArgs)))
            == ActionView::Finish(Err(Error::NoValidArgs)),
{
}

/// With a valid argument and no input cell that carries it as its type
/// hash, the transaction is rejected for want of a puppet cell.
pub proof fn lemma_no_puppet_rejected(env: Environment)
    requires
        env.script_args@.len() == 32,
        no_puppet(env.script_args@, env@.type_hashes()),
    ensures
        env@.verdict() == Err::<(), Error>(Error::NoPuppetCellFound),
        spec_exit_code(env@.verdict()) == 6,
{
}

/// With a valid argument and two or more input cells that carry it as
/// their type hash, the transaction is rejected, whatever those cells, the
/// witness and the signature hold.
pub proof fn lemma_several_puppets_rejected(env: Environment)
    requires
        env.script_args@.len() == 32,
        several_puppets(env.script_args@, env@.type_hashes()),
    ensures
        env@.verdict() == Err::<(), Error>(Error::RequiredOnlyOnePuppet),
        spec_exit_code(env@.verdict()) == 7,
{
    let (i, j) = choose|i: int, j: int|
        i != j && is_puppet_at(env.script_args@, env@.type_hashes(), i)
            && is_puppet_at(env.script_args@, env@.type_hashes(), j);
    assert(!no_puppet(env.script_args@, env@.type_hashes()));
}

/// Where the one puppet cell holds data of any length but 20, the
/// transaction is rejected for that, whatever the witness and the
/// signature hold.
pub proof fn lemma_wrong_hash_length_rejected(env: Environment, puppet: int)
    requires
        env.script_args@.len() == 32,
        sole_puppet(env.script_args@, env@.type_hashes(), puppet),
        env@.inputs[puppet].data.len() != 20,
    ensures
        env@.verdict() == Err::<(), Error>(Error::WrongPubkeyHashLength),
        spec_exit_code(env@.verdict()) == 11,
{
    assert(env@.inputs.len() == env.inputs.len());
    lemma_tally_meaning(env.script_args@, env@.type_hashes());
    assert(sole_puppet(env.script_args@, env@.type_hashes(), (puppet as usize) as int));
}

/// In a well-formed transaction the hashes decide: the verdict is
/// acceptance where the recovered key hashes to the committed public-key
/// hash, and rejection for a wrong public key where it does not.
pub proof fn lemma_hash_comparison_decides(env: Environment, puppet: int)
    requires
        well_formed(env@, puppet),
    ensures
        env@.verdict() == if spec_blake160(env@.recovered_pubkey.unwrap())
            == env@.inputs[puppet].data {
            Ok::<(), Error>(())
        } else {
            Err::<(), Error>(Error::WrongPublicKey)
        },
        env@.verdict() is Err ==> spec_exit_code(env@.verdict()) == 10,
{
    assert(env@.inputs.len() == env.inputs.len());
    lemma_tally_meaning(env.script_args@, env@.type_hashes());
    assert(sole_puppet(env.script_args@, env@.type_hashes(), (puppet as usize) as int));
}

/// A transaction is accepted if and only if it is well formed and its
/// recovered key hashes to the committed public-key hash.
pub proof fn lemma_accepted_iff(env: Environment)
    ensures
        env@.verdict() is Ok <==> exists|puppet: int|
            #[trigger] well_formed(env@, puppet) && spec_blake160(env@.recovered_pubkey.unwrap())
                == env@.inputs[puppet].data,
{
    assert(env@.inputs.len() == env.inputs.len());
    let arg = env.script_args@;
    let hashes = env@.type_hashes();
    lemma_tally_meaning(arg, hashes);
    if env@.verdict() is Ok {
        let puppet = env@.puppet().unwrap();
        assert(sole_puppet(arg, hashes, puppet as int));
        assert(well_formed(env@, puppet as int));
    }
    if exists|puppet: int|
        #[trigger] well_formed(env@, puppet) && spec_blake160(env@.recovered_pubkey.unwrap())
            == env@.inputs[puppet].data {
        let puppet = choose|puppet: int|
            #[trigger] well_formed(env@, puppet) && spec_blake160(env@.recovered_pubkey.unwrap())
                == env@.inputs[puppet].data;
        assert(sole_puppet(arg, hashes, (puppet as usize) as int));
    }
}

} // verus!
