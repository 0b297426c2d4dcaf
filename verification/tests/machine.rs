use ckb_crypto::secp::{Generator, Message, Signature};
use nervos_dao_extended_ownership_script::digest::blake160;
use nervos_dao_extended_ownership_script::error::{Error, SysError};
use nervos_dao_extended_ownership_script::machine::{Action, Event, Request, State};
use nervos_dao_extended_ownership_script::scanner::Tally;

const ARG: [u8; 32] = [0x11; 32];
const OTHER: [u8; 32] = [0x22; 32];
const HASH: [u8; 20] = [0x33; 20];
const SIG: [u8; 65] = [0x44; 65];
const MSG: [u8; 32] = [0x55; 32];

fn scanning(index: usize, seen: Tally) -> State {
    State::ArgsChecked { arg: ARG, index, seen }
}

#[test]
fn start_asks_for_the_script_args() {
    assert_eq!(State::start(), State::Start);
    assert_eq!(State::start().action(), Action::Ask(Request::ScriptArgs));
}

#[test]
fn bad_args_end_the_validation_before_any_cell_is_asked_for() {
    for len in [0usize, 1, 20, 31, 33, 64] {
        let next = State::start().step(Event::ScriptArgs(Ok(vec![7u8; len])));
        assert_eq!(next, State::Reject(Error::NoValidArgs));
        assert_eq!(next.action(), Action::Finish(Err(Error::NoValidArgs)));
    }
}

#[test]
fn good_args_start_the_scan_at_the_first_cell() {
    let next = State::start().step(Event::ScriptArgs(Ok(ARG.to_vec())));
    assert_eq!(next, scanning(0, Tally::Zero));
    assert_eq!(next.action(), Action::Ask(Request::CellTypeHash { index: 0 }));
}

#[test]
fn unreadable_script_is_an_environment_failure() {
    let next = State::start().step(Event::ScriptArgs(Err(SysError::ItemMissing)));
    assert_eq!(next, State::Reject(Error::Environment(SysError::ItemMissing)));
    let next = State::start().step(Event::ScriptArgs(Err(SysError::IndexOutOfBound)));
    assert_eq!(next, State::Reject(Error::Environment(SysError::IndexOutOfBound)));
}

#[test]
fn scan_moves_on_cell_by_cell() {
    let s = scanning(0, Tally::Zero).step(Event::CellTypeHash(Ok(None)));
    assert_eq!(s, scanning(1, Tally::Zero));
    let s = s.step(Event::CellTypeHash(Ok(Some(OTHER))));
    assert_eq!(s, scanning(2, Tally::Zero));
    let s = s.step(Event::CellTypeHash(Ok(Some(ARG))));
    assert_eq!(s, scanning(3, Tally::One(2)));
    assert_eq!(s.action(), Action::Ask(Request::CellTypeHash { index: 3 }));
    let s = s.step(Event::CellTypeHash(Ok(Some(ARG))));
    assert_eq!(s, scanning(4, Tally::Many));
}

#[test]
fn scan_ends_at_the_first_position_without_a_cell() {
    let end = || Event::CellTypeHash(Err(SysError::IndexOutOfBound));
    assert_eq!(scanning(0, Tally::Zero).step(end()), State::Reject(Error::NoPuppetCellFound));
    assert_eq!(scanning(3, Tally::Zero).step(end()), State::Reject(Error::NoPuppetCellFound));
    assert_eq!(scanning(3, Tally::Many).step(end()), State::Reject(Error::RequiredOnlyOnePuppet));
    let found = scanning(3, Tally::One(1)).step(end());
    assert_eq!(found, State::Scanned { puppet: 1 });
    assert_eq!(found.action(), Action::Ask(Request::CellData { index: 1 }));
}

#[test]
fn scan_ends_where_the_positions_run_out() {
    let last = usize::MAX;
    assert_eq!(
        scanning(last, Tally::Zero).step(Event::CellTypeHash(Ok(Some(ARG)))),
        State::Scanned { puppet: last }
    );
    assert_eq!(
        scanning(last, Tally::One(0)).step(Event::CellTypeHash(Ok(Some(ARG)))),
        State::Reject(Error::RequiredOnlyOnePuppet)
    );
    assert_eq!(
        scanning(last, Tally::Zero).step(Event::CellTypeHash(Ok(None))),
        State::Reject(Error::NoPuppetCellFound)
    );
}

#[test]
fn other_scan_failures_are_environment_failures() {
    for e in [SysError::ItemMissing, SysError::LengthNotEnough(40), SysError::Encoding, SysError::Unknown(9)] {
        assert_eq!(
            scanning(1, Tally::One(0)).step(Event::CellTypeHash(Err(e))),
            State::Reject(Error::Environment(e))
        );
    }
}

#[test]
fn puppet_data_must_be_a_pubkey_hash() {
    let scanned = State::Scanned { puppet: 1 };
    let next = scanned.step(Event::CellData(Ok(HASH.to_vec())));
    assert_eq!(next, State::HashChecked { pubkey_hash: HASH });
    assert_eq!(next.action(), Action::Ask(Request::WitnessLock));
    for len in [0usize, 19, 21, 32] {
        assert_eq!(
            scanned.step(Event::CellData(Ok(vec![0x33; len]))),
            State::Reject(Error::WrongPubkeyHashLength)
        );
    }
}

#[test]
fn puppet_data_lookup_failures() {
    let scanned = State::Scanned { puppet: 1 };
    assert_eq!(
        scanned.step(Event::CellData(Err(SysError::IndexOutOfBound))),
        State::Reject(Error::NoPuppetCellFound)
    );
    assert_eq!(
        scanned.step(Event::CellData(Err(SysError::ItemMissing))),
        State::Reject(Error::Environment(SysError::ItemMissing))
    );
    assert_eq!(
        scanned.step(Event::CellData(Err(SysError::Unknown(3)))),
        State::Reject(Error::Environment(SysError::Unknown(3)))
    );
}

#[test]
fn witness_lock_gives_the_signature() {
    let checked = State::HashChecked { pubkey_hash: HASH };
    let mut lock = SIG.to_vec();
    lock.extend_from_slice(&[0xee; 10]);
    let next = checked.step(Event::WitnessLock(Ok(Some(lock))));
    assert_eq!(next, State::WitnessParsed { pubkey_hash: HASH, signature: SIG });
    assert_eq!(next.action(), Action::Ask(Request::PrefilledData));
    assert_eq!(
        checked.step(Event::WitnessLock(Ok(Some(SIG.to_vec())))),
        State::WitnessParsed { pubkey_hash: HASH, signature: SIG }
    );
}

#[test]
fn witness_lookup_failures() {
    let checked = State::HashChecked { pubkey_hash: HASH };
    assert_eq!(
        checked.step(Event::WitnessLock(Err(SysError::IndexOutOfBound))),
        State::Reject(Error::NoPuppetCellFound)
    );
    for e in [SysError::ItemMissing, SysError::LengthNotEnough(1), SysError::Encoding, SysError::Unknown(2)] {
        assert_eq!(checked.step(Event::WitnessLock(Err(e))), State::Reject(Error::LoadWitnessArgs));
    }
    assert_eq!(
        checked.step(Event::WitnessLock(Ok(None))),
        State::Reject(Error::WitnessArgsEncoding)
    );
    assert_eq!(
        checked.step(Event::WitnessLock(Ok(Some(vec![0x44; 64])))),
        State::Reject(Error::WitnessLockTooShort)
    );
    assert_eq!(
        checked.step(Event::WitnessLock(Ok(Some(Vec::new())))),
        State::Reject(Error::WitnessLockTooShort)
    );
}

#[test]
fn curve_data_then_transaction_hash_then_recovery() {
    let parsed = State::WitnessParsed { pubkey_hash: HASH, signature: SIG };
    assert_eq!(parsed.step(Event::PrefilledData(false)), State::Reject(Error::LoadPrefilledData));
    let loaded = parsed.step(Event::PrefilledData(true));
    assert_eq!(loaded, State::CurveLoaded { pubkey_hash: HASH, signature: SIG });
    assert_eq!(loaded.action(), Action::Ask(Request::TxHash));
    let recovering = loaded.step(Event::TxHash(MSG));
    assert_eq!(recovering, State::Recovering { pubkey_hash: HASH, signature: SIG, message: MSG });
    assert_eq!(
        recovering.action(),
        Action::Ask(Request::RecoverPubkey { signature: SIG, message: MSG })
    );
    assert_eq!(
        recovering.step(Event::RecoveredPubkey(None)),
        State::Reject(Error::RecoverPubkey)
    );
}

#[test]
fn recovered_key_decides() {
    let pubkey = vec![2u8; 33];
    let right = State::Recovering { pubkey_hash: blake160(&pubkey), signature: SIG, message: MSG };
    let accepted = right.step(Event::RecoveredPubkey(Some(pubkey.clone())));
    assert_eq!(accepted, State::Accept);
    assert_eq!(accepted.action(), Action::Finish(Ok(())));
    let wrong = State::Recovering { pubkey_hash: HASH, signature: SIG, message: MSG };
    let rejected = wrong.step(Event::RecoveredPubkey(Some(pubkey)));
    assert_eq!(rejected, State::Reject(Error::WrongPublicKey));
    assert_eq!(rejected.action(), Action::Finish(Err(Error::WrongPublicKey)));
}

#[test]
fn an_answer_to_another_question_changes_nothing() {
    assert_eq!(State::Start.step(Event::TxHash(MSG)), State::Start);
    assert_eq!(State::Start.step(Event::CellTypeHash(Ok(Some(ARG)))), State::Start);
    assert_eq!(
        scanning(2, Tally::One(1)).step(Event::CellData(Ok(HASH.to_vec()))),
        scanning(2, Tally::One(1))
    );
    assert_eq!(
        State::Scanned { puppet: 1 }.step(Event::CellTypeHash(Err(SysError::IndexOutOfBound))),
        State::Scanned { puppet: 1 }
    );
    let checked = State::HashChecked { pubkey_hash: HASH };
    assert_eq!(checked.step(Event::PrefilledData(true)), checked);
    let parsed = State::WitnessParsed { pubkey_hash: HASH, signature: SIG };
    assert_eq!(parsed.step(Event::TxHash(MSG)), parsed);
    let loaded = State::CurveLoaded { pubkey_hash: HASH, signature: SIG };
    assert_eq!(loaded.step(Event::RecoveredPubkey(None)), loaded);
    let recovering = State::Recovering { pubkey_hash: HASH, signature: SIG, message: MSG };
    assert_eq!(recovering.step(Event::ScriptArgs(Ok(ARG.to_vec()))), recovering);
}

#[test]
fn a_verdict_is_final() {
    assert_eq!(State::Accept.step(Event::ScriptArgs(Ok(vec![]))), State::Accept);
    assert_eq!(State::Accept.step(Event::RecoveredPubkey(None)), State::Accept);
    let rejected = State::Reject(Error::NoValidArgs);
    assert_eq!(rejected.step(Event::ScriptArgs(Ok(ARG.to_vec()))), rejected);
    assert_eq!(rejected.step(Event::PrefilledData(true)), rejected);
}

/// Runs the machine over cells and a witness lock, and recovers the key
/// from the very signature and message that the machine hands out.
fn run(args: Vec<u8>, cells: &[(Option<[u8; 32]>, Vec<u8>)], lock: Option<Vec<u8>>, tx_hash: [u8; 32]) -> Result<(), Error> {
    let mut state = State::start();
    loop {
        let event = match state.action() {
            Action::Finish(verdict) => return verdict,
            Action::Ask(Request::ScriptArgs) => Event::ScriptArgs(Ok(args.clone())),
            Action::Ask(Request::CellTypeHash { index }) => Event::CellTypeHash(
                cells.get(index).map(|c| c.0).ok_or(SysError::IndexOutOfBound),
            ),
            Action::Ask(Request::CellData { index }) => Event::CellData(
                cells.get(index).map(|c| c.1.clone()).ok_or(SysError::IndexOutOfBound),
            ),
            Action::Ask(Request::WitnessLock) => Event::WitnessLock(Ok(lock.clone())),
            Action::Ask(Request::PrefilledData) => Event::PrefilledData(true),
            Action::Ask(Request::TxHash) => Event::TxHash(tx_hash),
            Action::Ask(Request::RecoverPubkey { signature, message }) => Event::RecoveredPubkey(
                Signature::from_slice(&signature)
                    .and_then(|s| s.recover(&Message::from(message)))
                    .ok()
                    .map(|k| k.serialize()),
            ),
        };
        state = state.step(event);
    }
}

#[test]
fn machine_accepts_the_owner() {
    let (privkey, pubkey) = Generator::random_keypair();
    let signature = privkey.sign_recoverable(&Message::from(MSG)).expect("sign").serialize();
    let cells = vec![(Some(OTHER), Vec::new()), (Some(ARG), blake160(&pubkey.serialize()).to_vec())];
    assert_eq!(run(ARG.to_vec(), &cells, Some(signature), MSG), Ok(()));
}

#[test]
fn machine_rejects_a_signature_over_another_message() {
    let (privkey, pubkey) = Generator::random_keypair();
    let signature = privkey.sign_recoverable(&Message::from(OTHER)).expect("sign").serialize();
    let cells = vec![(Some(OTHER), Vec::new()), (Some(ARG), blake160(&pubkey.serialize()).to_vec())];
    let verdict = run(ARG.to_vec(), &cells, Some(signature), MSG);
    assert!(verdict == Err(Error::WrongPublicKey) || verdict == Err(Error::RecoverPubkey));
}

#[test]
fn machine_rejects_a_signature_that_recovers_no_key() {
    let (_, pubkey) = Generator::random_keypair();
    let cells = vec![(Some(ARG), blake160(&pubkey.serialize()).to_vec())];
    // a recovery id beyond 3 is no signature
    let mut signature = vec![1u8; 65];
    signature[64] = 9;
    assert_eq!(run(ARG.to_vec(), &cells, Some(signature), MSG), Err(Error::RecoverPubkey));
}

#[test]
fn machine_rejects_another_key() {
    let (privkey, _) = Generator::random_keypair();
    let (_, other) = Generator::random_keypair();
    let signature = privkey.sign_recoverable(&Message::from(MSG)).expect("sign").serialize();
    let cells = vec![(Some(ARG), blake160(&other.serialize()).to_vec())];
    assert_eq!(run(ARG.to_vec(), &cells, Some(signature), MSG), Err(Error::WrongPublicKey));
}
