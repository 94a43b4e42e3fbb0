use risk_flags::reentrancy_guard;
use risk_flags::risk_flag::{
    add_risk_flags, admin_check_is_readable, admin_is_readable, cancel_risk_flag_proposal,
    change_is_readable, clear_risk_flags, current_flags, execute_risk_flag_change,
    get_risk_flag_proposal, get_risk_flags, has_risk_flags, metadata_is_readable,
    proposal_is_readable, propose_risk_flag_change, set_risk_flags, try_execute_risk_flag_change,
    try_execute_risk_flag_change_at, try_get_risk_flags, RiskFlagProposal,
};
use risk_flags::types::{Address, Error};
use soroban_sdk::address_payload::AddressPayload;
use soroban_sdk::testutils::{
    Address as GenerateAddress, ContractFunctionSet, EnvTestConfig, Events, Ledger,
};
use soroban_sdk::xdr::{ContractEvent, ContractEventBody};
use soroban_sdk::{
    Address as SdkAddress, Bytes, Env, IntoVal, Map as SdkMap, String as SdkString, Symbol, TryFromVal, Val,
    Vec as SdkVec,
};

/// A contract whose functions are the operations of the library.
struct Contract;

fn plain(address: &SdkAddress) -> Address {
    match address.to_payload().unwrap() {
        AddressPayload::AccountIdPublicKeyEd25519(key) => Address::Account(key.to_array()),
        AddressPayload::ContractIdHash(hash) => Address::Contract(hash.to_array()),
    }
}

fn code(result: Result<(), Error>) -> u32 {
    match result {
        Ok(()) => 0,
        Err(Error::NotInitialized) => 1,
        Err(Error::BountyNotFound) => 2,
        Err(Error::Unauthorized) => 3,
        Err(Error::InvalidAmount) => 4,
        Err(Error::InvalidDeadline) => 5,
        Err(Error::DeadlineNotPassed) => 6,
    }
}

const OK: u32 = 0;
const NOT_INITIALIZED: u32 = 1;
const BOUNTY_NOT_FOUND: u32 = 2;
const UNAUTHORIZED: u32 = 3;
const INVALID_AMOUNT: u32 = 4;
const INVALID_DEADLINE: u32 = 5;
const DEADLINE_NOT_PASSED: u32 = 6;

impl ContractFunctionSet for Contract {
    fn call(&self, func: &str, env: Env, args: &[Val]) -> Option<Val> {
        let mut env = env;
        let address = |i: usize| plain(&SdkAddress::try_from_val(&env, &args[i]).unwrap());
        let long = |i: usize| u64::try_from_val(&env, &args[i]).unwrap();
        let short = |i: usize| u32::try_from_val(&env, &args[i]).unwrap();
        let result = match func {
            "set" => {
                let (admin, id, flags) = (address(0), long(1), short(2));
                set_risk_flags(&mut env, &admin, id, flags)
            }
            "add" => {
                let (admin, id, flags) = (address(0), long(1), short(2));
                add_risk_flags(&mut env, &admin, id, flags)
            }
            "clear" => {
                let (admin, id, flags) = (address(0), long(1), short(2));
                clear_risk_flags(&mut env, &admin, id, flags)
            }
            "propose" => {
                let (admin, id, flags, delay) = (address(0), long(1), short(2), long(3));
                propose_risk_flag_change(&mut env, &admin, id, flags, delay)
            }
            "execute" => {
                let id = long(0);
                execute_risk_flag_change(&mut env, id)
            }
            "cancel" => {
                let (admin, id) = (address(0), long(1));
                cancel_risk_flag_proposal(&mut env, &admin, id)
            }
            _ => return None,
        };
        assert!(!reentrancy_guard::is_held(&env));
        Some(code(result).into())
    }
}

struct World {
    env: Env,
    id: SdkAddress,
    admin: SdkAddress,
}

const BOUNTY: u64 = 7;
const ANONYMOUS_BOUNTY: u64 = 8;
const NO_BOUNTY: u64 = 9;

fn bare_world() -> World {
    let env = Env::new_with_config(EnvTestConfig { capture_snapshot_at_drop: false });
    let id = env.register(Contract, ());
    let admin = SdkAddress::generate(&env);
    env.ledger().set_timestamp(1_000);
    World { env, id, admin }
}

/// A contract with an admin, a bounty and a bounty with an anonymous depositor.
fn world() -> World {
    let w = bare_world();
    w.env.mock_all_auths();
    w.env.as_contract(&w.id, || {
        w.env.storage().instance().set(&(w.sym("Admin"),), &w.admin);
        w.env.storage().persistent().set(&(w.sym("Escrow"), BOUNTY), &true);
        w.env.storage().persistent().set(&(w.sym("EscrowAnon"), ANONYMOUS_BOUNTY), &true);
    });
    w
}

impl World {
    fn sym(&self, name: &str) -> Symbol {
        Symbol::new(&self.env, name)
    }

    fn invoke(&self, func: &str, args: &[Val]) -> u32 {
        let args = SdkVec::from_slice(&self.env, args);
        self.env.invoke_contract(&self.id, &self.sym(func), args)
    }

    fn change_by(&self, func: &str, admin: &SdkAddress, id: u64, flags: u32) -> u32 {
        self.invoke(func, &[admin.to_val(), id.into_val(&self.env), flags.into()])
    }

    fn set(&self, flags: u32) -> u32 {
        self.change_by("set", &self.admin, BOUNTY, flags)
    }

    fn add(&self, flags: u32) -> u32 {
        self.change_by("add", &self.admin, BOUNTY, flags)
    }

    fn clear(&self, flags: u32) -> u32 {
        self.change_by("clear", &self.admin, BOUNTY, flags)
    }

    fn propose_by(&self, admin: &SdkAddress, id: u64, flags: u32, delay: u64) -> u32 {
        let id = id.into_val(&self.env);
        let delay = delay.into_val(&self.env);
        self.invoke("propose", &[admin.to_val(), id, flags.into(), delay])
    }

    fn propose(&self, flags: u32, delay: u64) -> u32 {
        self.propose_by(&self.admin, BOUNTY, flags, delay)
    }

    fn execute(&self) -> u32 {
        self.invoke("execute", &[BOUNTY.into_val(&self.env)])
    }

    fn cancel_by(&self, admin: &SdkAddress) -> u32 {
        self.invoke("cancel", &[admin.to_val(), BOUNTY.into_val(&self.env)])
    }

    fn flags_of(&self, id: u64) -> u32 {
        self.env.as_contract(&self.id, || get_risk_flags(&self.env, id))
    }

    fn flags(&self) -> u32 {
        self.flags_of(BOUNTY)
    }

    fn proposal(&self) -> Option<RiskFlagProposal> {
        self.env.as_contract(&self.id, || get_risk_flag_proposal(&self.env, BOUNTY))
    }

    /// Stores a metadata record with the given flags, past all checks.
    fn store_flags(&self, flags: u32) {
        let record: SdkMap<Symbol, Val> = SdkMap::from_array(
            &self.env,
            [
                (self.sym("repo_id"), 0u64.into_val(&self.env)),
                (self.sym("issue_id"), 0u64.into_val(&self.env)),
                (self.sym("bounty_type"), SdkString::from_str(&self.env, "").to_val()),
                (self.sym("risk_flags"), flags.into()),
                (self.sym("notification_prefs"), 0u32.into()),
                (self.sym("reference_hash"), ().into()),
            ],
        );
        self.env.as_contract(&self.id, || {
            self.env.storage().persistent().set(&(self.sym("Metadata"), BOUNTY), &record)
        });
    }

    /// The topics and the data of the events of the last call.
    fn events(&self) -> Vec<(SdkVec<Val>, Val)> {
        self.env
            .events()
            .all()
            .events()
            .iter()
            .map(|event: &ContractEvent| {
                let ContractEventBody::V0(body) = &event.body;
                let topics: Vec<Val> = body
                    .topics
                    .iter()
                    .map(|topic| Val::try_from_val(&self.env, topic).unwrap())
                    .collect();
                let data = Val::try_from_val(&self.env, &body.data).unwrap();
                (SdkVec::from_slice(&self.env, &topics), data)
            })
            .collect()
    }

    fn check_topics(&self, topics: &SdkVec<Val>, name: &str) {
        assert_eq!(topics.len(), 2);
        assert_eq!(Symbol::try_from_val(&self.env, &topics.get(0).unwrap()).unwrap(), self.sym(name));
        assert_eq!(u64::try_from_val(&self.env, &topics.get(1).unwrap()).unwrap(), BOUNTY);
    }

    fn check_update(&self, event: &(SdkVec<Val>, Val), previous: u32, new: u32, time: u64) {
        self.check_topics(&event.0, "risk");
        let data: SdkMap<Symbol, Val> = event.1.into_val(&self.env);
        assert_eq!(data.len(), 6);
        let short = |name: &str| -> u32 { data.get(self.sym(name)).unwrap().into_val(&self.env) };
        let long = |name: &str| -> u64 { data.get(self.sym(name)).unwrap().into_val(&self.env) };
        let admin: SdkAddress = data.get(self.sym("admin")).unwrap().into_val(&self.env);
        assert_eq!(short("version"), 2);
        assert_eq!(long("bounty_id"), BOUNTY);
        assert_eq!(short("previous_flags"), previous);
        assert_eq!(short("new_flags"), new);
        assert_eq!(admin, self.admin);
        assert_eq!(long("timestamp"), time);
    }
}

#[test]
fn a_bounty_without_metadata_has_no_flags() {
    let w = world();
    assert_eq!(w.flags(), 0);
    assert_eq!(w.proposal(), None);
    w.env.as_contract(&w.id, || {
        assert_eq!(current_flags(&w.env, NO_BOUNTY), 0);
        assert!(has_risk_flags(&w.env, BOUNTY, 0));
        assert!(!has_risk_flags(&w.env, BOUNTY, 1));
    });
}

#[test]
fn setting_replaces_all_flags() {
    let w = world();
    assert_eq!(w.set(5), OK);
    assert_eq!(w.flags(), 5);
    assert_eq!(w.set(2), OK);
    assert_eq!(w.flags(), 2);
    assert_eq!(w.set(0), OK);
    assert_eq!(w.flags(), 0);
}

#[test]
fn all_bits_of_a_mask_are_asked_for() {
    let w = world();
    assert_eq!(w.set(13), OK);
    w.env.as_contract(&w.id, || {
        assert!(has_risk_flags(&w.env, BOUNTY, 13));
        assert!(has_risk_flags(&w.env, BOUNTY, 5));
        assert!(!has_risk_flags(&w.env, BOUNTY, 2));
        assert!(!has_risk_flags(&w.env, BOUNTY, 15));
        assert!(!has_risk_flags(&w.env, BOUNTY, 16));
    });
}

#[test]
fn setting_reports_the_change() {
    let w = world();
    assert_eq!(w.set(3), OK);
    w.env.ledger().set_timestamp(2_000);
    assert_eq!(w.set(8), OK);
    let events = w.events();
    assert_eq!(events.len(), 1);
    w.check_update(&events[0], 3, 8, 2_000);
}

#[test]
fn adding_and_clearing_touch_only_the_given_bits() {
    let w = world();
    assert_eq!(w.add(1), OK);
    assert_eq!(w.add(12), OK);
    assert_eq!(w.flags(), 13);
    assert_eq!(w.clear(5), OK);
    assert_eq!(w.flags(), 8);
    assert_eq!(w.clear(2), OK);
    assert_eq!(w.flags(), 8);
}

#[test]
fn adding_and_clearing_report_the_change() {
    let w = world();
    assert_eq!(w.set(1), OK);
    assert_eq!(w.add(6), OK);
    let events = w.events();
    assert_eq!(events.len(), 1);
    w.check_update(&events[0], 1, 7, 1_000);
    assert_eq!(w.clear(3), OK);
    let events = w.events();
    assert_eq!(events.len(), 1);
    w.check_update(&events[0], 7, 4, 1_000);
}

#[test]
fn clearing_undoes_adding() {
    let w = world();
    assert_eq!(w.set(2), OK);
    assert_eq!(w.add(9), OK);
    assert_eq!(w.flags(), 11);
    assert_eq!(w.clear(9), OK);
    assert_eq!(w.flags(), 2);
}

#[test]
fn an_anonymous_bounty_is_a_bounty() {
    let w = world();
    assert_eq!(w.change_by("set", &w.admin, ANONYMOUS_BOUNTY, 4), OK);
    assert_eq!(w.flags_of(ANONYMOUS_BOUNTY), 4);
    assert_eq!(w.flags(), 0);
}

#[test]
fn nothing_works_before_there_is_an_admin() {
    let w = bare_world();
    assert_eq!(w.set(1), NOT_INITIALIZED);
    assert_eq!(w.add(1), NOT_INITIALIZED);
    assert_eq!(w.clear(1), NOT_INITIALIZED);
    assert_eq!(w.propose(1, 10), NOT_INITIALIZED);
    assert_eq!(w.cancel_by(&w.admin), NOT_INITIALIZED);
    assert_eq!(w.execute(), BOUNTY_NOT_FOUND);
}

#[test]
fn a_missing_bounty_is_refused() {
    let w = world();
    let stranger = SdkAddress::generate(&w.env);
    assert_eq!(w.change_by("set", &w.admin, NO_BOUNTY, 1), BOUNTY_NOT_FOUND);
    assert_eq!(w.change_by("add", &w.admin, NO_BOUNTY, 1), BOUNTY_NOT_FOUND);
    assert_eq!(w.change_by("clear", &w.admin, NO_BOUNTY, 1), BOUNTY_NOT_FOUND);
    assert_eq!(w.propose_by(&w.admin, NO_BOUNTY, 1, 10), BOUNTY_NOT_FOUND);
    assert_eq!(w.change_by("set", &stranger, NO_BOUNTY, 1), BOUNTY_NOT_FOUND);
}

#[test]
fn a_stranger_is_refused() {
    let w = world();
    let stranger = SdkAddress::generate(&w.env);
    assert_eq!(w.change_by("set", &stranger, BOUNTY, 1), UNAUTHORIZED);
    assert_eq!(w.change_by("add", &stranger, BOUNTY, 1), UNAUTHORIZED);
    assert_eq!(w.change_by("clear", &stranger, BOUNTY, 1), UNAUTHORIZED);
    assert_eq!(w.propose_by(&stranger, BOUNTY, 1, 10), UNAUTHORIZED);
    assert_eq!(w.cancel_by(&stranger), UNAUTHORIZED);
    assert_eq!(w.flags(), 0);
}

#[test]
fn unknown_bits_are_refused_and_change_nothing() {
    let w = world();
    assert_eq!(w.set(6), OK);
    assert_eq!(w.set(16), INVALID_AMOUNT);
    assert_eq!(w.events().len(), 0);
    assert_eq!(w.add(17), INVALID_AMOUNT);
    assert_eq!(w.clear(0x8000_0000), INVALID_AMOUNT);
    assert_eq!(w.propose(32, 10), INVALID_AMOUNT);
    assert_eq!(w.flags(), 6);
    assert_eq!(w.proposal(), None);
}

#[test]
fn the_admin_must_authorize_the_call() {
    let w = world();
    assert_eq!(w.set(1), OK);
    let auths = w.env.auths();
    assert_eq!(auths.len(), 1);
    assert_eq!(auths[0].0, w.admin);
    assert_eq!(w.propose(2, 5), OK);
    assert_eq!(w.env.auths().len(), 1);
    w.env.ledger().set_timestamp(1_005);
    assert_eq!(w.execute(), OK);
    assert_eq!(w.env.auths().len(), 0);
}

#[test]
fn without_authorization_the_call_fails() {
    let w = world();
    w.env.set_auths(&[]);
    let args: [Val; 3] = [w.admin.to_val(), BOUNTY.into_val(&w.env), 1u32.into()];
    let args = SdkVec::from_slice(&w.env, &args);
    let answer = w.env.try_invoke_contract::<u32, soroban_sdk::Error>(&w.id, &w.sym("set"), args);
    assert!(answer.is_err());
    assert_eq!(w.flags(), 0);
}

#[test]
fn a_proposal_can_be_read_back() {
    let w = world();
    assert_eq!(w.propose(9, 600), OK);
    let events = w.events();
    assert_eq!(events.len(), 1);
    w.check_topics(&events[0].0, "rf_prop");
    let data: (u32, u64, SdkAddress) = events[0].1.into_val(&w.env);
    assert_eq!(data, (9, 1_600, w.admin.clone()));
    assert_eq!(
        w.proposal(),
        Some(RiskFlagProposal {
            proposed_flags: 9,
            execute_after: 1_600,
            proposed_by: plain(&w.admin),
            proposed_at: 1_000,
        })
    );
    assert_eq!(w.flags(), 0);
}

#[test]
fn a_proposal_waits_for_its_delay() {
    let w = world();
    assert_eq!(w.set(1), OK);
    assert_eq!(w.propose(9, 600), OK);
    assert_eq!(w.execute(), DEADLINE_NOT_PASSED);
    w.env.ledger().set_timestamp(1_599);
    assert_eq!(w.execute(), DEADLINE_NOT_PASSED);
    assert_eq!(w.flags(), 1);
    w.env.ledger().set_timestamp(1_600);
    assert_eq!(w.execute(), OK);
    let events = w.events();
    assert_eq!(events.len(), 2);
    w.check_update(&events[0], 1, 9, 1_600);
    w.check_topics(&events[1].0, "rf_exec");
    let data: (u32, SdkAddress) = events[1].1.into_val(&w.env);
    assert_eq!(data, (9, w.admin.clone()));
    assert_eq!(w.flags(), 9);
    assert_eq!(w.proposal(), None);
    assert_eq!(w.execute(), BOUNTY_NOT_FOUND);
}

#[test]
fn anyone_can_execute_without_an_authorization() {
    let w = world();
    assert_eq!(w.propose(4, 1), OK);
    w.env.set_auths(&[]);
    w.env.ledger().set_timestamp(5_000);
    assert_eq!(w.execute(), OK);
    assert_eq!(w.flags(), 4);
}

#[test]
fn the_last_proposal_wins() {
    let w = world();
    assert_eq!(w.propose(4, 10), OK);
    assert_eq!(w.propose(2, 20), OK);
    w.env.ledger().set_timestamp(1_010);
    assert_eq!(w.execute(), DEADLINE_NOT_PASSED);
    w.env.ledger().set_timestamp(1_020);
    assert_eq!(w.execute(), OK);
    assert_eq!(w.flags(), 2);
}

#[test]
fn a_delay_of_zero_is_refused_first() {
    let w = world();
    assert_eq!(w.propose(1, 0), INVALID_DEADLINE);
    assert_eq!(w.propose(16, 0), INVALID_DEADLINE);
    assert_eq!(w.proposal(), None);
}

#[test]
fn a_delay_past_the_end_of_time_ends_there() {
    let w = world();
    assert_eq!(w.propose(1, u64::MAX), OK);
    assert_eq!(w.proposal().unwrap().execute_after, u64::MAX);
}

#[test]
fn a_cancelled_proposal_is_gone() {
    let w = world();
    assert_eq!(w.cancel_by(&w.admin), BOUNTY_NOT_FOUND);
    assert_eq!(w.propose(4, 10), OK);
    w.env.ledger().set_timestamp(1_004);
    assert_eq!(w.cancel_by(&w.admin), OK);
    let events = w.events();
    assert_eq!(events.len(), 1);
    w.check_topics(&events[0].0, "rf_canc");
    let data: (SdkAddress, u64) = events[0].1.into_val(&w.env);
    assert_eq!(data, (w.admin.clone(), 1_004));
    assert_eq!(w.proposal(), None);
    w.env.ledger().set_timestamp(9_000);
    assert_eq!(w.execute(), BOUNTY_NOT_FOUND);
    assert_eq!(w.flags(), 0);
}

#[test]
fn the_rest_of_the_metadata_is_kept() {
    let w = world();
    let key = (w.sym("Metadata"), BOUNTY);
    let record: SdkMap<Symbol, Val> = SdkMap::from_array(
        &w.env,
        [
            (w.sym("repo_id"), 11u64.into_val(&w.env)),
            (w.sym("issue_id"), u64::MAX.into_val(&w.env)),
            (w.sym("bounty_type"), SdkString::from_str(&w.env, "docs").to_val()),
            (w.sym("risk_flags"), 2u32.into()),
            (w.sym("notification_prefs"), 77u32.into()),
            (w.sym("reference_hash"), Bytes::from_slice(&w.env, &[1, 2, 3]).to_val()),
        ],
    );
    w.env.as_contract(&w.id, || w.env.storage().persistent().set(&key, &record));
    assert_eq!(w.flags(), 2);
    assert_eq!(w.add(8), OK);
    let mut expected = record.clone();
    expected.set(w.sym("risk_flags"), 10u32.into());
    let stored: SdkMap<Symbol, Val> =
        w.env.as_contract(&w.id, || w.env.storage().persistent().get(&key).unwrap());
    assert_eq!(stored, expected);
}

#[test]
fn the_first_flags_come_in_a_minimal_record() {
    let w = world();
    assert_eq!(w.set(12), OK);
    let key = (w.sym("Metadata"), BOUNTY);
    let stored: SdkMap<Symbol, Val> =
        w.env.as_contract(&w.id, || w.env.storage().persistent().get(&key).unwrap());
    let expected: SdkMap<Symbol, Val> = SdkMap::from_array(
        &w.env,
        [
            (w.sym("repo_id"), 0u64.into_val(&w.env)),
            (w.sym("issue_id"), 0u64.into_val(&w.env)),
            (w.sym("bounty_type"), SdkString::from_str(&w.env, "").to_val()),
            (w.sym("risk_flags"), 12u32.into()),
            (w.sym("notification_prefs"), 0u32.into()),
            (w.sym("reference_hash"), ().into()),
        ],
    );
    assert_eq!(stored, expected);
}

#[test]
fn a_proposal_is_stored_by_field_name() {
    let w = world();
    assert_eq!(w.propose(3, 30), OK);
    let key = (w.sym("Proposal"), BOUNTY);
    let stored: SdkMap<Symbol, Val> =
        w.env.as_contract(&w.id, || w.env.storage().persistent().get(&key).unwrap());
    let expected: SdkMap<Symbol, Val> = SdkMap::from_array(
        &w.env,
        [
            (w.sym("proposed_flags"), 3u32.into()),
            (w.sym("execute_after"), 1_030u64.into_val(&w.env)),
            (w.sym("proposed_by"), w.admin.to_val()),
            (w.sym("proposed_at"), 1_000u64.into_val(&w.env)),
        ],
    );
    assert_eq!(stored, expected);
}

#[test]
fn the_guard_can_be_taken_and_freed() {
    let w = world();
    let mut env = w.env.clone();
    w.env.as_contract(&w.id, || {
        assert!(!reentrancy_guard::is_held(&env));
        reentrancy_guard::acquire(&mut env);
        assert!(reentrancy_guard::is_held(&env));
        reentrancy_guard::release(&mut env);
        assert!(!reentrancy_guard::is_held(&env));
    });
}

#[test]
fn slots_that_hold_something_else_are_told_apart() {
    let w = world();
    w.env.as_contract(&w.id, || {
        assert!(admin_is_readable(&w.env));
        assert!(metadata_is_readable(&w.env, BOUNTY));
        assert!(proposal_is_readable(&w.env, BOUNTY));
        w.env.storage().instance().set(&(w.sym("Admin"),), &5u32);
        w.env.storage().persistent().set(&(w.sym("Metadata"), BOUNTY), &5u32);
        let empty: SdkMap<Symbol, Val> = SdkMap::new(&w.env);
        w.env.storage().persistent().set(&(w.sym("Proposal"), BOUNTY), &empty);
        assert!(!admin_is_readable(&w.env));
        assert!(!metadata_is_readable(&w.env, BOUNTY));
        assert!(!proposal_is_readable(&w.env, BOUNTY));
        assert!(metadata_is_readable(&w.env, NO_BOUNTY));
    });
}

#[test]
fn reading_can_be_tried() {
    let w = world();
    assert_eq!(w.set(3), OK);
    w.env.as_contract(&w.id, || {
        assert_eq!(try_get_risk_flags(&w.env, BOUNTY), Some(3));
        assert_eq!(try_get_risk_flags(&w.env, NO_BOUNTY), Some(0));
        w.env.storage().persistent().set(&(w.sym("Metadata"), BOUNTY), &5u32);
        assert_eq!(try_get_risk_flags(&w.env, BOUNTY), None);
    });
}

#[test]
fn execution_can_be_tried() {
    let w = world();
    let mut env = w.env.clone();
    assert_eq!(w.propose(6, 10), OK);
    w.env.ledger().set_timestamp(1_010);
    w.env.as_contract(&w.id, || {
        reentrancy_guard::acquire(&mut env);
        assert_eq!(try_execute_risk_flag_change(&mut env, BOUNTY), None);
        reentrancy_guard::release(&mut env);
        assert_eq!(
            try_execute_risk_flag_change(&mut env, NO_BOUNTY),
            Some(Err(Error::BountyNotFound))
        );
        w.env.storage().persistent().set(&(w.sym("Metadata"), BOUNTY), &5u32);
        assert_eq!(try_execute_risk_flag_change(&mut env, BOUNTY), None);
        w.env.storage().persistent().remove(&(w.sym("Metadata"), BOUNTY));
        assert_eq!(try_execute_risk_flag_change(&mut env, BOUNTY), Some(Ok(())));
    });
    assert_eq!(w.flags(), 6);
}

#[test]
fn an_account_can_be_the_admin() {
    let w = world();
    let payload = AddressPayload::AccountIdPublicKeyEd25519(soroban_sdk::BytesN::from_array(
        &w.env, &[9; 32],
    ));
    let account = SdkAddress::from_payload(&w.env, payload);
    w.env.as_contract(&w.id, || {
        w.env.storage().instance().set(&(w.sym("Admin"),), &account);
    });
    assert_eq!(w.set(1), UNAUTHORIZED);
    assert_eq!(w.propose_by(&account, BOUNTY, 1, 3), OK);
    assert_eq!(w.env.auths()[0].0, account);
    assert_eq!(w.proposal().unwrap().proposed_by, Address::Account([9; 32]));
}

#[test]
fn adding_is_setting_with_the_bits_added() {
    let (one, two) = (world(), world());
    assert_eq!(one.set(5), OK);
    assert_eq!(two.set(5), OK);
    assert_eq!(one.add(3), two.set(5 | 3));
    assert_eq!(one.flags(), two.flags());
    assert_eq!(one.add(16), two.set(7 | 16));
    assert_eq!(one.flags(), two.flags());
}

#[test]
fn clearing_is_setting_with_the_bits_cleared() {
    let (one, two) = (world(), world());
    assert_eq!(one.set(13), OK);
    assert_eq!(two.set(13), OK);
    assert_eq!(one.clear(6), two.set(13 & !6));
    assert_eq!(one.flags(), two.flags());
    assert_eq!(one.flags(), 9);
}

#[test]
fn the_events_tell_the_flags() {
    let w = world();
    let mut told: u32 = 0;
    let calls: [(&str, u32); 5] = [("set", 9), ("add", 6), ("clear", 3), ("set", 16), ("add", 1)];
    for (func, flags) in calls {
        w.change_by(func, &w.admin, BOUNTY, flags);
        for (_, data) in w.events() {
            let data: SdkMap<Symbol, Val> = data.into_val(&w.env);
            let previous: u32 = data.get(w.sym("previous_flags")).unwrap().into_val(&w.env);
            assert_eq!(previous, told);
            told = data.get(w.sym("new_flags")).unwrap().into_val(&w.env);
        }
        assert_eq!(w.flags(), told);
    }
    assert_eq!(told, 13);
}

#[test]
fn a_proposal_stays_through_other_operations() {
    let w = world();
    assert_eq!(w.propose(8, 100), OK);
    let made = w.proposal();
    w.env.ledger().set_timestamp(1_050);
    assert_eq!(w.set(3), OK);
    assert_eq!(w.execute(), DEADLINE_NOT_PASSED);
    assert_eq!(w.propose_by(&w.admin, ANONYMOUS_BOUNTY, 1, 1), OK);
    assert_eq!(w.clear(1), OK);
    assert_eq!(w.proposal(), made);
    w.env.ledger().set_timestamp(1_100);
    assert_eq!(w.execute(), OK);
    assert_eq!(w.flags(), 8);
}

#[test]
fn adding_to_stored_unknown_bits_is_refused() {
    let w = world();
    w.store_flags(0x10);
    assert_eq!(w.add(0x1), INVALID_AMOUNT);
    assert_eq!(w.events().len(), 0);
    assert_eq!(w.flags(), 0x10);
    assert_eq!(w.add(0), INVALID_AMOUNT);
    assert_eq!(w.events().len(), 0);
    assert_eq!(w.flags(), 0x10);
}

#[test]
fn clearing_that_leaves_unknown_bits_is_refused() {
    let w = world();
    w.store_flags(0x13);
    assert_eq!(w.clear(0x3), INVALID_AMOUNT);
    assert_eq!(w.events().len(), 0);
    assert_eq!(w.flags(), 0x13);
    assert_eq!(w.clear(0x10), INVALID_AMOUNT);
    assert_eq!(w.flags(), 0x13);
}

#[test]
fn setting_takes_stored_unknown_bits_away() {
    let w = world();
    w.store_flags(0x13);
    assert_eq!(w.set(0x3), OK);
    let events = w.events();
    assert_eq!(events.len(), 1);
    w.check_update(&events[0], 0x13, 0x3, 1_000);
    assert_eq!(w.flags(), 0x3);
}

#[test]
fn the_last_write_wins() {
    let (one, two) = (world(), world());
    assert_eq!(one.set(5), OK);
    assert_eq!(one.set(2), OK);
    assert_eq!(two.set(2), OK);
    assert_eq!(one.flags(), 2);
    assert_eq!(two.flags(), 2);
    assert_eq!(one.set(2), OK);
    assert_eq!(one.flags(), 2);
}

#[test]
fn writes_to_two_bounties_commute() {
    let (one, two) = (world(), world());
    assert_eq!(one.set(5), OK);
    assert_eq!(one.change_by("set", &one.admin, ANONYMOUS_BOUNTY, 10), OK);
    assert_eq!(two.change_by("set", &two.admin, ANONYMOUS_BOUNTY, 10), OK);
    assert_eq!(two.set(5), OK);
    assert_eq!((one.flags(), one.flags_of(ANONYMOUS_BOUNTY)), (5, 10));
    assert_eq!((two.flags(), two.flags_of(ANONYMOUS_BOUNTY)), (5, 10));
}

#[test]
fn an_accepted_change_is_reported_also_where_nothing_changes() {
    let w = world();
    assert_eq!(w.set(6), OK);
    for func in ["set", "add"] {
        assert_eq!(w.change_by(func, &w.admin, BOUNTY, 6), OK);
        let events = w.events();
        assert_eq!(events.len(), 1);
        w.check_update(&events[0], 6, 6, 1_000);
    }
    assert_eq!(w.clear(9), OK);
    let events = w.events();
    assert_eq!(events.len(), 1);
    w.check_update(&events[0], 6, 6, 1_000);
    assert_eq!(w.propose(6, 5), OK);
    w.env.ledger().set_timestamp(1_005);
    assert_eq!(w.execute(), OK);
    let events = w.events();
    assert_eq!(events.len(), 2);
    w.check_update(&events[0], 6, 6, 1_005);
}

#[test]
fn updates_form_a_chain() {
    let w = world();
    assert_eq!(w.set(1), OK);
    w.check_update(&w.events()[0], 0, 1, 1_000);
    assert_eq!(w.add(6), OK);
    w.check_update(&w.events()[0], 1, 7, 1_000);
    assert_eq!(w.propose(8, 10), OK);
    assert_eq!(w.clear(2), OK);
    w.check_update(&w.events()[0], 7, 5, 1_000);
    assert_eq!(w.set(99), INVALID_AMOUNT);
    assert_eq!(w.events().len(), 0);
    w.env.ledger().set_timestamp(1_010);
    assert_eq!(w.execute(), OK);
    w.check_update(&w.events()[0], 5, 8, 1_010);
    assert_eq!(w.add(1), OK);
    w.check_update(&w.events()[0], 8, 9, 1_010);
}

#[test]
fn refused_operations_leave_the_proposal() {
    let w = world();
    let stranger = SdkAddress::generate(&w.env);
    assert_eq!(w.propose(8, 100), OK);
    let made = w.proposal();
    assert_eq!(w.propose(1, 0), INVALID_DEADLINE);
    assert_eq!(w.propose(16, 5), INVALID_AMOUNT);
    assert_eq!(w.propose_by(&stranger, BOUNTY, 1, 5), UNAUTHORIZED);
    assert_eq!(w.cancel_by(&stranger), UNAUTHORIZED);
    assert_eq!(w.execute(), DEADLINE_NOT_PASSED);
    assert_eq!(w.proposal(), made);
}

#[test]
fn a_used_proposal_stays_gone() {
    let w = world();
    assert_eq!(w.propose(8, 100), OK);
    w.env.ledger().set_timestamp(1_100);
    assert_eq!(w.execute(), OK);
    assert_eq!(w.set(1), OK);
    assert_eq!(w.propose(16, 5), INVALID_AMOUNT);
    assert_eq!(w.cancel_by(&w.admin), BOUNTY_NOT_FOUND);
    assert_eq!(w.propose_by(&w.admin, ANONYMOUS_BOUNTY, 2, 1), OK);
    w.env.ledger().set_timestamp(5_000);
    assert_eq!(w.execute(), BOUNTY_NOT_FOUND);
    assert_eq!(w.proposal(), None);
    assert_eq!(w.flags(), 1);
}

#[test]
fn trying_too_early_does_not_read_the_metadata() {
    let w = world();
    let mut env = w.env.clone();
    assert_eq!(w.propose(6, 10), OK);
    w.env.as_contract(&w.id, || {
        w.env.storage().persistent().set(&(w.sym("Metadata"), BOUNTY), &5u32);
        assert_eq!(
            try_execute_risk_flag_change(&mut env, BOUNTY),
            Some(Err(Error::DeadlineNotPassed))
        );
        assert_eq!(
            try_execute_risk_flag_change_at(&mut env, BOUNTY, 1_009),
            Some(Err(Error::DeadlineNotPassed))
        );
        assert_eq!(try_execute_risk_flag_change_at(&mut env, BOUNTY, 1_010), None);
        w.env.storage().persistent().set(&(w.sym("Proposal"), BOUNTY), &5u32);
        assert_eq!(try_execute_risk_flag_change_at(&mut env, BOUNTY, 1_009), None);
    });
}

#[test]
fn a_refused_request_reads_no_more_than_it_needs() {
    let w = world();
    let stranger = SdkAddress::generate(&w.env);
    let (admin, other) = (plain(&w.admin), plain(&stranger));
    w.env.as_contract(&w.id, || {
        w.env.storage().persistent().set(&(w.sym("Metadata"), BOUNTY), &5u32);
        assert!(!change_is_readable(&w.env, &admin, BOUNTY, 1));
        assert!(change_is_readable(&w.env, &admin, BOUNTY, 16));
        assert!(change_is_readable(&w.env, &other, BOUNTY, 1));
        assert!(change_is_readable(&w.env, &admin, NO_BOUNTY, 1));
        assert!(change_is_readable(&w.env, &admin, ANONYMOUS_BOUNTY, 1));
    });
    assert_eq!(w.change_by("set", &stranger, BOUNTY, 1), UNAUTHORIZED);
    assert_eq!(w.set(16), INVALID_AMOUNT);
    w.env.as_contract(&w.id, || {
        w.env.storage().instance().set(&(w.sym("Admin"),), &5u32);
        assert!(!admin_check_is_readable(&w.env, BOUNTY));
        assert!(admin_check_is_readable(&w.env, NO_BOUNTY));
        assert!(!change_is_readable(&w.env, &other, BOUNTY, 1));
        assert!(change_is_readable(&w.env, &other, NO_BOUNTY, 1));
    });
    assert_eq!(w.change_by("set", &w.admin, NO_BOUNTY, 1), BOUNTY_NOT_FOUND);
}
