//! The operations on risk flags.
//!
//! A change of flags is reported with the ledger time. Each operation that
//! needs the time comes twice: under its own name it asks the host for the
//! time and goes by the answer, and with `_at` it takes the time as an argument.

use soroban_sdk::Env;
use vstd::prelude::*;

use crate::host::{
    host_view, instance_address, instance_has, is_ledger_time, law_ledger_times_are_as_returned,
    pending_auths, persistent_has, persistent_metadata, persistent_proposal, persistent_remove,
    persistent_set_metadata, persistent_set_proposal, publish_notice, publish_update, require_auth,
    timestamp, HostView, StoredValue,
};
use crate::laws::law_mask_is_every_bit;
use crate::model::{
    add_outcome, admin_access, admin_check_readable, bounty_access, cancel_access, cancel_outcome,
    change_readable, clear_outcome, execute_outcome, execution_possible, has_bit, known,
    proposal_for, propose_outcome, set_outcome,
};
use crate::reentrancy_guard;
use crate::types::{
    lemma_slots_differ, Address, DataKey, Error, EscrowMetadata, MetadataView, Notice,
    RiskFlagsUpdated, EVENT_VERSION_V2,
};

pub use crate::model::RISK_FLAGS_ALL_KNOWN;
pub use crate::types::{RiskFlagGovernanceKey, RiskFlagProposal};

verus! {

/// Accepts flags that hold only known bits.
pub fn validate_flags(flags: u32) -> (r: Result<(), Error>)
    ensures
        r == (if known(flags) {
            Ok(())
        } else {
            Err(Error::InvalidAmount)
        }),
{
    if flags & !RISK_FLAGS_ALL_KNOWN != 0 {
        return Err(Error::InvalidAmount);
    }
    Ok(())
}

/// Whether an address may change the flags of a bounty, given whether the
/// contract has an admin, whether the bounty exists, and who the admin is.
pub fn check_admin(
    initialized: bool,
    bounty_exists: bool,
    stored: Option<Address>,
    admin: &Address,
) -> (r: Result<(), Error>)
    ensures
        r == admin_access(initialized, bounty_exists, stored, *admin),
{
    if !initialized {
        return Err(Error::NotInitialized);
    }
    if !bounty_exists {
        return Err(Error::BountyNotFound);
    }
    match stored {
        Some(address) => if address.same(admin) {
            Ok(())
        } else {
            Err(Error::Unauthorized)
        },
        None => Err(Error::Unauthorized),
    }
}

/// The record of a bounty with its flags replaced; a minimal record where the
/// bounty has none yet.
pub fn replace_flags(record: Option<EscrowMetadata>, new_flags: u32) -> (r: EscrowMetadata)
    ensures
        r@ == (MetadataView {
            risk_flags: new_flags,
            ..match record {
                Some(found) => found@,
                None => MetadataView::minimal(),
            }
        }),
{
    let mut updated = match record {
        Some(found) => found,
        None => EscrowMetadata::minimal(),
    };
    updated.risk_flags = new_flags;
    updated
}

/// The proposal that the admin makes at `now`: it may be carried out once
/// `delay_secs` seconds have passed.
pub fn make_proposal(admin: &Address, proposed_flags: u32, delay_secs: u64, now: u64) -> (r: Result<
    RiskFlagProposal,
    Error,
>)
    ensures
        r == proposal_for(*admin, proposed_flags, delay_secs, now),
{
    if delay_secs == 0 {
        return Err(Error::InvalidDeadline);
    }
    if let Err(error) = validate_flags(proposed_flags) {
        return Err(error);
    }
    Ok(
        RiskFlagProposal {
            proposed_flags,
            execute_after: now.saturating_add(delay_secs),
            proposed_by: *admin,
            proposed_at: now,
        },
    )
}

/// The risk flags of the bounty; 0 where it has no metadata.
pub fn current_flags(env: &Env, bounty_id: u64) -> (r: u32)
    requires
        host_view(*env).metadata_readable(bounty_id),
    ensures
        r == host_view(*env).flags(bounty_id),
{
    match persistent_metadata(env, DataKey::Metadata(bounty_id).name(), bounty_id) {
        Some(record) => record.risk_flags,
        None => 0,
    }
}

/// Replaces the risk flags of the bounty, in a minimal record where it has no
/// metadata yet. The guard must be taken.
fn write_flags(env: &mut Env, bounty_id: u64, new_flags: u32)
    requires
        host_view(*old(env)).guarded(),
        host_view(*old(env)).metadata_readable(bounty_id),
    ensures
        host_view(*final(env)) == host_view(*old(env)).with_flags(bounty_id, new_flags),
        pending_auths(*final(env)) == pending_auths(*old(env)),
{
    let name = DataKey::Metadata(bounty_id).name();
    let record = replace_flags(persistent_metadata(env, name, bounty_id), new_flags);
    persistent_set_metadata(env, name, bounty_id, &record);
}

/// Replaces the risk flags of the bounty and reports the change. The guard must
/// be taken.
fn record_flags(env: &mut Env, bounty_id: u64, new_flags: u32, admin: &Address, now: u64)
    requires
        host_view(*old(env)).guarded(),
        host_view(*old(env)).metadata_readable(bounty_id),
    ensures
        host_view(*final(env)) == host_view(*old(env)).with_update(
            bounty_id,
            new_flags,
            *admin,
            now,
        ),
        pending_auths(*final(env)) == pending_auths(*old(env)),
{
    let previous_flags = current_flags(env, bounty_id);
    write_flags(env, bounty_id, new_flags);
    proof {
        reveal_strlit("risk");
    }
    publish_update(
        env,
        "risk",
        &RiskFlagsUpdated {
            version: EVENT_VERSION_V2,
            bounty_id,
            previous_flags,
            new_flags,
            admin: *admin,
            timestamp: now,
        },
    );
}

/// Whether the slot of the admin, where it is in use, holds an address.
pub fn admin_is_readable(env: &Env) -> (r: bool)
    ensures
        r == host_view(*env).admin_readable(),
{
    let name = DataKey::Admin.name();
    !instance_has(env, name) || instance_address(env, name).is_some()
}

/// Whether the slot of the bounty's metadata, where it is in use, holds a record.
pub fn metadata_is_readable(env: &Env, bounty_id: u64) -> (r: bool)
    ensures
        r == host_view(*env).metadata_readable(bounty_id),
{
    let name = DataKey::Metadata(bounty_id).name();
    !persistent_has(env, name, bounty_id) || persistent_metadata(env, name, bounty_id).is_some()
}

/// Whether the slot of the bounty's proposal, where it is in use, holds one.
pub fn proposal_is_readable(env: &Env, bounty_id: u64) -> (r: bool)
    ensures
        r == host_view(*env).proposal_readable(bounty_id),
{
    let name = RiskFlagGovernanceKey::Proposal(bounty_id).name();
    !persistent_has(env, name, bounty_id) || persistent_proposal(env, name, bounty_id).is_some()
}

/// Whether the host lets the admin act on the bounty: no operation is under
/// way, the admin's slot can be read where it is read, and the authorization
/// is at hand where it is asked for.
pub open spec fn admin_call_possible(env: Env, admin: Address, bounty_id: u64) -> bool {
    let host = host_view(env);
    &&& !host.guarded()
    &&& admin_check_readable(host, bounty_id)
    &&& bounty_access(host, admin, bounty_id) is Ok ==> pending_auths(env).contains(admin)
}

/// The state in the middle of an operation: the guard is taken.
spec fn under_guard(host: HostView) -> HostView {
    HostView {
        instance: host.instance.insert(
            DataKey::ReentrancyGuard.spec_name(),
            StoredValue::Flag(true),
        ),
        ..host
    }
}

/// Whether the bounty has an escrow, with a named or an anonymous depositor.
fn bounty_is_stored(env: &Env, bounty_id: u64) -> (r: bool)
    ensures
        r == host_view(*env).bounty_exists(bounty_id),
{
    persistent_has(env, DataKey::Escrow(bounty_id).name(), bounty_id) || persistent_has(
        env,
        DataKey::EscrowAnon(bounty_id).name(),
        bounty_id,
    )
}

/// Whether an address may change the flags of the bounty.
fn check_bounty(env: &Env, admin: &Address, bounty_id: u64) -> (r: Result<(), Error>)
    ensures
        r == bounty_access(host_view(*env), *admin, bounty_id),
{
    let initialized = instance_has(env, DataKey::Admin.name());
    let bounty_exists = bounty_is_stored(env, bounty_id);
    let stored = instance_address(env, DataKey::Admin.name());
    check_admin(initialized, bounty_exists, stored, admin)
}

/// Whether the admin's slot can be read where the check of the admin reads it.
pub fn admin_check_is_readable(env: &Env, bounty_id: u64) -> (r: bool)
    ensures
        r == admin_check_readable(host_view(*env), bounty_id),
{
    !bounty_is_stored(env, bounty_id) || admin_is_readable(env)
}

/// Whether the slots can be read that an immediate change by `admin`, who names
/// the flags `given`, reads.
pub fn change_is_readable(env: &Env, admin: &Address, bounty_id: u64, given: u32) -> (r: bool)
    ensures
        r == change_readable(host_view(*env), *admin, bounty_id, given),
{
    if !admin_check_is_readable(env, bounty_id) {
        return false;
    }
    check_bounty(env, admin, bounty_id).is_err() || validate_flags(given).is_err()
        || metadata_is_readable(env, bounty_id)
}

/// Starts an operation of the admin on a bounty: takes the guard, checks who
/// asks, and has the host confirm the authorization. On a refusal the guard is
/// free again.
fn begin(env: &mut Env, admin: &Address, bounty_id: u64) -> (r: Result<(), Error>)
    requires
        admin_call_possible(*old(env), *admin, bounty_id),
    ensures
        r == bounty_access(host_view(*old(env)), *admin, bounty_id),
        host_view(*final(env)) == (if r is Ok {
            under_guard(host_view(*old(env)).with_auth(*admin))
        } else {
            host_view(*old(env))
        }),
{
    reentrancy_guard::acquire(env);
    proof {
        lemma_guard_is_aside(host_view(*old(env)), *admin, bounty_id);
    }
    let access = check_bounty(env, admin, bounty_id);
    if access.is_err() {
        reentrancy_guard::release(env);
        proof {
            lemma_guard_comes_off(host_view(*old(env)));
        }
        return access;
    }
    require_auth(env, admin);
    access
}

/// Taking the guard changes nothing in who may act.
proof fn lemma_guard_is_aside(host: HostView, admin: Address, bounty_id: u64)
    ensures
        bounty_access(under_guard(host), admin, bounty_id) == bounty_access(host, admin, bounty_id),
        cancel_access(under_guard(host), admin) == cancel_access(host, admin),
{
    lemma_slots_differ(bounty_id, bounty_id);
}

/// Taking and freeing the guard leaves the host as it was.
proof fn lemma_guard_comes_off(host: HostView)
    requires
        !host.guarded(),
    ensures
        under_guard(host).instance.remove(DataKey::ReentrancyGuard.spec_name()) == host.instance,
{
    assert(under_guard(host).instance.remove(DataKey::ReentrancyGuard.spec_name())
        =~= host.instance);
}

/// Directly sets the risk flags of a bounty, at the time `now`.
pub fn set_risk_flags_at(
    env: &mut Env,
    admin: &Address,
    bounty_id: u64,
    new_flags: u32,
    now: u64,
) -> (r: Result<(), Error>)
    requires
        admin_call_possible(*old(env), *admin, bounty_id),
        change_readable(host_view(*old(env)), *admin, bounty_id, new_flags),
    ensures
        (host_view(*final(env)), r) == set_outcome(
            host_view(*old(env)),
            *admin,
            bounty_id,
            new_flags,
            now,
        ),
{
    proof {
        lemma_guard_comes_off(host_view(*old(env)));
    }
    begin(env, admin, bounty_id)?;
    if let Err(error) = validate_flags(new_flags) {
        reentrancy_guard::release(env);
        return Err(error);
    }
    record_flags(env, bounty_id, new_flags, admin, now);
    reentrancy_guard::release(env);
    Ok(())
}

/// Sets some of the risk flags of a bounty and leaves the others, at the time
/// `now`.
pub fn add_risk_flags_at(
    env: &mut Env,
    admin: &Address,
    bounty_id: u64,
    bits_to_add: u32,
    now: u64,
) -> (r: Result<(), Error>)
    requires
        admin_call_possible(*old(env), *admin, bounty_id),
        change_readable(host_view(*old(env)), *admin, bounty_id, bits_to_add),
    ensures
        (host_view(*final(env)), r) == add_outcome(
            host_view(*old(env)),
            *admin,
            bounty_id,
            bits_to_add,
            now,
        ),
{
    proof {
        lemma_guard_comes_off(host_view(*old(env)));
    }
    begin(env, admin, bounty_id)?;
    if let Err(error) = validate_flags(bits_to_add) {
        reentrancy_guard::release(env);
        return Err(error);
    }
    let new_flags: u32 = current_flags(env, bounty_id) | bits_to_add;
    if let Err(error) = validate_flags(new_flags) {
        reentrancy_guard::release(env);
        return Err(error);
    }
    record_flags(env, bounty_id, new_flags, admin, now);
    reentrancy_guard::release(env);
    Ok(())
}

/// Clears some of the risk flags of a bounty and leaves the others, at the time
/// `now`.
pub fn clear_risk_flags_at(
    env: &mut Env,
    admin: &Address,
    bounty_id: u64,
    bits_to_clear: u32,
    now: u64,
) -> (r: Result<(), Error>)
    requires
        admin_call_possible(*old(env), *admin, bounty_id),
        change_readable(host_view(*old(env)), *admin, bounty_id, bits_to_clear),
    ensures
        (host_view(*final(env)), r) == clear_outcome(
            host_view(*old(env)),
            *admin,
            bounty_id,
            bits_to_clear,
            now,
        ),
{
    proof {
        lemma_guard_comes_off(host_view(*old(env)));
    }
    begin(env, admin, bounty_id)?;
    if let Err(error) = validate_flags(bits_to_clear) {
        reentrancy_guard::release(env);
        return Err(error);
    }
    let new_flags: u32 = current_flags(env, bounty_id) & !bits_to_clear;
    if let Err(error) = validate_flags(new_flags) {
        reentrancy_guard::release(env);
        return Err(error);
    }
    record_flags(env, bounty_id, new_flags, admin, now);
    reentrancy_guard::release(env);
    Ok(())
}

/// Proposes, at the time `now`, a change of risk flags that may be carried out
/// once `delay_secs` seconds have passed. It takes the place of a proposal that
/// is already pending for the bounty.
pub fn propose_risk_flag_change_at(
    env: &mut Env,
    admin: &Address,
    bounty_id: u64,
    proposed_flags: u32,
    delay_secs: u64,
    now: u64,
) -> (r: Result<(), Error>)
    requires
        admin_call_possible(*old(env), *admin, bounty_id),
    ensures
        (host_view(*final(env)), r) == propose_outcome(
            host_view(*old(env)),
            *admin,
            bounty_id,
            proposed_flags,
            delay_secs,
            now,
        ),
{
    proof {
        lemma_guard_comes_off(host_view(*old(env)));
        reveal_strlit("rf_prop");
    }
    begin(env, admin, bounty_id)?;
    match make_proposal(admin, proposed_flags, delay_secs, now) {
        Err(error) => {
            reentrancy_guard::release(env);
            Err(error)
        },
        Ok(proposal) => {
            let name = RiskFlagGovernanceKey::Proposal(bounty_id).name();
            persistent_set_proposal(env, name, bounty_id, &proposal);
            let notice = Notice::Proposed(proposed_flags, proposal.execute_after, *admin);
            publish_notice(env, "rf_prop", bounty_id, &notice);
            reentrancy_guard::release(env);
            Ok(())
        },
    }
}

/// Carries out the pending change of risk flags of a bounty, if its time has
/// come at `now`. Anyone may ask for it.
pub fn execute_risk_flag_change_at(env: &mut Env, bounty_id: u64, now: u64) -> (r: Result<
    (),
    Error,
>)
    requires
        execution_possible(host_view(*old(env)), bounty_id, now),
    ensures
        (host_view(*final(env)), r) == execute_outcome(host_view(*old(env)), bounty_id, now),
        pending_auths(*final(env)) == pending_auths(*old(env)),
{
    proof {
        lemma_guard_comes_off(host_view(*old(env)));
        reveal_strlit("rf_exec");
    }
    reentrancy_guard::acquire(env);
    let name = RiskFlagGovernanceKey::Proposal(bounty_id).name();
    match persistent_proposal(env, name, bounty_id) {
        None => {
            reentrancy_guard::release(env);
            Err(Error::BountyNotFound)
        },
        Some(proposal) => {
            if now < proposal.execute_after {
                reentrancy_guard::release(env);
                return Err(Error::DeadlineNotPassed);
            }
            record_flags(env, bounty_id, proposal.proposed_flags, &proposal.proposed_by, now);
            persistent_remove(env, name, bounty_id);
            let notice = Notice::Executed(proposal.proposed_flags, proposal.proposed_by);
            publish_notice(env, "rf_exec", bounty_id, &notice);
            reentrancy_guard::release(env);
            Ok(())
        },
    }
}

/// Whether the host lets the admin cancel: no operation is under way, the
/// admin's slot can be read, and the authorization is at hand where it is asked
/// for.
pub open spec fn cancel_possible(env: Env, admin: Address) -> bool {
    let host = host_view(env);
    &&& !host.guarded()
    &&& host.admin_readable()
    &&& cancel_access(host, admin) is Ok ==> pending_auths(env).contains(admin)
}

/// Cancels the pending change of risk flags of a bounty, at the time `now`.
pub fn cancel_risk_flag_proposal_at(
    env: &mut Env,
    admin: &Address,
    bounty_id: u64,
    now: u64,
) -> (r: Result<(), Error>)
    requires
        cancel_possible(*old(env), *admin),
    ensures
        (host_view(*final(env)), r) == cancel_outcome(
            host_view(*old(env)),
            *admin,
            bounty_id,
            now,
        ),
{
    proof {
        lemma_guard_comes_off(host_view(*old(env)));
        lemma_guard_is_aside(host_view(*old(env)), *admin, bounty_id);
        reveal_strlit("rf_canc");
    }
    reentrancy_guard::acquire(env);
    let initialized = instance_has(env, DataKey::Admin.name());
    let stored = instance_address(env, DataKey::Admin.name());
    if let Err(error) = check_admin(initialized, true, stored, admin) {
        reentrancy_guard::release(env);
        return Err(error);
    }
    require_auth(env, admin);
    let name = RiskFlagGovernanceKey::Proposal(bounty_id).name();
    if !persistent_has(env, name, bounty_id) {
        reentrancy_guard::release(env);
        return Err(Error::BountyNotFound);
    }
    persistent_remove(env, name, bounty_id);
    publish_notice(env, "rf_canc", bounty_id, &Notice::Cancelled(*admin, now));
    reentrancy_guard::release(env);
    Ok(())
}

/// Directly sets the risk flags of a bounty (admin only, at once): `new_flags`
/// takes the place of all its flags.
///
/// Refused with `NotInitialized` where the contract has no admin, with
/// `BountyNotFound` where the bounty does not exist, with `Unauthorized` where
/// the caller is not the admin, and with `InvalidAmount` where `new_flags`
/// holds unknown bits.
pub fn set_risk_flags(env: &mut Env, admin: &Address, bounty_id: u64, new_flags: u32) -> (r: Result<
    (),
    Error,
>)
    requires
        admin_call_possible(*old(env), *admin, bounty_id),
        change_readable(host_view(*old(env)), *admin, bounty_id, new_flags),
    ensures
        exists|now: u64|
            {
                &&& #[trigger] is_ledger_time(*old(env), now)
                &&& (host_view(*final(env)), r) == set_outcome(
                    host_view(*old(env)),
                    *admin,
                    bounty_id,
                    new_flags,
                    now,
                )
            },
{
    proof {
        law_ledger_times_are_as_returned(*env);
    }
    let now = timestamp(env);
    set_risk_flags_at(env, admin, bounty_id, new_flags, now)
}

/// Sets some of the risk flags of a bounty and leaves the others (admin only,
/// at once). The same as [`set_risk_flags`] with the bits added to the flags that
/// the bounty has: refused with `InvalidAmount` where the bits or the flags that
/// would come out are not known ones.
pub fn add_risk_flags(
    env: &mut Env,
    admin: &Address,
    bounty_id: u64,
    bits_to_add: u32,
) -> (r: Result<(), Error>)
    requires
        admin_call_possible(*old(env), *admin, bounty_id),
        change_readable(host_view(*old(env)), *admin, bounty_id, bits_to_add),
    ensures
        exists|now: u64|
            {
                &&& #[trigger] is_ledger_time(*old(env), now)
                &&& (host_view(*final(env)), r) == add_outcome(
                    host_view(*old(env)),
                    *admin,
                    bounty_id,
                    bits_to_add,
                    now,
                )
            },
{
    proof {
        law_ledger_times_are_as_returned(*env);
    }
    let now = timestamp(env);
    add_risk_flags_at(env, admin, bounty_id, bits_to_add, now)
}

/// Clears some of the risk flags of a bounty and leaves the others (admin only,
/// at once). The same as [`set_risk_flags`] with the bits taken from the flags
/// that the bounty has, except that unknown bits to clear are refused with
/// `InvalidAmount` too.
pub fn clear_risk_flags(
    env: &mut Env,
    admin: &Address,
    bounty_id: u64,
    bits_to_clear: u32,
) -> (r: Result<(), Error>)
    requires
        admin_call_possible(*old(env), *admin, bounty_id),
        change_readable(host_view(*old(env)), *admin, bounty_id, bits_to_clear),
    ensures
        exists|now: u64|
            {
                &&& #[trigger] is_ledger_time(*old(env), now)
                &&& (host_view(*final(env)), r) == clear_outcome(
                    host_view(*old(env)),
                    *admin,
                    bounty_id,
                    bits_to_clear,
                    now,
                )
            },
{
    proof {
        law_ledger_times_are_as_returned(*env);
    }
    let now = timestamp(env);
    clear_risk_flags_at(env, admin, bounty_id, bits_to_clear, now)
}

/// Proposes a change of risk flags that may be carried out once `delay_secs`
/// seconds have passed (admin only). It takes the place of a proposal that is
/// already pending for the bounty.
///
/// Besides the refusals of [`set_risk_flags`], a delay of zero is refused with
/// `InvalidDeadline`.
pub fn propose_risk_flag_change(
    env: &mut Env,
    admin: &Address,
    bounty_id: u64,
    proposed_flags: u32,
    delay_secs: u64,
) -> (r: Result<(), Error>)
    requires
        admin_call_possible(*old(env), *admin, bounty_id),
    ensures
        exists|now: u64|
            {
                &&& #[trigger] is_ledger_time(*old(env), now)
                &&& (host_view(*final(env)), r) == propose_outcome(
                    host_view(*old(env)),
                    *admin,
                    bounty_id,
                    proposed_flags,
                    delay_secs,
                    now,
                )
            },
{
    proof {
        law_ledger_times_are_as_returned(*env);
    }
    let now = timestamp(env);
    propose_risk_flag_change_at(env, admin, bounty_id, proposed_flags, delay_secs, now)
}

/// Carries out the pending change of risk flags of a bounty once its time has
/// come. Anyone may ask for it.
///
/// Refused with `BountyNotFound` where no change is pending, and with
/// `DeadlineNotPassed` where it is too early.
pub fn execute_risk_flag_change(env: &mut Env, bounty_id: u64) -> (r: Result<(), Error>)
    requires
        !host_view(*old(env)).guarded(),
        host_view(*old(env)).proposal_readable(bounty_id),
        host_view(*old(env)).proposal(bounty_id) is Some ==> host_view(
            *old(env),
        ).metadata_readable(bounty_id),
    ensures
        exists|now: u64|
            {
                &&& #[trigger] is_ledger_time(*old(env), now)
                &&& (host_view(*final(env)), r) == execute_outcome(
                    host_view(*old(env)),
                    bounty_id,
                    now,
                )
            },
        pending_auths(*final(env)) == pending_auths(*old(env)),
{
    proof {
        law_ledger_times_are_as_returned(*env);
    }
    let now = timestamp(env);
    execute_risk_flag_change_at(env, bounty_id, now)
}

/// [`execute_risk_flag_change_at`] where it can go on: nothing is done, and
/// nothing is answered, while another operation is under way or where a slot
/// that would be read holds something foreign.
pub fn try_execute_risk_flag_change_at(env: &mut Env, bounty_id: u64, now: u64) -> (r: Option<
    Result<(), Error>,
>)
    ensures
        r is Some <==> execution_possible(host_view(*old(env)), bounty_id, now),
        match r {
            Some(answer) => (host_view(*final(env)), answer) == execute_outcome(
                host_view(*old(env)),
                bounty_id,
                now,
            ),
            None => host_view(*final(env)) == host_view(*old(env)),
        },
        pending_auths(*final(env)) == pending_auths(*old(env)),
{
    if reentrancy_guard::is_held(env) || !proposal_is_readable(env, bounty_id) {
        return None;
    }
    let due = match get_risk_flag_proposal(env, bounty_id) {
        Some(proposal) => proposal.execute_after <= now,
        None => false,
    };
    if due && !metadata_is_readable(env, bounty_id) {
        return None;
    }
    Some(execute_risk_flag_change_at(env, bounty_id, now))
}

/// [`execute_risk_flag_change`] where it can go on: nothing is done, and nothing
/// is answered, while another operation is under way or where a slot that would
/// be read holds something foreign.
pub fn try_execute_risk_flag_change(env: &mut Env, bounty_id: u64) -> (r: Option<Result<(), Error>>)
    ensures
        exists|now: u64|
            {
                &&& #[trigger] is_ledger_time(*old(env), now)
                &&& match r {
                    Some(answer) => {
                        &&& execution_possible(host_view(*old(env)), bounty_id, now)
                        &&& (host_view(*final(env)), answer) == execute_outcome(
                            host_view(*old(env)),
                            bounty_id,
                            now,
                        )
                    },
                    None => {
                        &&& !execution_possible(host_view(*old(env)), bounty_id, now)
                        &&& host_view(*final(env)) == host_view(*old(env))
                    },
                }
            },
        pending_auths(*final(env)) == pending_auths(*old(env)),
{
    proof {
        law_ledger_times_are_as_returned(*env);
    }
    let now = timestamp(env);
    try_execute_risk_flag_change_at(env, bounty_id, now)
}

/// Cancels the pending change of risk flags of a bounty (admin only).
///
/// Refused with `NotInitialized` where the contract has no admin, with
/// `Unauthorized` where the caller is not the admin, and with `BountyNotFound`
/// where no change is pending.
pub fn cancel_risk_flag_proposal(env: &mut Env, admin: &Address, bounty_id: u64) -> (r: Result<
    (),
    Error,
>)
    requires
        cancel_possible(*old(env), *admin),
    ensures
        exists|now: u64|
            {
                &&& #[trigger] is_ledger_time(*old(env), now)
                &&& (host_view(*final(env)), r) == cancel_outcome(
                    host_view(*old(env)),
                    *admin,
                    bounty_id,
                    now,
                )
            },
{
    proof {
        law_ledger_times_are_as_returned(*env);
    }
    let now = timestamp(env);
    cancel_risk_flag_proposal_at(env, admin, bounty_id, now)
}

/// The risk flags of the bounty; 0 where none are set.
pub fn get_risk_flags(env: &Env, bounty_id: u64) -> (r: u32)
    requires
        host_view(*env).metadata_readable(bounty_id),
    ensures
        r == host_view(*env).flags(bounty_id),
{
    current_flags(env, bounty_id)
}

/// The risk flags of the bounty, or nothing where its metadata cannot be read.
pub fn try_get_risk_flags(env: &Env, bounty_id: u64) -> (r: Option<u32>)
    ensures
        r == (if host_view(*env).metadata_readable(bounty_id) {
            Some(host_view(*env).flags(bounty_id))
        } else {
            None
        }),
{
    if metadata_is_readable(env, bounty_id) {
        Some(get_risk_flags(env, bounty_id))
    } else {
        None
    }
}

/// Whether all the bits of `mask` are set for the bounty.
pub fn has_risk_flags(env: &Env, bounty_id: u64, mask: u32) -> (r: bool)
    requires
        host_view(*env).metadata_readable(bounty_id),
    ensures
        r == (host_view(*env).flags(bounty_id) & mask == mask),
        r == (forall|i: u32|
            i < 32 && #[trigger] has_bit(mask, i) ==> has_bit(host_view(*env).flags(bounty_id), i)),
{
    let flags = current_flags(env, bounty_id);
    proof {
        law_mask_is_every_bit(flags, mask);
    }
    flags & mask == mask
}

/// The pending proposal for the bounty, if any.
pub fn get_risk_flag_proposal(env: &Env, bounty_id: u64) -> (r: Option<RiskFlagProposal>)
    requires
        host_view(*env).proposal_readable(bounty_id),
    ensures
        r == host_view(*env).proposal(bounty_id),
{
    persistent_proposal(env, RiskFlagGovernanceKey::Proposal(bounty_id).name(), bounty_id)
}

} // verus!
