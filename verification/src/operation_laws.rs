//! The laws of the operations as they are called.
//!
//! Each law takes a call of an executable function, by what went in and what came
//! out, and says on the host's own storage when the call may be made, how it is
//! answered, and what the host holds afterwards.

use soroban_sdk::Env;
use vstd::prelude::*;

use crate::host::{
    given_auths, host_view, instance_entries, is_ledger_time, pending_auths, persistent_entries,
    published_events, EventData, PublishedEvent, StoredValue,
};
use crate::laws::law_known_is_four_bits;
use crate::reentrancy_guard;
use crate::risk_flag::{
    add_risk_flags, admin_check_is_readable, admin_is_readable, cancel_risk_flag_proposal,
    change_is_readable, check_admin, clear_risk_flags, current_flags, execute_risk_flag_change,
    get_risk_flag_proposal, get_risk_flags, has_risk_flags, make_proposal, metadata_is_readable,
    proposal_is_readable, propose_risk_flag_change, replace_flags, set_risk_flags,
    try_execute_risk_flag_change, try_get_risk_flags, validate_flags,
};
use crate::storage_laws::{
    law_access_is_answered_in_order, law_proposal_is_as_asked,
    law_what_keeps_an_operation_from_starting,
};
use crate::types::{
    Address, Error, EscrowMetadata, MetadataView, Notice, RiskFlagProposal, RiskFlagsUpdated,
};

verus! {

/// [`set_risk_flags`] is accepted exactly for the stored admin, an existing bounty
/// and flags below 16. The bounty's record then has these flags and is else as it
/// was, and one event tells the flags before and after at the ledger's time. A
/// refusal names its cause and changes nothing.
pub proof fn law_set_risk_flags(
    admin: Address,
    bounty_id: u64,
    flags: u32,
    r: Result<(), Error>,
    record: MetadataView,
)
    ensures
        forall|env: &mut Env|
            {
                &&& #[trigger] call_ensures(set_risk_flags, (env, &admin, bounty_id, flags), r)
                &&& persistent_entries(*env).contains_pair(
                    ("Metadata"@, bounty_id),
                    StoredValue::Metadata(record),
                ) || (!persistent_entries(*env).contains_key(("Metadata"@, bounty_id)) && record
                    == (MetadataView {
                    repo_id: 0,
                    issue_id: 0,
                    bounty_type: Seq::empty(),
                    risk_flags: 0,
                    notification_prefs: 0,
                    reference_hash: None,
                }))
            } ==> {
            let is_admin = instance_entries(*env).contains_pair(
                "Admin"@,
                StoredValue::Address(admin),
            );
            let bounty = persistent_entries(*env).contains_key(("Escrow"@, bounty_id))
                || persistent_entries(*env).contains_key(("EscrowAnon"@, bounty_id));
            &&& r is Ok <==> is_admin && bounty && flags < 16
            &&& r == Err::<(), Error>(Error::NotInitialized) <==> !instance_entries(
                *env,
            ).contains_key("Admin"@)
            &&& r == Err::<(), Error>(Error::BountyNotFound) <==> instance_entries(
                *env,
            ).contains_key("Admin"@) && !bounty
            &&& r == Err::<(), Error>(Error::Unauthorized) <==> instance_entries(*env).contains_key(
                "Admin"@,
            ) && bounty && !is_admin
            &&& r == Err::<(), Error>(Error::InvalidAmount) <==> is_admin && bounty && !(
            flags < 16)
            &&& r is Ok ==> exists|now: u64|
                {
                    &&& #[trigger] is_ledger_time(*env, now)
                    &&& instance_entries(*final(env)) == instance_entries(*env)
                    &&& persistent_entries(*final(env)) == persistent_entries(*env).insert(
                        ("Metadata"@, bounty_id),
                        StoredValue::Metadata(MetadataView { risk_flags: flags, ..record }),
                    )
                    &&& published_events(*final(env)) == published_events(*env).push(
                        PublishedEvent {
                            topic: "risk"@,
                            bounty_id,
                            data: EventData::Update(
                                RiskFlagsUpdated {
                                    version: 2,
                                    bounty_id,
                                    previous_flags: record.risk_flags,
                                    new_flags: flags,
                                    admin,
                                    timestamp: now,
                                },
                            ),
                        },
                    )
                    &&& given_auths(*final(env)) == given_auths(*env).insert(admin)
                }
            &&& r is Err ==> {
                &&& instance_entries(*final(env)) == instance_entries(*env)
                &&& persistent_entries(*final(env)) == persistent_entries(*env)
                &&& published_events(*final(env)) == published_events(*env)
                &&& given_auths(*final(env)) == if is_admin && bounty {
                    given_auths(*env).insert(admin)
                } else {
                    given_auths(*env)
                }
            }
        },
{
    law_known_is_four_bits(flags);
}

/// [`add_risk_flags`] is accepted exactly for the stored admin, an existing bounty
/// and flags that stay below 16 with the bits added, which the bounty then has.
pub proof fn law_add_risk_flags(
    admin: Address,
    bounty_id: u64,
    bits: u32,
    r: Result<(), Error>,
    record: MetadataView,
)
    ensures
        forall|env: &mut Env|
            {
                &&& #[trigger] call_ensures(add_risk_flags, (env, &admin, bounty_id, bits), r)
                &&& persistent_entries(*env).contains_pair(
                    ("Metadata"@, bounty_id),
                    StoredValue::Metadata(record),
                ) || (!persistent_entries(*env).contains_key(("Metadata"@, bounty_id)) && record
                    == (MetadataView {
                    repo_id: 0,
                    issue_id: 0,
                    bounty_type: Seq::empty(),
                    risk_flags: 0,
                    notification_prefs: 0,
                    reference_hash: None,
                }))
            } ==> {
            let is_admin = instance_entries(*env).contains_pair(
                "Admin"@,
                StoredValue::Address(admin),
            );
            let bounty = persistent_entries(*env).contains_key(("Escrow"@, bounty_id))
                || persistent_entries(*env).contains_key(("EscrowAnon"@, bounty_id));
            &&& r is Ok <==> is_admin && bounty && (record.risk_flags | bits) < 16
            &&& r == Err::<(), Error>(Error::NotInitialized) <==> !instance_entries(
                *env,
            ).contains_key("Admin"@)
            &&& r == Err::<(), Error>(Error::BountyNotFound) <==> instance_entries(
                *env,
            ).contains_key("Admin"@) && !bounty
            &&& r == Err::<(), Error>(Error::Unauthorized) <==> instance_entries(*env).contains_key(
                "Admin"@,
            ) && bounty && !is_admin
            &&& r == Err::<(), Error>(Error::InvalidAmount) <==> is_admin && bounty && !(
            (record.risk_flags | bits) < 16)
            &&& r is Ok ==> exists|now: u64|
                {
                    &&& #[trigger] is_ledger_time(*env, now)
                    &&& instance_entries(*final(env)) == instance_entries(*env)
                    &&& persistent_entries(*final(env)) == persistent_entries(*env).insert(
                        ("Metadata"@, bounty_id),
                        StoredValue::Metadata(
                            MetadataView { risk_flags: record.risk_flags | bits, ..record },
                        ),
                    )
                    &&& published_events(*final(env)) == published_events(*env).push(
                        PublishedEvent {
                            topic: "risk"@,
                            bounty_id,
                            data: EventData::Update(
                                RiskFlagsUpdated {
                                    version: 2,
                                    bounty_id,
                                    previous_flags: record.risk_flags,
                                    new_flags: record.risk_flags | bits,
                                    admin,
                                    timestamp: now,
                                },
                            ),
                        },
                    )
                    &&& given_auths(*final(env)) == given_auths(*env).insert(admin)
                }
            &&& r is Err ==> {
                &&& instance_entries(*final(env)) == instance_entries(*env)
                &&& persistent_entries(*final(env)) == persistent_entries(*env)
                &&& published_events(*final(env)) == published_events(*env)
                &&& given_auths(*final(env)) == if is_admin && bounty {
                    given_auths(*env).insert(admin)
                } else {
                    given_auths(*env)
                }
            }
        },
{
    let flags = record.risk_flags;
    law_known_is_four_bits(bits);
    law_known_is_four_bits(flags | bits);
    assert((flags | bits) < 16 ==> bits < 16) by (bit_vector);
}

/// [`clear_risk_flags`] is accepted exactly for the stored admin, an existing
/// bounty and bits below 16 without which the flags are below 16, and the bounty
/// then has the flags without the bits.
pub proof fn law_clear_risk_flags(
    admin: Address,
    bounty_id: u64,
    bits: u32,
    r: Result<(), Error>,
    record: MetadataView,
)
    ensures
        forall|env: &mut Env|
            {
                &&& #[trigger] call_ensures(clear_risk_flags, (env, &admin, bounty_id, bits), r)
                &&& persistent_entries(*env).contains_pair(
                    ("Metadata"@, bounty_id),
                    StoredValue::Metadata(record),
                ) || (!persistent_entries(*env).contains_key(("Metadata"@, bounty_id)) && record
                    == (MetadataView {
                    repo_id: 0,
                    issue_id: 0,
                    bounty_type: Seq::empty(),
                    risk_flags: 0,
                    notification_prefs: 0,
                    reference_hash: None,
                }))
            } ==> {
            let is_admin = instance_entries(*env).contains_pair(
                "Admin"@,
                StoredValue::Address(admin),
            );
            let bounty = persistent_entries(*env).contains_key(("Escrow"@, bounty_id))
                || persistent_entries(*env).contains_key(("EscrowAnon"@, bounty_id));
            &&& r is Ok <==> is_admin && bounty && (bits < 16 && (record.risk_flags & !bits) < 16)
            &&& r == Err::<(), Error>(Error::NotInitialized) <==> !instance_entries(
                *env,
            ).contains_key("Admin"@)
            &&& r == Err::<(), Error>(Error::BountyNotFound) <==> instance_entries(
                *env,
            ).contains_key("Admin"@) && !bounty
            &&& r == Err::<(), Error>(Error::Unauthorized) <==> instance_entries(*env).contains_key(
                "Admin"@,
            ) && bounty && !is_admin
            &&& r == Err::<(), Error>(Error::InvalidAmount) <==> is_admin && bounty && !(
            (bits < 16 && (record.risk_flags & !bits) < 16))
            &&& r is Ok ==> exists|now: u64|
                {
                    &&& #[trigger] is_ledger_time(*env, now)
                    &&& instance_entries(*final(env)) == instance_entries(*env)
                    &&& persistent_entries(*final(env)) == persistent_entries(*env).insert(
                        ("Metadata"@, bounty_id),
                        StoredValue::Metadata(
                            MetadataView { risk_flags: record.risk_flags & !bits, ..record },
                        ),
                    )
                    &&& published_events(*final(env)) == published_events(*env).push(
                        PublishedEvent {
                            topic: "risk"@,
                            bounty_id,
                            data: EventData::Update(
                                RiskFlagsUpdated {
                                    version: 2,
                                    bounty_id,
                                    previous_flags: record.risk_flags,
                                    new_flags: record.risk_flags & !bits,
                                    admin,
                                    timestamp: now,
                                },
                            ),
                        },
                    )
                    &&& given_auths(*final(env)) == given_auths(*env).insert(admin)
                }
            &&& r is Err ==> {
                &&& instance_entries(*final(env)) == instance_entries(*env)
                &&& persistent_entries(*final(env)) == persistent_entries(*env)
                &&& published_events(*final(env)) == published_events(*env)
                &&& given_auths(*final(env)) == if is_admin && bounty {
                    given_auths(*env).insert(admin)
                } else {
                    given_auths(*env)
                }
            }
        },
{
    law_known_is_four_bits(bits);
    law_known_is_four_bits(record.risk_flags & !bits);
}

/// [`propose_risk_flag_change`] is accepted exactly for the stored admin, an
/// existing bounty, a delay that is not zero and flags below 16, zero among them.
/// The proposal is then stored as made at the ledger's time and due the delay
/// later, and no flags change. A refusal names its cause and changes nothing.
pub proof fn law_propose_risk_flag_change(
    admin: Address,
    bounty_id: u64,
    flags: u32,
    delay_secs: u64,
    r: Result<(), Error>,
)
    ensures
        forall|env: &mut Env| #[trigger]
            call_ensures(
            propose_risk_flag_change,
            (env, &admin, bounty_id, flags, delay_secs),
            r,
        ) ==> {
            let is_admin = instance_entries(*env).contains_pair(
                "Admin"@,
                StoredValue::Address(admin),
            );
            let bounty = persistent_entries(*env).contains_key(("Escrow"@, bounty_id))
                || persistent_entries(*env).contains_key(("EscrowAnon"@, bounty_id));
            &&& r is Ok <==> is_admin && bounty && delay_secs > 0 && flags < 16
            &&& r == Err::<(), Error>(Error::NotInitialized) <==> !instance_entries(
                *env,
            ).contains_key("Admin"@)
            &&& r == Err::<(), Error>(Error::BountyNotFound) <==> instance_entries(
                *env,
            ).contains_key("Admin"@) && !bounty
            &&& r == Err::<(), Error>(Error::Unauthorized) <==> instance_entries(*env).contains_key(
                "Admin"@,
            ) && bounty && !is_admin
            &&& r == Err::<(), Error>(Error::InvalidDeadline) <==> is_admin && bounty && delay_secs
                == 0
            &&& r == Err::<(), Error>(Error::InvalidAmount) <==> is_admin && bounty
                && delay_secs > 0 && flags >= 16
            &&& r is Ok ==> exists|now: u64|
                {
                    let due: u64 = if now + delay_secs <= u64::MAX {
                        (now + delay_secs) as u64
                    } else {
                        u64::MAX
                    };
                    &&& #[trigger] is_ledger_time(*env, now)
                    &&& instance_entries(*final(env)) == instance_entries(*env)
                    &&& persistent_entries(*final(env)) == persistent_entries(*env).insert(
                        ("Proposal"@, bounty_id),
                        StoredValue::Proposal(
                            RiskFlagProposal {
                                proposed_flags: flags,
                                execute_after: due,
                                proposed_by: admin,
                                proposed_at: now,
                            },
                        ),
                    )
                    &&& published_events(*final(env)) == published_events(*env).push(
                        PublishedEvent {
                            topic: "rf_prop"@,
                            bounty_id,
                            data: EventData::Notice(Notice::Proposed(flags, due, admin)),
                        },
                    )
                    &&& given_auths(*final(env)) == given_auths(*env).insert(admin)
                }
            &&& r is Err ==> {
                &&& instance_entries(*final(env)) == instance_entries(*env)
                &&& persistent_entries(*final(env)) == persistent_entries(*env)
                &&& published_events(*final(env)) == published_events(*env)
                &&& given_auths(*final(env)) == if is_admin && bounty {
                    given_auths(*env).insert(admin)
                } else {
                    given_auths(*env)
                }
            }
        },
{
    law_known_is_four_bits(flags);
}

/// [`execute_risk_flag_change`], asked by anyone, compares the ledger's own time
/// with the `execute_after` of the stored proposal: from then on it gives the
/// bounty the proposed flags, uses the proposal up and reports both; before, it
/// refuses and changes nothing. Without a proposal it refuses.
pub proof fn law_execute_risk_flag_change(
    bounty_id: u64,
    r: Result<(), Error>,
    proposal: RiskFlagProposal,
    record: MetadataView,
)
    ensures
        forall|env: &mut Env|
            {
                &&& #[trigger] call_ensures(execute_risk_flag_change, (env, bounty_id), r)
                &&& persistent_entries(*env).contains_pair(
                    ("Proposal"@, bounty_id),
                    StoredValue::Proposal(proposal),
                )
                &&& persistent_entries(*env).contains_pair(
                    ("Metadata"@, bounty_id),
                    StoredValue::Metadata(record),
                ) || (!persistent_entries(*env).contains_key(("Metadata"@, bounty_id)) && record
                    == (MetadataView {
                    repo_id: 0,
                    issue_id: 0,
                    bounty_type: Seq::empty(),
                    risk_flags: 0,
                    notification_prefs: 0,
                    reference_hash: None,
                }))
            } ==> {
            exists|now: u64| #[trigger]
                is_ledger_time(*env, now) && if now < proposal.execute_after {
                    &&& r == Err::<(), Error>(Error::DeadlineNotPassed)
                    &&& host_view(*final(env)) == host_view(*env)
                } else {
                    &&& proposal.execute_after <= now
                    &&& r == Ok::<(), Error>(())
                    &&& instance_entries(*final(env)) == instance_entries(*env)
                    &&& persistent_entries(*final(env)) == persistent_entries(*env).insert(
                        ("Metadata"@, bounty_id),
                        StoredValue::Metadata(
                            MetadataView { risk_flags: proposal.proposed_flags, ..record },
                        ),
                    ).remove(("Proposal"@, bounty_id))
                    &&& published_events(*final(env)) == published_events(*env).push(
                        PublishedEvent {
                            topic: "risk"@,
                            bounty_id,
                            data: EventData::Update(
                                RiskFlagsUpdated {
                                    version: 2,
                                    bounty_id,
                                    previous_flags: record.risk_flags,
                                    new_flags: proposal.proposed_flags,
                                    admin: proposal.proposed_by,
                                    timestamp: now,
                                },
                            ),
                        },
                    ).push(
                        PublishedEvent {
                            topic: "rf_exec"@,
                            bounty_id,
                            data: EventData::Notice(
                                Notice::Executed(proposal.proposed_flags, proposal.proposed_by),
                            ),
                        },
                    )
                    &&& given_auths(*final(env)) == given_auths(*env)
                }
        },
        forall|env: &mut Env|
            {
                &&& #[trigger] call_ensures(execute_risk_flag_change, (env, bounty_id), r)
                &&& !persistent_entries(*env).contains_key(("Proposal"@, bounty_id))
            } ==> {
            &&& r == Err::<(), Error>(Error::BountyNotFound)
            &&& host_view(*final(env)) == host_view(*env)
        },
        forall|env: &mut Env| #[trigger]
            call_ensures(execute_risk_flag_change, (env, bounty_id), r) ==> pending_auths(
            *final(env),
        ) == pending_auths(*env),
{
}

/// The answer of [`execute_risk_flag_change`] follows from the ledger's time
/// alone: a proposal that is due at every time the ledger gives is carried out,
/// and one that is due at none of them is refused as too early.
pub proof fn law_due_proposals_are_executed(
    bounty_id: u64,
    r: Result<(), Error>,
    proposal: RiskFlagProposal,
)
    ensures
        forall|env: &mut Env|
            {
                &&& #[trigger] call_ensures(execute_risk_flag_change, (env, bounty_id), r)
                &&& persistent_entries(*env).contains_pair(
                    ("Proposal"@, bounty_id),
                    StoredValue::Proposal(proposal),
                )
            } ==> {
            &&& (forall|now: u64| #[trigger]
                is_ledger_time(*env, now) ==> proposal.execute_after <= now) ==> r is Ok
            &&& (forall|now: u64| #[trigger]
                is_ledger_time(*env, now) ==> now < proposal.execute_after) ==> r == Err::<
                (),
                Error,
            >(Error::DeadlineNotPassed)
        },
{
}

/// [`try_execute_risk_flag_change`] answers as [`execute_risk_flag_change`] does
/// wherever no other operation is under way and the proposal and the metadata can
/// be read. It does nothing, and answers nothing, while another operation is under
/// way, where the proposal cannot be read, and where the proposal is due and the
/// metadata cannot be read.
pub proof fn law_try_execute_risk_flag_change(
    bounty_id: u64,
    r: Option<Result<(), Error>>,
    proposal: RiskFlagProposal,
    record: MetadataView,
)
    ensures
        forall|env: &mut Env|
            {
                &&& #[trigger] call_ensures(try_execute_risk_flag_change, (env, bounty_id), r)
                &&& !instance_entries(*env).contains_key("ReentrancyGuard"@)
                &&& persistent_entries(*env).contains_pair(
                    ("Proposal"@, bounty_id),
                    StoredValue::Proposal(proposal),
                )
                &&& persistent_entries(*env).contains_pair(
                    ("Metadata"@, bounty_id),
                    StoredValue::Metadata(record),
                ) || (!persistent_entries(*env).contains_key(("Metadata"@, bounty_id)) && record
                    == (MetadataView {
                    repo_id: 0,
                    issue_id: 0,
                    bounty_type: Seq::empty(),
                    risk_flags: 0,
                    notification_prefs: 0,
                    reference_hash: None,
                }))
            } ==> (r is Some && {
            exists|now: u64| #[trigger]
                is_ledger_time(*env, now) && if now < proposal.execute_after {
                    &&& r.unwrap() == Err::<(), Error>(Error::DeadlineNotPassed)
                    &&& host_view(*final(env)) == host_view(*env)
                } else {
                    &&& proposal.execute_after <= now
                    &&& r.unwrap() == Ok::<(), Error>(())
                    &&& instance_entries(*final(env)) == instance_entries(*env)
                    &&& persistent_entries(*final(env)) == persistent_entries(*env).insert(
                        ("Metadata"@, bounty_id),
                        StoredValue::Metadata(
                            MetadataView { risk_flags: proposal.proposed_flags, ..record },
                        ),
                    ).remove(("Proposal"@, bounty_id))
                    &&& published_events(*final(env)) == published_events(*env).push(
                        PublishedEvent {
                            topic: "risk"@,
                            bounty_id,
                            data: EventData::Update(
                                RiskFlagsUpdated {
                                    version: 2,
                                    bounty_id,
                                    previous_flags: record.risk_flags,
                                    new_flags: proposal.proposed_flags,
                                    admin: proposal.proposed_by,
                                    timestamp: now,
                                },
                            ),
                        },
                    ).push(
                        PublishedEvent {
                            topic: "rf_exec"@,
                            bounty_id,
                            data: EventData::Notice(
                                Notice::Executed(proposal.proposed_flags, proposal.proposed_by),
                            ),
                        },
                    )
                    &&& given_auths(*final(env)) == given_auths(*env)
                }
        }),
        forall|env: &mut Env|
            {
                &&& #[trigger] call_ensures(try_execute_risk_flag_change, (env, bounty_id), r)
                &&& !instance_entries(*env).contains_key("ReentrancyGuard"@)
                &&& !persistent_entries(*env).contains_key(("Proposal"@, bounty_id))
            } ==> {
            &&& r == Some(Err::<(), Error>(Error::BountyNotFound))
            &&& host_view(*final(env)) == host_view(*env)
        },
        forall|env: &mut Env|
            {
                &&& #[trigger] call_ensures(try_execute_risk_flag_change, (env, bounty_id), r)
                &&& !instance_entries(*env).contains_key("ReentrancyGuard"@)
                &&& persistent_entries(*env).contains_pair(
                    ("Proposal"@, bounty_id),
                    StoredValue::Proposal(proposal),
                )
                &&& persistent_entries(*env).contains_key(("Metadata"@, bounty_id))
                &&& !(persistent_entries(*env)[("Metadata"@, bounty_id)] is Metadata)
            } ==> (exists|now: u64| #[trigger]
            is_ledger_time(*env, now) && r == if now < proposal.execute_after {
                Some(Err::<(), Error>(Error::DeadlineNotPassed))
            } else {
                None
            }),
        forall|env: &mut Env|
            {
                &&& #[trigger] call_ensures(try_execute_risk_flag_change, (env, bounty_id), r)
                &&& persistent_entries(*env).contains_key(("Proposal"@, bounty_id))
                &&& !(persistent_entries(*env)[("Proposal"@, bounty_id)] is Proposal)
            } ==> r is None,
        forall|env: &mut Env|
            {
                &&& #[trigger] call_ensures(try_execute_risk_flag_change, (env, bounty_id), r)
                &&& instance_entries(*env).contains_key("ReentrancyGuard"@)
            } ==> r is None,
        forall|env: &mut Env| #[trigger]
            call_ensures(try_execute_risk_flag_change, (env, bounty_id), r) && r is None
                ==> host_view(*final(env)) == host_view(*env),
        forall|env: &mut Env| #[trigger]
            call_ensures(try_execute_risk_flag_change, (env, bounty_id), r) ==> pending_auths(
            *final(env),
        ) == pending_auths(*env),
{
}

/// [`cancel_risk_flag_proposal`] is accepted exactly for the stored admin where a
/// proposal is stored, which is then gone. A refusal names its cause and changes
/// nothing.
pub proof fn law_cancel_risk_flag_proposal(
    admin: Address,
    bounty_id: u64,
    r: Result<(), Error>,
)
    ensures
        forall|env: &mut Env| #[trigger]
            call_ensures(cancel_risk_flag_proposal, (env, &admin, bounty_id), r) ==> {
            let is_admin = instance_entries(*env).contains_pair(
                "Admin"@,
                StoredValue::Address(admin),
            );
            let pending = persistent_entries(*env).contains_key(("Proposal"@, bounty_id));
            &&& r is Ok <==> is_admin && pending
            &&& r == Err::<(), Error>(Error::NotInitialized) <==> !instance_entries(
                *env,
            ).contains_key("Admin"@)
            &&& r == Err::<(), Error>(Error::Unauthorized) <==> instance_entries(*env).contains_key(
                "Admin"@,
            ) && !is_admin
            &&& r == Err::<(), Error>(Error::BountyNotFound) <==> is_admin && !pending
            &&& r is Ok ==> exists|now: u64|
                {
                    &&& #[trigger] is_ledger_time(*env, now)
                    &&& instance_entries(*final(env)) == instance_entries(*env)
                    &&& persistent_entries(*final(env)) == persistent_entries(*env).remove(
                        ("Proposal"@, bounty_id),
                    )
                    &&& published_events(*final(env)) == published_events(*env).push(
                        PublishedEvent {
                            topic: "rf_canc"@,
                            bounty_id,
                            data: EventData::Notice(Notice::Cancelled(admin, now)),
                        },
                    )
                    &&& given_auths(*final(env)) == given_auths(*env).insert(admin)
                }
            &&& r is Err ==> {
                &&& instance_entries(*final(env)) == instance_entries(*env)
                &&& persistent_entries(*final(env)) == persistent_entries(*env)
                &&& published_events(*final(env)) == published_events(*env)
                &&& given_auths(*final(env)) == if is_admin {
                    given_auths(*env).insert(admin)
                } else {
                    given_auths(*env)
                }
            }
        },
{
}

/// An operation may be called unless another is under way, an authorization that
/// it asks for is missing, or a slot that it reads holds something foreign.
pub proof fn law_when_operations_may_be_called(
    admin: Address,
    bounty_id: u64,
    flags: u32,
    delay_secs: u64,
)
    ensures
        forall|env: &mut Env|
            #![trigger host_view(*env)]
            {
                let is_admin = instance_entries(*env).contains_pair(
                    "Admin"@,
                    StoredValue::Address(admin),
                );
                let admin_fits = instance_entries(*env).contains_key("Admin"@)
                    ==> instance_entries(*env)["Admin"@] is Address;
                let bounty = persistent_entries(*env).contains_key(("Escrow"@, bounty_id))
                    || persistent_entries(*env).contains_key(("EscrowAnon"@, bounty_id));
                let metadata_fits = persistent_entries(*env).contains_key(("Metadata"@, bounty_id))
                    ==> persistent_entries(*env)[("Metadata"@, bounty_id)] is Metadata;
                let proposal_fits = persistent_entries(*env).contains_key(("Proposal"@, bounty_id))
                    ==> persistent_entries(*env)[("Proposal"@, bounty_id)] is Proposal;
                let authorized = pending_auths(*env).contains(admin);
                !instance_entries(*env).contains_key("ReentrancyGuard"@) ==> {
                    &&& (bounty ==> admin_fits) && (is_admin && bounty ==> authorized) ==> {
                        &&& call_requires(
                            propose_risk_flag_change,
                            (env, &admin, bounty_id, flags, delay_secs),
                        )
                        &&& (is_admin && bounty && flags < 16 ==> metadata_fits) ==> {
                            &&& call_requires(set_risk_flags, (env, &admin, bounty_id, flags))
                            &&& call_requires(add_risk_flags, (env, &admin, bounty_id, flags))
                            &&& call_requires(clear_risk_flags, (env, &admin, bounty_id, flags))
                        }
                    }
                    &&& admin_fits && (is_admin ==> authorized) ==> call_requires(
                        cancel_risk_flag_proposal,
                        (env, &admin, bounty_id),
                    )
                    &&& proposal_fits && metadata_fits ==> call_requires(
                        execute_risk_flag_change,
                        (env, bounty_id),
                    )
                }
            },
        forall|env: &mut Env|
            #![trigger host_view(*env)]
            call_requires(try_execute_risk_flag_change, (env, bounty_id)),
{
    law_known_is_four_bits(flags);
}

/// The reading functions return what storage holds for the bounty: the flags of
/// its record whatever else the record says, whether they hold every bit of the
/// mask, and the flags as they are tried.
pub proof fn law_reads_return_what_is_stored(
    env: Env,
    bounty_id: u64,
    mask: u32,
    record: MetadataView,
    flags: u32,
    held: bool,
    tried: Option<u32>,
)
    requires
        persistent_entries(env).contains_pair(
            ("Metadata"@, bounty_id),
            StoredValue::Metadata(record),
        ) || (!persistent_entries(env).contains_key(("Metadata"@, bounty_id)) && record.risk_flags
            == 0),
    ensures
        call_requires(get_risk_flags, (&env, bounty_id)),
        call_requires(current_flags, (&env, bounty_id)),
        call_requires(has_risk_flags, (&env, bounty_id, mask)),
        call_requires(try_get_risk_flags, (&env, bounty_id)),
        call_ensures(get_risk_flags, (&env, bounty_id), flags) ==> flags == record.risk_flags,
        call_ensures(current_flags, (&env, bounty_id), flags) ==> flags == record.risk_flags,
        call_ensures(has_risk_flags, (&env, bounty_id, mask), held) ==> held == (record.risk_flags
            & mask == mask),
        call_ensures(try_get_risk_flags, (&env, bounty_id), tried) ==> tried == Some(
            record.risk_flags,
        ),
{
}

/// [`get_risk_flag_proposal`] returns the proposal that storage holds for the
/// bounty, and none exactly where it holds none.
pub proof fn law_proposal_is_returned_as_stored(
    env: Env,
    bounty_id: u64,
    proposal: RiskFlagProposal,
    r: Option<RiskFlagProposal>,
)
    ensures
        persistent_entries(env).contains_pair(
            ("Proposal"@, bounty_id),
            StoredValue::Proposal(proposal),
        ) ==> {
            &&& call_requires(get_risk_flag_proposal, (&env, bounty_id))
            &&& call_ensures(get_risk_flag_proposal, (&env, bounty_id), r) ==> r == Some(proposal)
        },
        !persistent_entries(env).contains_key(("Proposal"@, bounty_id)) ==> {
            &&& call_requires(get_risk_flag_proposal, (&env, bounty_id))
            &&& call_ensures(get_risk_flag_proposal, (&env, bounty_id), r) ==> r is None
        },
{
}

/// The tests of the slots tell exactly whether a slot that is read holds
/// something foreign, and that of the guard whether it is stored.
pub proof fn law_slots_are_told_apart(
    env: Env,
    admin: Address,
    bounty_id: u64,
    flags: u32,
    r: bool,
)
    ensures
        ({
            let admin_fits = instance_entries(env).contains_key("Admin"@) ==> instance_entries(
                env,
            )["Admin"@] is Address;
            let is_admin = instance_entries(env).contains_pair(
                "Admin"@,
                StoredValue::Address(admin),
            );
            let bounty = persistent_entries(env).contains_key(("Escrow"@, bounty_id))
                || persistent_entries(env).contains_key(("EscrowAnon"@, bounty_id));
            let metadata_fits = persistent_entries(env).contains_key(("Metadata"@, bounty_id))
                ==> persistent_entries(env)[("Metadata"@, bounty_id)] is Metadata;
            let proposal_fits = persistent_entries(env).contains_key(("Proposal"@, bounty_id))
                ==> persistent_entries(env)[("Proposal"@, bounty_id)] is Proposal;
            &&& call_ensures(admin_is_readable, (&env,), r) ==> r == admin_fits
            &&& call_ensures(metadata_is_readable, (&env, bounty_id), r) ==> r == metadata_fits
            &&& call_ensures(proposal_is_readable, (&env, bounty_id), r) ==> r == proposal_fits
            &&& call_ensures(admin_check_is_readable, (&env, bounty_id), r) ==> r == (bounty
                ==> admin_fits)
            &&& call_ensures(change_is_readable, (&env, &admin, bounty_id, flags), r) ==> r == ((
            bounty ==> admin_fits) && (is_admin && bounty && flags < 16 ==> metadata_fits))
            &&& call_ensures(reentrancy_guard::is_held, (&env,), r)
                ==> r == instance_entries(env).contains_key("ReentrancyGuard"@)
        }),
{
    law_what_keeps_an_operation_from_starting(env, admin, bounty_id, flags, 0);
}

/// Taking the guard stores it and freeing it empties its slot; neither changes
/// anything else.
pub proof fn law_guard_is_stored_and_emptied(r: ())
    ensures
        forall|env: &mut Env| #[trigger]
            call_ensures(reentrancy_guard::acquire, (env,), r) ==> {
            &&& instance_entries(*final(env)) == instance_entries(*env).insert(
                "ReentrancyGuard"@,
                StoredValue::Flag(true),
            )
            &&& persistent_entries(*final(env)) == persistent_entries(*env)
            &&& published_events(*final(env)) == published_events(*env)
            &&& given_auths(*final(env)) == given_auths(*env)
            &&& pending_auths(*final(env)) == pending_auths(*env)
        },
        forall|env: &mut Env| #[trigger]
            call_ensures(reentrancy_guard::release, (env,), r) ==> {
            &&& instance_entries(*final(env)) == instance_entries(*env).remove("ReentrancyGuard"@)
            &&& persistent_entries(*final(env)) == persistent_entries(*env)
            &&& published_events(*final(env)) == published_events(*env)
            &&& given_auths(*final(env)) == given_auths(*env)
            &&& pending_auths(*final(env)) == pending_auths(*env)
        },
{
}

/// [`validate_flags`] accepts exactly the numbers below 16.
pub proof fn law_validate_flags(flags: u32, r: Result<(), Error>)
    requires
        call_ensures(validate_flags, (flags,), r),
    ensures
        r is Ok <==> flags < 16,
        r == Err::<(), Error>(Error::InvalidAmount) <==> flags >= 16,
{
    law_known_is_four_bits(flags);
}

/// [`check_admin`] lets exactly the stored admin of an existing bounty through,
/// and else names the first thing that is missing.
pub proof fn law_check_admin(
    initialized: bool,
    bounty_exists: bool,
    stored: Option<Address>,
    admin: Address,
    r: Result<(), Error>,
)
    requires
        call_ensures(check_admin, (initialized, bounty_exists, stored, &admin), r),
    ensures
        r is Ok <==> initialized && bounty_exists && stored == Some(admin),
        r == Err::<(), Error>(Error::NotInitialized) <==> !initialized,
        r == Err::<(), Error>(Error::BountyNotFound) <==> initialized && !bounty_exists,
        r == Err::<(), Error>(Error::Unauthorized) <==> initialized && bounty_exists && stored
            != Some(admin),
{
    law_access_is_answered_in_order(initialized, bounty_exists, stored, admin);
}

/// [`make_proposal`] makes a proposal of any flags below 16 with any delay but
/// zero, due the delay after `now` or at the end of time.
pub proof fn law_make_proposal(
    admin: Address,
    flags: u32,
    delay_secs: u64,
    now: u64,
    r: Result<RiskFlagProposal, Error>,
)
    requires
        call_ensures(make_proposal, (&admin, flags, delay_secs, now), r),
    ensures
        r is Ok <==> delay_secs > 0 && flags < 16,
        r == Err::<RiskFlagProposal, Error>(Error::InvalidDeadline) <==> delay_secs == 0,
        r == Err::<RiskFlagProposal, Error>(Error::InvalidAmount) <==> delay_secs > 0 && flags
            >= 16,
        r matches Ok(proposal) ==> {
            &&& proposal.proposed_flags == flags
            &&& proposal.proposed_by == admin
            &&& proposal.proposed_at == now
            &&& now + delay_secs <= u64::MAX ==> proposal.execute_after == now + delay_secs
            &&& now + delay_secs > u64::MAX ==> proposal.execute_after == u64::MAX
        },
{
    law_proposal_is_as_asked(admin, flags, delay_secs, now);
}

/// [`replace_flags`] changes the flags of a record and keeps its other fields;
/// where there is none, the other fields are zero or empty.
pub proof fn law_replace_flags(
    record: Option<EscrowMetadata>,
    flags: u32,
    r: EscrowMetadata,
)
    requires
        call_ensures(replace_flags, (record, flags), r),
    ensures
        r.risk_flags == flags,
        record matches Some(found) ==> {
            &&& r.repo_id == found.repo_id
            &&& r.issue_id == found.issue_id
            &&& r.bounty_type@ == found.bounty_type@
            &&& r.notification_prefs == found.notification_prefs
            &&& r.reference_hash is Some <==> found.reference_hash is Some
            &&& r.reference_hash is Some ==> r.reference_hash.unwrap()@
                == found.reference_hash.unwrap()@
        },
        record is None ==> {
            &&& r.repo_id == 0
            &&& r.issue_id == 0
            &&& r.bounty_type@.len() == 0
            &&& r.notification_prefs == 0
            &&& r.reference_hash is None
        },
{
}

} // verus!
