//! The laws of the operations on what storage holds.
//!
//! Here nothing goes through the accessors of [`crate::model`]: a slot is its
//! name and its bounty, flags are numbers, and an event is its fields. So these
//! laws say what the accessors and the outcomes come to.

use soroban_sdk::Env;
use vstd::prelude::*;

use crate::host::{
    given_auths, host_view, instance_entries, pending_auths, persistent_entries, published_events,
    EventData, HostView, PublishedEvent, StoredValue,
};
use crate::laws::law_known_is_four_bits;
use crate::model::{
    add_outcome, admin_access, admin_check_readable, bounty_access, cancel_access, cancel_outcome,
    change_readable, clear_outcome, execute_outcome, execution_possible, proposal_for,
    propose_outcome, set_outcome,
};
use crate::risk_flag::{admin_call_possible, cancel_possible};
use crate::types::{
    Address, DataKey, Error, EscrowMetadata, MetadataView, Notice, RiskFlagGovernanceKey,
    RiskFlagProposal, RiskFlagsUpdated,
};

verus! {

/// The state that the operations speak of is what the host holds, with nothing
/// added and nothing left out.
pub proof fn law_state_is_what_the_host_holds(env: Env)
    ensures
        host_view(env).instance == instance_entries(env),
        host_view(env).persistent == persistent_entries(env),
        host_view(env).events == published_events(env),
        host_view(env).auths == given_auths(env),
{
}

/// Each key is stored under its own name, whatever its bounty.
pub proof fn law_keys_have_their_names(bounty_id: u64)
    ensures
        DataKey::Admin.spec_name() == "Admin"@,
        DataKey::ReentrancyGuard.spec_name() == "ReentrancyGuard"@,
        DataKey::Escrow(bounty_id).spec_name() == "Escrow"@,
        DataKey::EscrowAnon(bounty_id).spec_name() == "EscrowAnon"@,
        DataKey::Metadata(bounty_id).spec_name() == "Metadata"@,
        RiskFlagGovernanceKey::Proposal(bounty_id).spec_name() == "Proposal"@,
{
}

/// What a record stands for has each of its fields, and a record that stands in
/// for a missing one has them all zero or empty.
pub proof fn law_record_is_seen_whole(record: EscrowMetadata)
    ensures
        record@.repo_id == record.repo_id,
        record@.issue_id == record.issue_id,
        record@.bounty_type == record.bounty_type@,
        record@.risk_flags == record.risk_flags,
        record@.notification_prefs == record.notification_prefs,
        record@.reference_hash is Some <==> record.reference_hash is Some,
        record.reference_hash matches Some(hash) ==> record@.reference_hash == Some(hash@),
        MetadataView::minimal().repo_id == 0,
        MetadataView::minimal().issue_id == 0,
        MetadataView::minimal().bounty_type.len() == 0,
        MetadataView::minimal().risk_flags == 0,
        MetadataView::minimal().notification_prefs == 0,
        MetadataView::minimal().reference_hash is None,
{
}

/// The admin is the address that instance storage holds under `Admin`, of
/// whatever kind, and there is none where it holds no address there.
pub proof fn law_admin_is_the_stored_address(host: HostView, admin: Address)
    ensures
        host.initialized() <==> host.instance.contains_key("Admin"@),
        host.admin() == Some(admin) <==> host.instance.contains_pair(
            "Admin"@,
            StoredValue::Address(admin),
        ),
        host.admin() is None <==> !(host.instance.contains_key("Admin"@)
            && host.instance["Admin"@] is Address),
{
}

/// An operation is under way exactly while instance storage holds the guard.
pub proof fn law_guard_is_the_stored_one(host: HostView)
    ensures
        host.guarded() <==> host.instance.contains_key("ReentrancyGuard"@),
{
}

/// A bounty exists exactly when storage holds an escrow, with a named or an
/// anonymous depositor, under the bounty's own id.
pub proof fn law_bounty_exists_under_its_own_id(host: HostView, bounty_id: u64)
    ensures
        host.bounty_exists(bounty_id) <==> host.persistent.contains_key(("Escrow"@, bounty_id))
            || host.persistent.contains_key(("EscrowAnon"@, bounty_id)),
{
}

/// The metadata and the flags of a bounty are those of the record that storage
/// holds under the bounty's own id, whatever the record says.
pub proof fn law_flags_are_those_of_the_stored_record(
    env: Env,
    bounty_id: u64,
    record: MetadataView,
)
    requires
        persistent_entries(env).contains_pair(
            ("Metadata"@, bounty_id),
            StoredValue::Metadata(record),
        ),
    ensures
        host_view(env).metadata(bounty_id) == record,
        host_view(env).flags(bounty_id) == record.risk_flags,
{
}

/// A bounty for which storage holds no metadata has no flags, and an empty record.
pub proof fn law_no_record_is_no_flags(env: Env, bounty_id: u64)
    requires
        !persistent_entries(env).contains_key(("Metadata"@, bounty_id)),
    ensures
        host_view(env).flags(bounty_id) == 0,
        host_view(env).metadata(bounty_id) == (MetadataView {
            repo_id: 0,
            issue_id: 0,
            bounty_type: Seq::empty(),
            risk_flags: 0,
            notification_prefs: 0,
            reference_hash: None,
        }),
{
}

/// The pending proposal of a bounty is the one that storage holds under the
/// bounty's own id, whatever it says, and there is none where it holds none.
pub proof fn law_proposal_is_the_stored_one(env: Env, bounty_id: u64, proposal: RiskFlagProposal)
    ensures
        host_view(env).proposal(bounty_id) == Some(proposal) <==> persistent_entries(
            env,
        ).contains_pair(("Proposal"@, bounty_id), StoredValue::Proposal(proposal)),
        host_view(env).proposal(bounty_id) is None <==> !(persistent_entries(env).contains_key(
            ("Proposal"@, bounty_id),
        ) && persistent_entries(env)[("Proposal"@, bounty_id)] is Proposal),
{
}

/// A slot can be read where it is empty or holds a value of its own kind.
pub proof fn law_slots_of_their_kind_can_be_read(host: HostView, bounty_id: u64)
    ensures
        host.admin_readable() <==> (host.instance.contains_key("Admin"@)
            ==> host.instance["Admin"@] is Address),
        host.metadata_readable(bounty_id) <==> (host.persistent.contains_key(
            ("Metadata"@, bounty_id),
        ) ==> host.persistent[("Metadata"@, bounty_id)] is Metadata),
        host.proposal_readable(bounty_id) <==> (host.persistent.contains_key(
            ("Proposal"@, bounty_id),
        ) ==> host.persistent[("Proposal"@, bounty_id)] is Proposal),
{
}

/// An operation can start unless another is under way, an authorization that it
/// needs is missing, or a slot that it reads holds something foreign. Nothing else
/// keeps it from starting.
pub proof fn law_what_keeps_an_operation_from_starting(
    env: Env,
    admin: Address,
    bounty_id: u64,
    flags: u32,
    now: u64,
)
    ensures
        ({
            let host = host_view(env);
            let guard_free = !instance_entries(env).contains_key("ReentrancyGuard"@);
            let is_admin = instance_entries(env).contains_pair(
                "Admin"@,
                StoredValue::Address(admin),
            );
            let admin_fits = instance_entries(env).contains_key("Admin"@) ==> instance_entries(
                env,
            )["Admin"@] is Address;
            let bounty = persistent_entries(env).contains_key(("Escrow"@, bounty_id))
                || persistent_entries(env).contains_key(("EscrowAnon"@, bounty_id));
            let metadata_fits = persistent_entries(env).contains_key(("Metadata"@, bounty_id))
                ==> persistent_entries(env)[("Metadata"@, bounty_id)] is Metadata;
            let proposal_fits = persistent_entries(env).contains_key(("Proposal"@, bounty_id))
                ==> persistent_entries(env)[("Proposal"@, bounty_id)] is Proposal;
            let authorized = pending_auths(env).contains(admin);
            &&& guard_free && (bounty ==> admin_fits) && (is_admin && bounty ==> authorized)
                <==> admin_call_possible(env, admin, bounty_id)
            &&& guard_free && admin_fits && (is_admin ==> authorized) <==> cancel_possible(
                env,
                admin,
            )
            &&& (bounty ==> admin_fits) <==> admin_check_readable(host, bounty_id)
            &&& (bounty ==> admin_fits) && (is_admin && bounty && flags < 16 ==> metadata_fits)
                <==> change_readable(host, admin, bounty_id, flags)
            &&& guard_free && proposal_fits && (forall|proposal: RiskFlagProposal|
                #[trigger] persistent_entries(env).contains_pair(
                    ("Proposal"@, bounty_id),
                    StoredValue::Proposal(proposal),
                ) && proposal.execute_after <= now ==> metadata_fits) <==> execution_possible(
                host,
                bounty_id,
                now,
            )
        }),
{
    law_known_is_four_bits(flags);
    let host = host_view(env);
    let slot = ("Proposal"@, bounty_id);
    if host.proposal(bounty_id) is Some {
        assert(persistent_entries(env).contains_pair(
            slot,
            StoredValue::Proposal(host.proposal(bounty_id).unwrap()),
        ));
    }
}

/// Who may act is asked in this order: whether there is an admin, whether the
/// bounty exists, and whether the caller is the admin. The admin of an existing
/// bounty is always let through.
pub proof fn law_access_is_answered_in_order(
    initialized: bool,
    bounty_exists: bool,
    stored: Option<Address>,
    admin: Address,
)
    ensures
        ({
            let answer = admin_access(initialized, bounty_exists, stored, admin);
            &&& answer is Ok <==> initialized && bounty_exists && stored == Some(admin)
            &&& answer == Err::<(), Error>(Error::NotInitialized) <==> !initialized
            &&& answer == Err::<(), Error>(Error::BountyNotFound) <==> initialized
                && !bounty_exists
            &&& answer == Err::<(), Error>(Error::Unauthorized) <==> initialized && bounty_exists
                && stored != Some(admin)
        }),
{
}

/// Access goes by the stored admin and the bounty's own escrow, and for a
/// cancellation by the admin alone.
pub proof fn law_access_goes_by_storage(host: HostView, admin: Address, bounty_id: u64)
    ensures
        ({
            let is_admin = host.instance.contains_pair("Admin"@, StoredValue::Address(admin));
            let bounty = host.persistent.contains_key(("Escrow"@, bounty_id))
                || host.persistent.contains_key(("EscrowAnon"@, bounty_id));
            &&& bounty_access(host, admin, bounty_id) is Ok <==> is_admin && bounty
            &&& cancel_access(host, admin) is Ok <==> is_admin
        }),
{
}

/// A proposal is made for every delay but zero and for all known flags, none
/// among them. It holds the flags, the admin and the time as given, and is due
/// when the delay has passed, or at the end of time where that comes first.
pub proof fn law_proposal_is_as_asked(admin: Address, flags: u32, delay_secs: u64, now: u64)
    ensures
        ({
            let answer = proposal_for(admin, flags, delay_secs, now);
            &&& answer is Ok <==> delay_secs > 0 && flags < 16
            &&& answer == Err::<RiskFlagProposal, Error>(Error::InvalidDeadline) <==> delay_secs
                == 0
            &&& answer == Err::<RiskFlagProposal, Error>(Error::InvalidAmount) <==> delay_secs > 0
                && flags >= 16
            &&& answer matches Ok(proposal) ==> {
                &&& proposal.proposed_flags == flags
                &&& proposal.proposed_by == admin
                &&& proposal.proposed_at == now
                &&& now + delay_secs <= u64::MAX ==> proposal.execute_after == now + delay_secs
                &&& now + delay_secs > u64::MAX ==> proposal.execute_after == u64::MAX
            }
        }),
{
    law_known_is_four_bits(flags);
}

/// Setting is accepted exactly when the stored admin asks for it, the bounty
/// exists under its own id and the flags are below 16; each refusal comes exactly
/// where it should.
pub proof fn law_set_is_answered(
    host: HostView,
    admin: Address,
    bounty_id: u64,
    flags: u32,
    now: u64,
)
    ensures
        ({
            let is_admin = host.instance.contains_pair("Admin"@, StoredValue::Address(admin));
            let bounty = host.persistent.contains_key(("Escrow"@, bounty_id))
                || host.persistent.contains_key(("EscrowAnon"@, bounty_id));
            let answer = set_outcome(host, admin, bounty_id, flags, now).1;
            &&& answer is Ok <==> is_admin && bounty && flags < 16
            &&& answer == Err::<(), Error>(Error::NotInitialized) <==> !host.instance.contains_key(
                "Admin"@,
            )
            &&& answer == Err::<(), Error>(Error::BountyNotFound) <==> host.instance.contains_key(
                "Admin"@,
            ) && !bounty
            &&& answer == Err::<(), Error>(Error::Unauthorized) <==> host.instance.contains_key(
                "Admin"@,
            ) && bounty && !is_admin
            &&& answer == Err::<(), Error>(Error::InvalidAmount) <==> is_admin && bounty && !(
            flags < 16)
        }),
{
    law_known_is_four_bits(flags);
}

/// Adding is accepted exactly when the stored admin asks for it, the bounty
/// exists under its own id and the flags with the bits added are below 16; each
/// refusal comes exactly where it should.
pub proof fn law_add_is_answered(
    host: HostView,
    admin: Address,
    bounty_id: u64,
    bits: u32,
    now: u64,
    record: MetadataView,
)
    requires
        host.persistent.contains_pair(("Metadata"@, bounty_id), StoredValue::Metadata(record)) || (
        !host.persistent.contains_key(("Metadata"@, bounty_id)) && record == (MetadataView {
            repo_id: 0,
            issue_id: 0,
            bounty_type: Seq::empty(),
            risk_flags: 0,
            notification_prefs: 0,
            reference_hash: None,
        })),
    ensures
        ({
            let is_admin = host.instance.contains_pair("Admin"@, StoredValue::Address(admin));
            let bounty = host.persistent.contains_key(("Escrow"@, bounty_id))
                || host.persistent.contains_key(("EscrowAnon"@, bounty_id));
            let answer = add_outcome(host, admin, bounty_id, bits, now).1;
            &&& answer is Ok <==> is_admin && bounty && (record.risk_flags | bits) < 16
            &&& answer == Err::<(), Error>(Error::NotInitialized) <==> !host.instance.contains_key(
                "Admin"@,
            )
            &&& answer == Err::<(), Error>(Error::BountyNotFound) <==> host.instance.contains_key(
                "Admin"@,
            ) && !bounty
            &&& answer == Err::<(), Error>(Error::Unauthorized) <==> host.instance.contains_key(
                "Admin"@,
            ) && bounty && !is_admin
            &&& answer == Err::<(), Error>(Error::InvalidAmount) <==> is_admin && bounty && !(
            (record.risk_flags | bits) < 16)
        }),
{
    let flags = record.risk_flags;
    law_known_is_four_bits(bits);
    law_known_is_four_bits(flags | bits);
    assert((flags | bits) < 16 ==> bits < 16) by (bit_vector);
}

/// Clearing is accepted exactly when the stored admin asks for it, the bounty
/// exists under its own id, and both the bits and the flags without them are
/// below 16; each refusal comes exactly where it should.
pub proof fn law_clear_is_answered(
    host: HostView,
    admin: Address,
    bounty_id: u64,
    bits: u32,
    now: u64,
    record: MetadataView,
)
    requires
        host.persistent.contains_pair(("Metadata"@, bounty_id), StoredValue::Metadata(record)) || (
        !host.persistent.contains_key(("Metadata"@, bounty_id)) && record == (MetadataView {
            repo_id: 0,
            issue_id: 0,
            bounty_type: Seq::empty(),
            risk_flags: 0,
            notification_prefs: 0,
            reference_hash: None,
        })),
    ensures
        ({
            let is_admin = host.instance.contains_pair("Admin"@, StoredValue::Address(admin));
            let bounty = host.persistent.contains_key(("Escrow"@, bounty_id))
                || host.persistent.contains_key(("EscrowAnon"@, bounty_id));
            let answer = clear_outcome(host, admin, bounty_id, bits, now).1;
            &&& answer is Ok <==> is_admin && bounty && (bits < 16 && (record.risk_flags
                & !bits) < 16)
            &&& answer == Err::<(), Error>(Error::NotInitialized) <==> !host.instance.contains_key(
                "Admin"@,
            )
            &&& answer == Err::<(), Error>(Error::BountyNotFound) <==> host.instance.contains_key(
                "Admin"@,
            ) && !bounty
            &&& answer == Err::<(), Error>(Error::Unauthorized) <==> host.instance.contains_key(
                "Admin"@,
            ) && bounty && !is_admin
            &&& answer == Err::<(), Error>(Error::InvalidAmount) <==> is_admin && bounty && !(
            (bits < 16 && (record.risk_flags & !bits) < 16))
        }),
{
    law_known_is_four_bits(bits);
    law_known_is_four_bits(record.risk_flags & !bits);
}

/// An accepted set puts exactly the given flags in the bounty's record, which is
/// else as it was, publishes one event with the flags before and after, the admin
/// and the time, and has asked the admin for an authorization.
pub proof fn law_set_writes(
    host: HostView,
    admin: Address,
    bounty_id: u64,
    flags: u32,
    now: u64,
    record: MetadataView,
)
    requires
        host.persistent.contains_pair(("Metadata"@, bounty_id), StoredValue::Metadata(record)) || (
        !host.persistent.contains_key(("Metadata"@, bounty_id)) && record == (MetadataView {
            repo_id: 0,
            issue_id: 0,
            bounty_type: Seq::empty(),
            risk_flags: 0,
            notification_prefs: 0,
            reference_hash: None,
        })),
        set_outcome(host, admin, bounty_id, flags, now).1 is Ok,
    ensures
        set_outcome(host, admin, bounty_id, flags, now).0 == (HostView {
            instance: host.instance,
            persistent: host.persistent.insert(
                ("Metadata"@, bounty_id),
                StoredValue::Metadata(
                    MetadataView {
                        repo_id: record.repo_id,
                        issue_id: record.issue_id,
                        bounty_type: record.bounty_type,
                        risk_flags: flags,
                        notification_prefs: record.notification_prefs,
                        reference_hash: record.reference_hash,
                    },
                ),
            ),
            events: host.events.push(
                PublishedEvent {
                    topic: "risk"@,
                    bounty_id,
                    data: EventData::Update(
                        RiskFlagsUpdated {
                            version: 2,
                            bounty_id,
                            previous_flags: record.risk_flags,
                            new_flags: flags,
                            admin,
                            timestamp: now,
                        },
                    ),
                },
            ),
            auths: host.auths.insert(admin),
        }),
{
}

/// An accepted add puts the flags with the bits added in the bounty's record, with
/// the rest as for a set.
pub proof fn law_add_writes(
    host: HostView,
    admin: Address,
    bounty_id: u64,
    bits: u32,
    now: u64,
    record: MetadataView,
)
    requires
        host.persistent.contains_pair(("Metadata"@, bounty_id), StoredValue::Metadata(record)) || (
        !host.persistent.contains_key(("Metadata"@, bounty_id)) && record == (MetadataView {
            repo_id: 0,
            issue_id: 0,
            bounty_type: Seq::empty(),
            risk_flags: 0,
            notification_prefs: 0,
            reference_hash: None,
        })),
        add_outcome(host, admin, bounty_id, bits, now).1 is Ok,
    ensures
        add_outcome(host, admin, bounty_id, bits, now).0 == (HostView {
            instance: host.instance,
            persistent: host.persistent.insert(
                ("Metadata"@, bounty_id),
                StoredValue::Metadata(
                    MetadataView {
                        repo_id: record.repo_id,
                        issue_id: record.issue_id,
                        bounty_type: record.bounty_type,
                        risk_flags: record.risk_flags | bits,
                        notification_prefs: record.notification_prefs,
                        reference_hash: record.reference_hash,
                    },
                ),
            ),
            events: host.events.push(
                PublishedEvent {
                    topic: "risk"@,
                    bounty_id,
                    data: EventData::Update(
                        RiskFlagsUpdated {
                            version: 2,
                            bounty_id,
                            previous_flags: record.risk_flags,
                            new_flags: record.risk_flags | bits,
                            admin,
                            timestamp: now,
                        },
                    ),
                },
            ),
            auths: host.auths.insert(admin),
        }),
{
}

/// An accepted clear puts the flags without the bits in the bounty's record, with
/// the rest as for a set.
pub proof fn law_clear_writes(
    host: HostView,
    admin: Address,
    bounty_id: u64,
    bits: u32,
    now: u64,
    record: MetadataView,
)
    requires
        host.persistent.contains_pair(("Metadata"@, bounty_id), StoredValue::Metadata(record)) || (
        !host.persistent.contains_key(("Metadata"@, bounty_id)) && record == (MetadataView {
            repo_id: 0,
            issue_id: 0,
            bounty_type: Seq::empty(),
            risk_flags: 0,
            notification_prefs: 0,
            reference_hash: None,
        })),
        clear_outcome(host, admin, bounty_id, bits, now).1 is Ok,
    ensures
        clear_outcome(host, admin, bounty_id, bits, now).0 == (HostView {
            instance: host.instance,
            persistent: host.persistent.insert(
                ("Metadata"@, bounty_id),
                StoredValue::Metadata(
                    MetadataView {
                        repo_id: record.repo_id,
                        issue_id: record.issue_id,
                        bounty_type: record.bounty_type,
                        risk_flags: record.risk_flags & !bits,
                        notification_prefs: record.notification_prefs,
                        reference_hash: record.reference_hash,
                    },
                ),
            ),
            events: host.events.push(
                PublishedEvent {
                    topic: "risk"@,
                    bounty_id,
                    data: EventData::Update(
                        RiskFlagsUpdated {
                            version: 2,
                            bounty_id,
                            previous_flags: record.risk_flags,
                            new_flags: record.risk_flags & !bits,
                            admin,
                            timestamp: now,
                        },
                    ),
                },
            ),
            auths: host.auths.insert(admin),
        }),
{
}

/// A proposal is accepted exactly when the stored admin makes it, the bounty
/// exists under its own id, the delay is not zero and the flags are below 16;
/// each refusal comes exactly where it should.
pub proof fn law_propose_is_answered(
    host: HostView,
    admin: Address,
    bounty_id: u64,
    flags: u32,
    delay_secs: u64,
    now: u64,
)
    ensures
        ({
            let is_admin = host.instance.contains_pair("Admin"@, StoredValue::Address(admin));
            let bounty = host.persistent.contains_key(("Escrow"@, bounty_id))
                || host.persistent.contains_key(("EscrowAnon"@, bounty_id));
            let answer = propose_outcome(host, admin, bounty_id, flags, delay_secs, now).1;
            &&& answer is Ok <==> is_admin && bounty && delay_secs > 0 && flags < 16
            &&& answer == Err::<(), Error>(Error::NotInitialized) <==> !host.instance.contains_key(
                "Admin"@,
            )
            &&& answer == Err::<(), Error>(Error::BountyNotFound) <==> host.instance.contains_key(
                "Admin"@,
            ) && !bounty
            &&& answer == Err::<(), Error>(Error::Unauthorized) <==> host.instance.contains_key(
                "Admin"@,
            ) && bounty && !is_admin
            &&& answer == Err::<(), Error>(Error::InvalidDeadline) <==> is_admin && bounty
                && delay_secs == 0
            &&& answer == Err::<(), Error>(Error::InvalidAmount) <==> is_admin && bounty
                && delay_secs > 0 && flags >= 16
        }),
{
    law_known_is_four_bits(flags);
}

/// An accepted proposal is stored under the bounty's own id with the flags, the
/// admin and the time as given, due when the delay has passed or at the end of
/// time; it publishes one event, and no flags change.
pub proof fn law_propose_writes(
    host: HostView,
    admin: Address,
    bounty_id: u64,
    flags: u32,
    delay_secs: u64,
    now: u64,
    due: u64,
)
    requires
        propose_outcome(host, admin, bounty_id, flags, delay_secs, now).1 is Ok,
        due == now + delay_secs || (now + delay_secs > u64::MAX && due == u64::MAX),
    ensures
        propose_outcome(host, admin, bounty_id, flags, delay_secs, now).0 == (HostView {
            instance: host.instance,
            persistent: host.persistent.insert(
                ("Proposal"@, bounty_id),
                StoredValue::Proposal(
                    RiskFlagProposal {
                        proposed_flags: flags,
                        execute_after: due,
                        proposed_by: admin,
                        proposed_at: now,
                    },
                ),
            ),
            events: host.events.push(
                PublishedEvent {
                    topic: "rf_prop"@,
                    bounty_id,
                    data: EventData::Notice(Notice::Proposed(flags, due, admin)),
                },
            ),
            auths: host.auths.insert(admin),
        }),
{
}

/// Execution is accepted exactly when storage holds a proposal for the bounty
/// and the time has reached `execute_after`, whoever asks; it is refused as too
/// early exactly before that, and for want of a proposal exactly where there is
/// none.
pub proof fn law_execute_is_answered(
    host: HostView,
    bounty_id: u64,
    now: u64,
    proposal: RiskFlagProposal,
)
    ensures
        host.persistent.contains_pair(("Proposal"@, bounty_id), StoredValue::Proposal(proposal))
            ==> {
            let answer = execute_outcome(host, bounty_id, now).1;
            &&& answer is Ok <==> proposal.execute_after <= now
            &&& answer == Err::<(), Error>(Error::DeadlineNotPassed) <==> now
                < proposal.execute_after
        },
        !host.persistent.contains_key(("Proposal"@, bounty_id)) ==> execute_outcome(
            host,
            bounty_id,
            now,
        ) == (host, Err::<(), Error>(Error::BountyNotFound)),
        execute_outcome(host, bounty_id, now).1 is Err ==> execute_outcome(host, bounty_id, now).0
            == host,
{
}

/// An accepted execution puts exactly the proposed flags in the bounty's record,
/// which is else as it was, uses the proposal up, publishes the change with the
/// flags before and after and then the execution, and asks for no authorization.
pub proof fn law_execute_writes(
    host: HostView,
    bounty_id: u64,
    now: u64,
    proposal: RiskFlagProposal,
    record: MetadataView,
)
    requires
        host.persistent.contains_pair(("Metadata"@, bounty_id), StoredValue::Metadata(record)) || (
        !host.persistent.contains_key(("Metadata"@, bounty_id)) && record == (MetadataView {
            repo_id: 0,
            issue_id: 0,
            bounty_type: Seq::empty(),
            risk_flags: 0,
            notification_prefs: 0,
            reference_hash: None,
        })),
        host.persistent.contains_pair(("Proposal"@, bounty_id), StoredValue::Proposal(proposal)),
        proposal.execute_after <= now,
    ensures
        execute_outcome(host, bounty_id, now).0 == (HostView {
            instance: host.instance,
            persistent: host.persistent.insert(
                ("Metadata"@, bounty_id),
                StoredValue::Metadata(
                    MetadataView {
                        repo_id: record.repo_id,
                        issue_id: record.issue_id,
                        bounty_type: record.bounty_type,
                        risk_flags: proposal.proposed_flags,
                        notification_prefs: record.notification_prefs,
                        reference_hash: record.reference_hash,
                    },
                ),
            ).remove(("Proposal"@, bounty_id)),
            events: host.events.push(
                PublishedEvent {
                    topic: "risk"@,
                    bounty_id,
                    data: EventData::Update(
                        RiskFlagsUpdated {
                            version: 2,
                            bounty_id,
                            previous_flags: record.risk_flags,
                            new_flags: proposal.proposed_flags,
                            admin: proposal.proposed_by,
                            timestamp: now,
                        },
                    ),
                },
            ).push(
                PublishedEvent {
                    topic: "rf_exec"@,
                    bounty_id,
                    data: EventData::Notice(
                        Notice::Executed(proposal.proposed_flags, proposal.proposed_by),
                    ),
                },
            ),
            auths: host.auths,
        }),
{
}

/// A cancellation is accepted exactly when the stored admin asks for it and
/// storage holds something in the proposal's slot, whether the bounty exists or
/// not; each refusal comes exactly where it should.
pub proof fn law_cancel_is_answered(host: HostView, admin: Address, bounty_id: u64, now: u64)
    ensures
        ({
            let is_admin = host.instance.contains_pair("Admin"@, StoredValue::Address(admin));
            let pending = host.persistent.contains_key(("Proposal"@, bounty_id));
            let answer = cancel_outcome(host, admin, bounty_id, now).1;
            &&& answer is Ok <==> is_admin && pending
            &&& answer == Err::<(), Error>(Error::NotInitialized) <==> !host.instance.contains_key(
                "Admin"@,
            )
            &&& answer == Err::<(), Error>(Error::Unauthorized) <==> host.instance.contains_key(
                "Admin"@,
            ) && !is_admin
            &&& answer == Err::<(), Error>(Error::BountyNotFound) <==> is_admin && !pending
        }),
{
}

/// An accepted cancellation empties the proposal's slot, publishes one event with
/// the admin and the time, and changes nothing else.
pub proof fn law_cancel_writes(host: HostView, admin: Address, bounty_id: u64, now: u64)
    requires
        cancel_outcome(host, admin, bounty_id, now).1 is Ok,
    ensures
        cancel_outcome(host, admin, bounty_id, now).0 == (HostView {
            instance: host.instance,
            persistent: host.persistent.remove(("Proposal"@, bounty_id)),
            events: host.events.push(
                PublishedEvent {
                    topic: "rf_canc"@,
                    bounty_id,
                    data: EventData::Notice(Notice::Cancelled(admin, now)),
                },
            ),
            auths: host.auths.insert(admin),
        }),
{
}

/// A refused operation of an admin leaves everything as it was, but that the
/// stored admin, once let through, has been asked for an authorization.
pub proof fn law_refusals_only_ask_the_admin(
    host: HostView,
    admin: Address,
    bounty_id: u64,
    flags: u32,
    delay_secs: u64,
    now: u64,
)
    ensures
        ({
            let is_admin = host.instance.contains_pair("Admin"@, StoredValue::Address(admin));
            let bounty = host.persistent.contains_key(("Escrow"@, bounty_id))
                || host.persistent.contains_key(("EscrowAnon"@, bounty_id));
            let asked = HostView {
                instance: host.instance,
                persistent: host.persistent,
                events: host.events,
                auths: if is_admin && bounty {
                    host.auths.insert(admin)
                } else {
                    host.auths
                },
            };
            let set = set_outcome(host, admin, bounty_id, flags, now);
            let added = add_outcome(host, admin, bounty_id, flags, now);
            let cleared = clear_outcome(host, admin, bounty_id, flags, now);
            let proposed = propose_outcome(host, admin, bounty_id, flags, delay_secs, now);
            let cancelled = cancel_outcome(host, admin, bounty_id, now);
            &&& set.1 is Err ==> set.0 == asked
            &&& added.1 is Err ==> added.0 == asked
            &&& cleared.1 is Err ==> cleared.0 == asked
            &&& proposed.1 is Err ==> proposed.0 == asked
            &&& cancelled.1 is Err ==> cancelled.0 == (HostView {
                instance: host.instance,
                persistent: host.persistent,
                events: host.events,
                auths: if is_admin {
                    host.auths.insert(admin)
                } else {
                    host.auths
                },
            })
        }),
{
}

} // verus!
