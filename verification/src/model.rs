//! What each operation does, as a function on the host's state.
//!
//! An outcome takes the state before the operation, its arguments and the
//! ledger time, and gives the state after it together with the answer.

use vstd::prelude::*;

use crate::host::{EventData, HostView, PublishedEvent, StoredValue};
use crate::types::{
    Address, DataKey, Error, MetadataView, Notice, RiskFlagGovernanceKey, RiskFlagProposal,
    RiskFlagsUpdated, EVENT_VERSION_V2, RISK_FLAG_DEPRECATED, RISK_FLAG_HIGH_RISK,
    RISK_FLAG_RESTRICTED, RISK_FLAG_UNDER_REVIEW,
};

verus! {

/// All the flags that have a meaning.
pub const RISK_FLAGS_ALL_KNOWN: u32 = RISK_FLAG_HIGH_RISK | RISK_FLAG_UNDER_REVIEW
    | RISK_FLAG_RESTRICTED | RISK_FLAG_DEPRECATED;

/// Whether bit `i` of `flags` is set.
pub open spec fn has_bit(flags: u32, i: u32) -> bool {
    (flags >> i) & 1 == 1
}

/// Whether `flags` holds no bit without a meaning.
pub open spec fn known(flags: u32) -> bool {
    flags & !RISK_FLAGS_ALL_KNOWN == 0
}

/// The slot of a bounty's metadata.
pub open spec fn metadata_slot(bounty_id: u64) -> (Seq<char>, u64) {
    (DataKey::Metadata(bounty_id).spec_name(), bounty_id)
}

/// The slot of a bounty's pending proposal.
pub open spec fn proposal_slot(bounty_id: u64) -> (Seq<char>, u64) {
    (RiskFlagGovernanceKey::Proposal(bounty_id).spec_name(), bounty_id)
}

/// The slot of a bounty's escrow.
pub open spec fn escrow_slot(bounty_id: u64) -> (Seq<char>, u64) {
    (DataKey::Escrow(bounty_id).spec_name(), bounty_id)
}

/// The slot of a bounty's escrow with an anonymous depositor.
pub open spec fn escrow_anon_slot(bounty_id: u64) -> (Seq<char>, u64) {
    (DataKey::EscrowAnon(bounty_id).spec_name(), bounty_id)
}

impl HostView {
    /// Whether an admin has been stored.
    pub open spec fn initialized(self) -> bool {
        self.instance.contains_key(DataKey::Admin.spec_name())
    }

    /// The stored admin.
    pub open spec fn admin(self) -> Option<Address> {
        if self.initialized() {
            match self.instance[DataKey::Admin.spec_name()] {
                StoredValue::Address(address) => Some(address),
                _ => None,
            }
        } else {
            None
        }
    }

    /// Whether an operation is under way.
    pub open spec fn guarded(self) -> bool {
        self.instance.contains_key(DataKey::ReentrancyGuard.spec_name())
    }

    /// Whether the bounty has an escrow, with a named or an anonymous depositor.
    pub open spec fn bounty_exists(self, bounty_id: u64) -> bool {
        ||| self.persistent.contains_key(escrow_slot(bounty_id))
        ||| self.persistent.contains_key(escrow_anon_slot(bounty_id))
    }

    /// The metadata record of the bounty, or the minimal one where it has none.
    pub open spec fn metadata(self, bounty_id: u64) -> MetadataView {
        if self.persistent.contains_key(metadata_slot(bounty_id)) {
            match self.persistent[metadata_slot(bounty_id)] {
                StoredValue::Metadata(record) => record,
                _ => MetadataView::minimal(),
            }
        } else {
            MetadataView::minimal()
        }
    }

    /// The risk flags of the bounty; 0 where it has no metadata.
    pub open spec fn flags(self, bounty_id: u64) -> u32 {
        self.metadata(bounty_id).risk_flags
    }

    /// The pending proposal for the bounty.
    pub open spec fn proposal(self, bounty_id: u64) -> Option<RiskFlagProposal> {
        if self.persistent.contains_key(proposal_slot(bounty_id)) {
            match self.persistent[proposal_slot(bounty_id)] {
                StoredValue::Proposal(proposal) => Some(proposal),
                _ => None,
            }
        } else {
            None
        }
    }

    /// The slot of the admin, where it is in use, holds an address.
    pub open spec fn admin_readable(self) -> bool {
        self.initialized() ==> self.admin() is Some
    }

    /// The slot of the bounty's metadata, where it is in use, holds a record.
    pub open spec fn metadata_readable(self, bounty_id: u64) -> bool {
        self.persistent.contains_key(metadata_slot(bounty_id)) ==> self.persistent[metadata_slot(
            bounty_id,
        )] is Metadata
    }

    /// The slot of the bounty's proposal, where it is in use, holds one.
    pub open spec fn proposal_readable(self, bounty_id: u64) -> bool {
        self.persistent.contains_key(proposal_slot(bounty_id)) ==> self.proposal(
            bounty_id,
        ) is Some
    }

    /// The state with `address` among those that have authorized the call.
    pub open spec fn with_auth(self, address: Address) -> HostView {
        HostView { auths: self.auths.insert(address), ..self }
    }

    /// The state with the bounty's flags replaced and the rest of its metadata
    /// as it was.
    pub open spec fn with_flags(self, bounty_id: u64, flags: u32) -> HostView {
        HostView {
            persistent: self.persistent.insert(
                metadata_slot(bounty_id),
                StoredValue::Metadata(
                    MetadataView { risk_flags: flags, ..self.metadata(bounty_id) },
                ),
            ),
            ..self
        }
    }

    /// The state with a pending proposal for the bounty.
    pub open spec fn with_proposal(self, bounty_id: u64, proposal: RiskFlagProposal) -> HostView {
        HostView {
            persistent: self.persistent.insert(
                proposal_slot(bounty_id),
                StoredValue::Proposal(proposal),
            ),
            ..self
        }
    }

    /// The state without a pending proposal for the bounty.
    pub open spec fn without_proposal(self, bounty_id: u64) -> HostView {
        HostView { persistent: self.persistent.remove(proposal_slot(bounty_id)), ..self }
    }

    /// The state after one more event.
    pub open spec fn with_event(self, event: PublishedEvent) -> HostView {
        HostView { events: self.events.push(event), ..self }
    }

    /// The state with the bounty's flags replaced and the change reported.
    pub open spec fn with_update(
        self,
        bounty_id: u64,
        flags: u32,
        admin: Address,
        now: u64,
    ) -> HostView {
        self.with_flags(bounty_id, flags).with_event(
            update_event(bounty_id, self.flags(bounty_id), flags, admin, now),
        )
    }
}

/// The event that reports a change of risk flags.
pub open spec fn update_event(
    bounty_id: u64,
    previous_flags: u32,
    new_flags: u32,
    admin: Address,
    timestamp: u64,
) -> PublishedEvent {
    PublishedEvent {
        topic: "risk"@,
        bounty_id,
        data: EventData::Update(
            RiskFlagsUpdated {
                version: EVENT_VERSION_V2,
                bounty_id,
                previous_flags,
                new_flags,
                admin,
                timestamp,
            },
        ),
    }
}

/// The event of a governance step.
pub open spec fn notice_event(topic: Seq<char>, bounty_id: u64, notice: Notice) -> PublishedEvent {
    PublishedEvent { topic, bounty_id, data: EventData::Notice(notice) }
}

/// Whether an address may change the flags of a bounty: the contract has an
/// admin, the bounty exists, and the address is the admin, asked in this order.
pub open spec fn admin_access(
    initialized: bool,
    bounty_exists: bool,
    stored: Option<Address>,
    admin: Address,
) -> Result<(), Error> {
    if !initialized {
        Err(Error::NotInitialized)
    } else if !bounty_exists {
        Err(Error::BountyNotFound)
    } else if stored != Some(admin) {
        Err(Error::Unauthorized)
    } else {
        Ok(())
    }
}

/// [`admin_access`] on the state of the host.
pub open spec fn bounty_access(host: HostView, admin: Address, bounty_id: u64) -> Result<(), Error> {
    admin_access(host.initialized(), host.bounty_exists(bounty_id), host.admin(), admin)
}

/// Who may cancel: the bounty need not exist.
pub open spec fn cancel_access(host: HostView, admin: Address) -> Result<(), Error> {
    admin_access(host.initialized(), true, host.admin(), admin)
}

/// What the check of the admin reads can be read: the admin's slot, where the
/// bounty exists.
pub open spec fn admin_check_readable(host: HostView, bounty_id: u64) -> bool {
    host.bounty_exists(bounty_id) ==> host.admin_readable()
}

/// What an immediate change reads can be read: besides the admin's slot, the
/// metadata, where the admin asks for the change and names known flags.
pub open spec fn change_readable(
    host: HostView,
    admin: Address,
    bounty_id: u64,
    given: u32,
) -> bool {
    &&& admin_check_readable(host, bounty_id)
    &&& bounty_access(host, admin, bounty_id) is Ok && known(given) ==> host.metadata_readable(
        bounty_id,
    )
}

/// An execution at `now` can go on: no operation is under way, the proposal's
/// slot can be read, and so can the metadata where the proposal is carried out.
pub open spec fn execution_possible(host: HostView, bounty_id: u64, now: u64) -> bool {
    &&& !host.guarded()
    &&& host.proposal_readable(bounty_id)
    &&& execute_outcome(host, bounty_id, now).1 is Ok ==> host.metadata_readable(bounty_id)
}

/// An immediate change of flags by the admin: `given` are the flags that the
/// admin names, `new_flags` those that the bounty then has. Both must be known.
pub open spec fn change_outcome(
    host: HostView,
    admin: Address,
    bounty_id: u64,
    given: u32,
    new_flags: u32,
    now: u64,
) -> (HostView, Result<(), Error>) {
    match bounty_access(host, admin, bounty_id) {
        Err(error) => (host, Err(error)),
        Ok(_) => if !known(given) || !known(new_flags) {
            (host.with_auth(admin), Err(Error::InvalidAmount))
        } else {
            (host.with_auth(admin).with_update(bounty_id, new_flags, admin, now), Ok(()))
        },
    }
}

/// The flags of the bounty become `new_flags`.
pub open spec fn set_outcome(
    host: HostView,
    admin: Address,
    bounty_id: u64,
    new_flags: u32,
    now: u64,
) -> (HostView, Result<(), Error>) {
    change_outcome(host, admin, bounty_id, new_flags, new_flags, now)
}

/// The given bits are set, where that leaves known flags.
pub open spec fn add_outcome(
    host: HostView,
    admin: Address,
    bounty_id: u64,
    bits: u32,
    now: u64,
) -> (HostView, Result<(), Error>) {
    change_outcome(host, admin, bounty_id, bits, host.flags(bounty_id) | bits, now)
}

/// The given bits are cleared, where that leaves known flags.
pub open spec fn clear_outcome(
    host: HostView,
    admin: Address,
    bounty_id: u64,
    bits: u32,
    now: u64,
) -> (HostView, Result<(), Error>) {
    change_outcome(host, admin, bounty_id, bits, host.flags(bounty_id) & !bits, now)
}

/// The time from which a proposal made at `now` may be carried out: after the
/// delay, or at the end of time where that would be later.
pub open spec fn due_time(now: u64, delay_secs: u64) -> u64 {
    if now + delay_secs <= u64::MAX {
        (now + delay_secs) as u64
    } else {
        u64::MAX
    }
}

/// The proposal that the admin makes at `now`, or why it is refused.
pub open spec fn proposal_for(
    admin: Address,
    proposed_flags: u32,
    delay_secs: u64,
    now: u64,
) -> Result<RiskFlagProposal, Error> {
    if delay_secs == 0 {
        Err(Error::InvalidDeadline)
    } else if !known(proposed_flags) {
        Err(Error::InvalidAmount)
    } else {
        Ok(
            RiskFlagProposal {
                proposed_flags,
                execute_after: due_time(now, delay_secs),
                proposed_by: admin,
                proposed_at: now,
            },
        )
    }
}

/// A proposal takes the place of the one before it, if any.
pub open spec fn propose_outcome(
    host: HostView,
    admin: Address,
    bounty_id: u64,
    proposed_flags: u32,
    delay_secs: u64,
    now: u64,
) -> (HostView, Result<(), Error>) {
    match bounty_access(host, admin, bounty_id) {
        Err(error) => (host, Err(error)),
        Ok(_) => match proposal_for(admin, proposed_flags, delay_secs, now) {
            Err(error) => (host.with_auth(admin), Err(error)),
            Ok(proposal) => (
                host.with_auth(admin).with_proposal(bounty_id, proposal).with_event(
                    notice_event(
                        "rf_prop"@,
                        bounty_id,
                        Notice::Proposed(proposed_flags, proposal.execute_after, admin),
                    ),
                ),
                Ok(()),
            ),
        },
    }
}

/// The pending proposal is applied and removed once its time has come.
pub open spec fn execute_outcome(host: HostView, bounty_id: u64, now: u64) -> (
    HostView,
    Result<(), Error>,
) {
    match host.proposal(bounty_id) {
        None => (host, Err(Error::BountyNotFound)),
        Some(proposal) => if now < proposal.execute_after {
            (host, Err(Error::DeadlineNotPassed))
        } else {
            (
                host.with_update(
                    bounty_id,
                    proposal.proposed_flags,
                    proposal.proposed_by,
                    now,
                ).without_proposal(bounty_id).with_event(
                    notice_event(
                        "rf_exec"@,
                        bounty_id,
                        Notice::Executed(proposal.proposed_flags, proposal.proposed_by),
                    ),
                ),
                Ok(()),
            )
        },
    }
}

/// The pending proposal is removed, whatever it says.
pub open spec fn cancel_outcome(host: HostView, admin: Address, bounty_id: u64, now: u64) -> (
    HostView,
    Result<(), Error>,
) {
    match cancel_access(host, admin) {
        Err(error) => (host, Err(error)),
        Ok(_) => if !host.persistent.contains_key(proposal_slot(bounty_id)) {
            (host.with_auth(admin), Err(Error::BountyNotFound))
        } else {
            (
                host.with_auth(admin).without_proposal(bounty_id).with_event(
                    notice_event("rf_canc"@, bounty_id, Notice::Cancelled(admin, now)),
                ),
                Ok(()),
            )
        },
    }
}

} // verus!
