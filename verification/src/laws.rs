//! What holds across operations.
//!
//! The laws speak of the outcomes of [`crate::model`], which the operations of
//! [`crate::risk_flag`] are proved to have.

use vstd::prelude::*;

use crate::host::{EventData, HostView, PublishedEvent};
use crate::model::{
    add_outcome, bounty_access, cancel_outcome, clear_outcome, due_time, execute_outcome, has_bit,
    known, metadata_slot, proposal_slot, propose_outcome, set_outcome, update_event,
    RISK_FLAGS_ALL_KNOWN,
};
use crate::types::{
    lemma_slots_differ, Address, Error, MetadataView, RiskFlagProposal, RiskFlagsUpdated,
    RISK_FLAG_DEPRECATED, RISK_FLAG_HIGH_RISK, RISK_FLAG_RESTRICTED, RISK_FLAG_UNDER_REVIEW,
};

verus! {

/// All the bits of `mask` are in `flags` exactly when `flags` has every bit
/// that `mask` has.
pub proof fn law_mask_is_every_bit(flags: u32, mask: u32)
    ensures
        (flags & mask == mask) <==> (forall|i: u32|
            i < 32 && #[trigger] has_bit(mask, i) ==> has_bit(flags, i)),
{
    if flags & mask == mask {
        assert forall|i: u32| i < 32 && #[trigger] has_bit(mask, i) implies has_bit(flags, i) by {
            assert((flags >> i) & 1 == 1) by (bit_vector)
                requires
                    flags & mask == mask,
                    (mask >> i) & 1 == 1,
            ;
        }
    }
    if forall|i: u32| i < 32 && #[trigger] has_bit(mask, i) ==> has_bit(flags, i) {
        let rest = mask & !flags;
        assert forall|i: u32| 0 <= i < 32 implies !has_bit(rest, i) by {
            assert(has_bit(mask, i) ==> has_bit(flags, i));
            assert((rest >> i) & 1 != 1) by (bit_vector)
                requires
                    rest == mask & !flags,
                    (mask >> i) & 1 == 1 ==> (flags >> i) & 1 == 1,
            ;
        }
        lemma_no_bits_from(rest, 0);
        assert(flags & mask == mask) by (bit_vector)
            requires
                (mask & !flags) >> 0u32 == 0,
        ;
    }
}

/// A number whose bits from `k` on are all unset is zero from `k` on.
proof fn lemma_no_bits_from(x: u32, k: u32)
    requires
        k <= 32,
        forall|i: u32| k <= i < 32 ==> !has_bit(x, i),
    ensures
        x >> k == 0,
    decreases 32 - k,
{
    if k == 32 {
        assert(x >> 32u32 == 0) by (bit_vector);
    } else {
        lemma_no_bits_from(x, (k + 1) as u32);
        let next = (k + 1) as u32;
        assert(!has_bit(x, k));
        assert(x >> k == 0) by (bit_vector)
            requires
                k < 32,
                next == k + 1,
                x >> next == 0,
                (x >> k) & 1 != 1,
        ;
    }
}

/// Each flag is one bit, in the order of their declaration.
pub proof fn law_flags_are_bits(i: u32)
    requires
        i < 32,
    ensures
        has_bit(RISK_FLAG_HIGH_RISK, i) <==> i == 0,
        has_bit(RISK_FLAG_UNDER_REVIEW, i) <==> i == 1,
        has_bit(RISK_FLAG_RESTRICTED, i) <==> i == 2,
        has_bit(RISK_FLAG_DEPRECATED, i) <==> i == 3,
        has_bit(RISK_FLAGS_ALL_KNOWN, i) <==> i < 4,
{
    assert((1u32 >> i) & 1 == 1 <==> i == 0) by (bit_vector)
        requires
            i < 32,
    ;
    assert((2u32 >> i) & 1 == 1 <==> i == 1) by (bit_vector)
        requires
            i < 32,
    ;
    assert((4u32 >> i) & 1 == 1 <==> i == 2) by (bit_vector)
        requires
            i < 32,
    ;
    assert((8u32 >> i) & 1 == 1 <==> i == 3) by (bit_vector)
        requires
            i < 32,
    ;
    assert(((1u32 | 2u32 | 4u32 | 8u32) >> i) & 1 == 1 <==> i < 4) by (bit_vector)
        requires
            i < 32,
    ;
}

/// Flags are known exactly when they hold none but the four lowest bits.
pub proof fn law_known_is_four_bits(flags: u32)
    ensures
        known(flags) <==> flags < 16,
        known(flags) <==> (forall|i: u32| 4 <= i < 32 ==> !has_bit(flags, i)),
{
    assert(flags & !(1u32 | 2u32 | 4u32 | 8u32) == 0 <==> flags < 16) by (bit_vector);
    if flags < 16 {
        assert forall|i: u32| 4 <= i < 32 implies !has_bit(flags, i) by {
            assert((flags >> i) & 1 != 1) by (bit_vector)
                requires
                    flags < 16,
                    4 <= i < 32,
            ;
        }
    }
    if forall|i: u32| 4 <= i < 32 ==> !has_bit(flags, i) {
        lemma_no_bits_from(flags, 4);
        assert(flags < 16) by (bit_vector)
            requires
                flags >> 4u32 == 0,
        ;
    }
}

/// Adding bits sets those and keeps the others; clearing bits unsets those and
/// keeps the others.
pub proof fn law_add_and_clear_are_bitwise(flags: u32, bits: u32, i: u32)
    requires
        i < 32,
    ensures
        has_bit(flags | bits, i) <==> has_bit(flags, i) || has_bit(bits, i),
        has_bit(flags & !bits, i) <==> has_bit(flags, i) && !has_bit(bits, i),
{
    assert(((flags | bits) >> i) & 1 == 1 <==> (flags >> i) & 1 == 1 || (bits >> i) & 1 == 1)
        by (bit_vector)
        requires
            i < 32,
    ;
    assert(((flags & !bits) >> i) & 1 == 1 <==> (flags >> i) & 1 == 1 && (bits >> i) & 1 != 1)
        by (bit_vector)
        requires
            i < 32,
    ;
}

/// An operation and its arguments.
pub enum Operation {
    Replace { admin: Address, bounty_id: u64, flags: u32 },
    Add { admin: Address, bounty_id: u64, flags: u32 },
    Clear { admin: Address, bounty_id: u64, flags: u32 },
    Propose { admin: Address, bounty_id: u64, flags: u32, delay_secs: u64 },
    Execute { bounty_id: u64 },
    Cancel { admin: Address, bounty_id: u64 },
}

impl Operation {
    /// The bounty that the operation is about.
    pub open spec fn bounty(self) -> u64 {
        match self {
            Operation::Replace { bounty_id, .. } => bounty_id,
            Operation::Add { bounty_id, .. } => bounty_id,
            Operation::Clear { bounty_id, .. } => bounty_id,
            Operation::Propose { bounty_id, .. } => bounty_id,
            Operation::Execute { bounty_id } => bounty_id,
            Operation::Cancel { bounty_id, .. } => bounty_id,
        }
    }

    /// Who asks for the operation, where that matters.
    pub open spec fn caller(self) -> Option<Address> {
        match self {
            Operation::Replace { admin, .. } => Some(admin),
            Operation::Add { admin, .. } => Some(admin),
            Operation::Clear { admin, .. } => Some(admin),
            Operation::Propose { admin, .. } => Some(admin),
            Operation::Execute { .. } => None,
            Operation::Cancel { admin, .. } => Some(admin),
        }
    }

    /// The flags that the caller names.
    pub open spec fn named_flags(self) -> Option<u32> {
        match self {
            Operation::Replace { flags, .. } => Some(flags),
            Operation::Add { flags, .. } => Some(flags),
            Operation::Clear { flags, .. } => Some(flags),
            Operation::Propose { flags, .. } => Some(flags),
            Operation::Execute { .. } => None,
            Operation::Cancel { .. } => None,
        }
    }

    /// What the operation does at the time `now`.
    pub open spec fn outcome(self, host: HostView, now: u64) -> (HostView, Result<(), Error>) {
        match self {
            Operation::Replace { admin, bounty_id, flags } => set_outcome(
                host,
                admin,
                bounty_id,
                flags,
                now,
            ),
            Operation::Add { admin, bounty_id, flags } => add_outcome(
                host,
                admin,
                bounty_id,
                flags,
                now,
            ),
            Operation::Clear { admin, bounty_id, flags } => clear_outcome(
                host,
                admin,
                bounty_id,
                flags,
                now,
            ),
            Operation::Propose { admin, bounty_id, flags, delay_secs } => propose_outcome(
                host,
                admin,
                bounty_id,
                flags,
                delay_secs,
                now,
            ),
            Operation::Execute { bounty_id } => execute_outcome(host, bounty_id, now),
            Operation::Cancel { admin, bounty_id } => cancel_outcome(host, admin, bounty_id, now),
        }
    }
}

/// Only the admin, with an authorization that the host has confirmed, changes
/// what is stored; the one exception is the execution of a proposal.
pub proof fn law_admin_only(host: HostView, op: Operation, now: u64)
    requires
        op.caller() is Some,
        op.outcome(host, now).1 is Ok || op.outcome(host, now).0.persistent != host.persistent,
    ensures
        host.admin() == op.caller(),
        op.outcome(host, now).0.auths.contains(op.caller().unwrap()),
        op is Cancel || host.bounty_exists(op.bounty()),
{
}

/// Flags with an unknown bit are never accepted, and nothing is stored or
/// published for them; the admin is told that the flags are the reason, unless
/// a delay of zero is the first reason.
pub proof fn law_unknown_bits_are_rejected(host: HostView, op: Operation, now: u64)
    requires
        op.named_flags() matches Some(flags) && !known(flags),
    ensures
        op.outcome(host, now).1 is Err,
        op.outcome(host, now).0.persistent == host.persistent,
        op.outcome(host, now).0.events == host.events,
        bounty_access(host, op.caller().unwrap(), op.bounty()) is Ok && !(op matches
            Operation::Propose { delay_secs, .. } && delay_secs == 0) ==> op.outcome(host, now).1
            == Err::<(), Error>(Error::InvalidAmount),
{
}

/// An accepted set, add or clear leaves the bounty with known flags, whatever
/// flags it had.
pub proof fn law_accepted_changes_leave_known_flags(host: HostView, op: Operation, now: u64)
    requires
        op is Replace || op is Add || op is Clear,
        op.outcome(host, now).1 is Ok,
    ensures
        known(op.outcome(host, now).0.flags(op.bounty())),
{
}

/// An operation that is refused leaves storage and events as they were.
pub proof fn law_refusal_changes_nothing(host: HostView, op: Operation, now: u64)
    requires
        op.outcome(host, now).1 is Err,
    ensures
        op.outcome(host, now).0.persistent == host.persistent,
        op.outcome(host, now).0.instance == host.instance,
        op.outcome(host, now).0.events == host.events,
{
}

/// Every operation leaves the guard and the rest of instance storage as it
/// found them.
pub proof fn law_guard_is_given_back(host: HostView, op: Operation, now: u64)
    ensures
        op.outcome(host, now).0.instance == host.instance,
        op.outcome(host, now).0.guarded() == host.guarded(),
{
}

/// Carrying out a proposal asks nobody for an authorization.
pub proof fn law_execution_is_open_to_anyone(host: HostView, bounty_id: u64, now: u64)
    ensures
        execute_outcome(host, bounty_id, now).0.auths == host.auths,
{
}

/// An operation touches no slot but the metadata and the proposal of its
/// bounty, and of the metadata nothing but the flags.
pub proof fn law_rest_is_untouched(host: HostView, op: Operation, now: u64, slot: (Seq<char>, u64))
    ensures
        slot != metadata_slot(op.bounty()) && slot != proposal_slot(op.bounty()) ==> {
            &&& op.outcome(host, now).0.persistent.contains_key(slot)
                == host.persistent.contains_key(slot)
            &&& op.outcome(host, now).0.persistent[slot] == host.persistent[slot]
        },
        op.outcome(host, now).0.metadata(op.bounty()) == (MetadataView {
            risk_flags: op.outcome(host, now).0.flags(op.bounty()),
            ..host.metadata(op.bounty())
        }),
{
    lemma_slots_differ(op.bounty(), op.bounty());
}

/// What was written is what is read: after an accepted change the bounty has
/// the flags that were set, all the bits that were added, and none of the bits
/// that were cleared.
pub proof fn law_reads_follow_writes(
    host: HostView,
    admin: Address,
    bounty_id: u64,
    bits: u32,
    now: u64,
)
    ensures
        set_outcome(host, admin, bounty_id, bits, now).1 is Ok ==> set_outcome(
            host,
            admin,
            bounty_id,
            bits,
            now,
        ).0.flags(bounty_id) == bits,
        add_outcome(host, admin, bounty_id, bits, now).1 is Ok ==> {
            let flags = add_outcome(host, admin, bounty_id, bits, now).0.flags(bounty_id);
            &&& flags == host.flags(bounty_id) | bits
            &&& flags & bits == bits
        },
        clear_outcome(host, admin, bounty_id, bits, now).1 is Ok ==> {
            let flags = clear_outcome(host, admin, bounty_id, bits, now).0.flags(bounty_id);
            &&& flags == host.flags(bounty_id) & !bits
            &&& flags & bits == 0
        },
{
    let flags = host.flags(bounty_id);
    assert((flags | bits) & bits == bits) by (bit_vector);
    assert((flags & !bits) & bits == 0) by (bit_vector);
}

/// The last write of a bounty's flags wins: what was written before it leaves no
/// trace, so writing the same flags twice is writing them once.
pub proof fn law_last_write_wins(host: HostView, bounty_id: u64, first: u32, second: u32)
    ensures
        host.with_flags(bounty_id, first).with_flags(bounty_id, second) == host.with_flags(
            bounty_id,
            second,
        ),
        host.with_flags(bounty_id, second).with_flags(bounty_id, second) == host.with_flags(
            bounty_id,
            second,
        ),
        host.with_flags(bounty_id, second).flags(bounty_id) == second,
{
    assert(host.with_flags(bounty_id, first).with_flags(bounty_id, second) =~= host.with_flags(
        bounty_id,
        second,
    ));
    assert(host.with_flags(bounty_id, second).with_flags(bounty_id, second) =~= host.with_flags(
        bounty_id,
        second,
    ));
}

/// Bounties are apart: writing the flags of two of them gives the same in either
/// order, and each keeps its own.
pub proof fn law_writes_to_two_bounties_commute(
    host: HostView,
    one: u64,
    other: u64,
    one_flags: u32,
    other_flags: u32,
)
    requires
        one != other,
    ensures
        host.with_flags(one, one_flags).with_flags(other, other_flags) == host.with_flags(
            other,
            other_flags,
        ).with_flags(one, one_flags),
        host.with_flags(one, one_flags).flags(other) == host.flags(other),
{
    assert(host.with_flags(one, one_flags).with_flags(other, other_flags) =~= host.with_flags(
        other,
        other_flags,
    ).with_flags(one, one_flags));
}

/// A bounty without metadata has no flags, and its first flags come in a
/// minimal record.
pub proof fn law_missing_metadata_reads_as_no_flags(
    host: HostView,
    admin: Address,
    bounty_id: u64,
    flags: u32,
    now: u64,
)
    requires
        !host.persistent.contains_key(metadata_slot(bounty_id)),
    ensures
        host.flags(bounty_id) == 0,
        set_outcome(host, admin, bounty_id, flags, now).1 is Ok ==> set_outcome(
            host,
            admin,
            bounty_id,
            flags,
            now,
        ).0.metadata(bounty_id) == (MetadataView { risk_flags: flags, ..MetadataView::minimal() }),
{
}

/// Adding bits is the same as setting the flags with those bits added.
pub proof fn law_adding_is_setting(
    host: HostView,
    admin: Address,
    bounty_id: u64,
    bits: u32,
    now: u64,
)
    ensures
        add_outcome(host, admin, bounty_id, bits, now) == set_outcome(
            host,
            admin,
            bounty_id,
            host.flags(bounty_id) | bits,
            now,
        ),
{
    let flags = host.flags(bounty_id);
    let all = RISK_FLAGS_ALL_KNOWN;
    assert((flags | bits) & !all == 0 ==> bits & !all == 0) by (bit_vector);
}

/// Clearing known bits is the same as setting the flags with those bits
/// cleared.
pub proof fn law_clearing_is_setting(
    host: HostView,
    admin: Address,
    bounty_id: u64,
    bits: u32,
    now: u64,
)
    requires
        known(bits),
    ensures
        clear_outcome(host, admin, bounty_id, bits, now) == set_outcome(
            host,
            admin,
            bounty_id,
            host.flags(bounty_id) & !bits,
            now,
        ),
{
}

/// Clearing bits undoes adding them, where the bounty had none of them.
pub proof fn law_clearing_undoes_adding(
    host: HostView,
    admin: Address,
    bounty_id: u64,
    bits: u32,
    added_at: u64,
    cleared_at: u64,
)
    requires
        host.flags(bounty_id) & bits == 0,
        add_outcome(host, admin, bounty_id, bits, added_at).1 is Ok,
    ensures
        ({
            let added = add_outcome(host, admin, bounty_id, bits, added_at).0;
            let (cleared, answer) = clear_outcome(added, admin, bounty_id, bits, cleared_at);
            &&& answer is Ok
            &&& cleared.metadata(bounty_id) == host.metadata(bounty_id)
        }),
{
    lemma_slots_differ(bounty_id, bounty_id);
    let flags = host.flags(bounty_id);
    let all = RISK_FLAGS_ALL_KNOWN;
    assert((flags | bits) & !bits == flags) by (bit_vector)
        requires
            flags & bits == 0,
    ;
    assert(flags & !all == 0) by (bit_vector)
        requires
            (flags | bits) & !all == 0,
    ;
}

/// A proposal waits for its delay: from the state that it leaves, execution is
/// refused as too early and changes nothing before its time, and from then on
/// it gives the bounty the proposed flags and uses the proposal up.
pub proof fn law_proposal_waits_for_its_delay(
    host: HostView,
    admin: Address,
    bounty_id: u64,
    flags: u32,
    delay_secs: u64,
    proposed_at: u64,
    now: u64,
)
    requires
        propose_outcome(host, admin, bounty_id, flags, delay_secs, proposed_at).1 is Ok,
    ensures
        ({
            let proposed = propose_outcome(
                host,
                admin,
                bounty_id,
                flags,
                delay_secs,
                proposed_at,
            ).0;
            let (executed, answer) = execute_outcome(proposed, bounty_id, now);
            if now < due_time(proposed_at, delay_secs) {
                executed == proposed && answer == Err::<(), Error>(Error::DeadlineNotPassed)
            } else {
                &&& answer is Ok
                &&& executed.flags(bounty_id) == flags
                &&& executed.proposal(bounty_id) is None
                &&& execute_outcome(executed, bounty_id, now).1 == Err::<(), Error>(
                    Error::BountyNotFound,
                )
            }
        }),
{
    lemma_slots_differ(bounty_id, bounty_id);
}

/// The time of a proposal lies at least the delay after the proposal, where the
/// clock reaches that far; it is then later than the proposal itself.
pub proof fn law_due_time_is_after_the_delay(now: u64, delay_secs: u64)
    requires
        delay_secs > 0,
        now + delay_secs <= u64::MAX,
    ensures
        due_time(now, delay_secs) == now + delay_secs,
        now < due_time(now, delay_secs),
{
}

/// A proposal takes the place of the one before it, and can be read back as it
/// was made.
pub proof fn law_last_proposal_wins(
    host: HostView,
    admin: Address,
    bounty_id: u64,
    flags: u32,
    delay_secs: u64,
    now: u64,
)
    requires
        propose_outcome(host, admin, bounty_id, flags, delay_secs, now).1 is Ok,
    ensures
        propose_outcome(host, admin, bounty_id, flags, delay_secs, now).0.proposal(bounty_id)
            == Some(
            RiskFlagProposal {
                proposed_flags: flags,
                execute_after: due_time(now, delay_secs),
                proposed_by: admin,
                proposed_at: now,
            },
        ),
{
}

/// The admin can cancel any pending proposal, and a cancelled proposal cannot
/// be executed.
pub proof fn law_cancelled_proposal_is_gone(
    host: HostView,
    admin: Address,
    bounty_id: u64,
    cancelled_at: u64,
    now: u64,
)
    requires
        host.admin() == Some(admin),
        host.proposal(bounty_id) is Some,
    ensures
        ({
            let (cancelled, answer) = cancel_outcome(host, admin, bounty_id, cancelled_at);
            &&& answer is Ok
            &&& cancelled.proposal(bounty_id) is None
            &&& execute_outcome(cancelled, bounty_id, now) == (
                cancelled,
                Err::<(), Error>(Error::BountyNotFound),
            )
        }),
{
}

/// A proposal is carried out exactly when there is one and its time has come.
pub proof fn law_execution_needs_a_due_proposal(host: HostView, bounty_id: u64, now: u64)
    ensures
        execute_outcome(host, bounty_id, now).1 is Ok <==> (host.proposal(bounty_id) matches Some(
            proposal,
        ) && proposal.execute_after <= now),
{
}

/// Proposing and cancelling leave all flags as they are.
pub proof fn law_proposals_leave_flags(host: HostView, op: Operation, now: u64, bounty_id: u64)
    requires
        op is Propose || op is Cancel,
    ensures
        op.outcome(host, now).0.metadata(bounty_id) == host.metadata(bounty_id),
        op.outcome(host, now).0.flags(bounty_id) == host.flags(bounty_id),
{
    lemma_slots_differ(op.bounty(), bounty_id);
}

/// No change is silent: where the flags of a bounty have changed, the first new
/// event reports the flags before and after, and either the admin asked for the
/// change or a proposal of exactly these flags had reached its time.
pub proof fn law_no_silent_change(host: HostView, op: Operation, now: u64, bounty_id: u64)
    requires
        op.outcome(host, now).0.flags(bounty_id) != host.flags(bounty_id),
    ensures
        bounty_id == op.bounty(),
        ({
            let after = op.outcome(host, now).0;
            let admin = match op.caller() {
                Some(caller) => caller,
                None => host.proposal(bounty_id).unwrap().proposed_by,
            };
            &&& after.events.len() > host.events.len()
            &&& after.events[host.events.len() as int] == update_event(
                bounty_id,
                host.flags(bounty_id),
                after.flags(bounty_id),
                admin,
                now,
            )
        }),
        match op.caller() {
            Some(caller) => host.admin() == Some(caller) && op.outcome(
                host,
                now,
            ).0.auths.contains(caller),
            None => host.proposal(bounty_id) matches Some(proposal) && proposal.execute_after <= now
                && op.outcome(host, now).0.flags(bounty_id) == proposal.proposed_flags,
        },
{
    lemma_slots_differ(op.bounty(), bounty_id);
}

/// Events are only added: those published before stay, in their order.
pub proof fn law_events_only_grow(host: HostView, op: Operation, now: u64)
    ensures
        host.events.is_prefix_of(op.outcome(host, now).0.events),
{
}

/// The changes of a bounty's flags that the events report, in order.
pub open spec fn reported_updates(events: Seq<PublishedEvent>, bounty_id: u64) -> Seq<
    RiskFlagsUpdated,
>
    decreases events.len(),
{
    if events.len() == 0 {
        seq![]
    } else {
        let earlier = reported_updates(events.drop_last(), bounty_id);
        match events.last().data {
            EventData::Update(update) if update.bounty_id == bounty_id => earlier.push(update),
            _ => earlier,
        }
    }
}

/// The flags that a bounty must have by its reported changes: those of the last
/// one, or `start` where there is none.
pub open spec fn replayed_flags(start: u32, updates: Seq<RiskFlagsUpdated>) -> u32 {
    if updates.len() == 0 {
        start
    } else {
        updates.last().new_flags
    }
}

/// The reported changes form a chain from `start`: each begins with the flags
/// that the one before it ended with.
pub open spec fn chained(start: u32, updates: Seq<RiskFlagsUpdated>) -> bool {
    forall|i: int|
        0 <= i < updates.len() ==> (#[trigger] updates[i]).previous_flags == replayed_flags(
            start,
            updates.take(i),
        )
}

/// The events are a complete log of the bounty's flags: its reported changes
/// lead in a chain from `start` to the flags that it has.
pub open spec fn logged(host: HostView, start: u32, bounty_id: u64) -> bool {
    &&& chained(start, reported_updates(host.events, bounty_id))
    &&& replayed_flags(start, reported_updates(host.events, bounty_id)) == host.flags(bounty_id)
}

/// Whether the operation is an accepted change of the bounty's flags: a set, add,
/// clear or execution.
pub open spec fn changes(op: Operation, host: HostView, now: u64, bounty_id: u64) -> bool {
    &&& op.bounty() == bounty_id
    &&& op is Replace || op is Add || op is Clear || op is Execute
    &&& op.outcome(host, now).1 is Ok
}

/// One more event either reports a change or leaves what is reported.
proof fn lemma_updates_push(events: Seq<PublishedEvent>, event: PublishedEvent, bounty_id: u64)
    ensures
        reported_updates(events.push(event), bounty_id) == match event.data {
            EventData::Update(update) if update.bounty_id == bounty_id => reported_updates(
                events,
                bounty_id,
            ).push(update),
            _ => reported_updates(events, bounty_id),
        },
{
    assert(events.push(event).drop_last() =~= events);
}

/// A chain grows by a change that begins where it ends.
proof fn lemma_chain_push(start: u32, updates: Seq<RiskFlagsUpdated>, update: RiskFlagsUpdated)
    requires
        chained(start, updates),
        update.previous_flags == replayed_flags(start, updates),
    ensures
        chained(start, updates.push(update)),
{
    let longer = updates.push(update);
    assert forall|i: int| 0 <= i < longer.len() implies (#[trigger] longer[i]).previous_flags
        == replayed_flags(start, longer.take(i)) by {
        assert(longer.take(i) =~= updates.take(i));
        if i < updates.len() {
            assert(longer[i] == updates[i]);
        } else {
            assert(updates.take(i) =~= updates);
        }
    }
}

/// Every accepted change of a bounty's flags is reported once, also where the
/// flags stay the same, with the flags from before it and those after it; no
/// other operation reports a change of the bounty.
pub proof fn law_each_change_is_reported_once(
    host: HostView,
    op: Operation,
    now: u64,
    bounty_id: u64,
)
    ensures
        ({
            let after = op.outcome(host, now).0;
            let before_updates = reported_updates(host.events, bounty_id);
            let after_updates = reported_updates(after.events, bounty_id);
            if changes(op, host, now, bounty_id) {
                &&& after_updates.len() == before_updates.len() + 1
                &&& after_updates.drop_last() == before_updates
                &&& after_updates.last().previous_flags == host.flags(bounty_id)
                &&& after_updates.last().new_flags == after.flags(bounty_id)
                &&& after_updates.last().timestamp == now
            } else {
                &&& after_updates == before_updates
                &&& after.flags(bounty_id) == host.flags(bounty_id)
            }
        }),
{
    lemma_slots_differ(op.bounty(), bounty_id);
    let after = op.outcome(host, now).0;
    let before_updates = reported_updates(host.events, bounty_id);
    if after.events.len() > host.events.len() {
        let first = after.events[host.events.len() as int];
        let once = host.events.push(first);
        lemma_updates_push(host.events, first, bounty_id);
        if after.events.len() == host.events.len() + 1 {
            assert(after.events =~= once);
        } else {
            let second = after.events[host.events.len() as int + 1];
            lemma_updates_push(once, second, bounty_id);
            assert(after.events =~= once.push(second));
        }
    }
    if changes(op, host, now, bounty_id) {
        assert(reported_updates(after.events, bounty_id).drop_last() =~= before_updates);
    }
}

/// The events stay a complete log: where they are one before an operation, they
/// are one after it.
pub proof fn law_events_tell_the_flags(
    host: HostView,
    op: Operation,
    now: u64,
    start: u32,
    bounty_id: u64,
)
    requires
        logged(host, start, bounty_id),
    ensures
        logged(op.outcome(host, now).0, start, bounty_id),
{
    law_each_change_is_reported_once(host, op, now, bounty_id);
    if changes(op, host, now, bounty_id) {
        let updates = reported_updates(host.events, bounty_id);
        let longer = reported_updates(op.outcome(host, now).0.events, bounty_id);
        lemma_chain_push(start, updates, longer.last());
        assert(longer =~= updates.push(longer.last()));
    }
}

/// What the operations keep: all flags, those of pending proposals too, are
/// known ones, and each pending proposal waits for a time after it was made.
pub open spec fn sound(host: HostView) -> bool {
    &&& forall|bounty_id: u64| known(#[trigger] host.flags(bounty_id))
    &&& forall|bounty_id: u64|
        #[trigger] host.proposal(bounty_id) matches Some(proposal) ==> {
            &&& known(proposal.proposed_flags)
            &&& proposal.proposed_at < proposal.execute_after || proposal.execute_after == u64::MAX
        }
}

/// Every operation keeps the flags sound.
pub proof fn law_soundness_is_kept(host: HostView, op: Operation, now: u64)
    requires
        sound(host),
    ensures
        sound(op.outcome(host, now).0),
{
    let after = op.outcome(host, now).0;
    assert forall|bounty_id: u64| known(#[trigger] after.flags(bounty_id)) by {
        lemma_slots_differ(op.bounty(), bounty_id);
        assert(known(host.flags(bounty_id)));
        if op is Execute {
            assert(host.proposal(op.bounty()) is Some ==> known(
                host.proposal(op.bounty()).unwrap().proposed_flags,
            ));
        }
    }
    assert forall|bounty_id: u64|
        #[trigger] after.proposal(bounty_id) matches Some(proposal) ==> {
            &&& known(proposal.proposed_flags)
            &&& proposal.proposed_at < proposal.execute_after || proposal.execute_after == u64::MAX
        } by {
        lemma_slots_differ(bounty_id, op.bounty());
        assert(host.proposal(bounty_id) matches Some(proposal) ==> known(
            proposal.proposed_flags,
        ));
    }
}

/// The state after a history of operations, each with its time.
pub open spec fn run(host: HostView, history: Seq<(Operation, u64)>) -> HostView
    decreases history.len(),
{
    if history.len() == 0 {
        host
    } else {
        let (op, now) = history.last();
        op.outcome(run(host, history.drop_last()), now).0
    }
}

/// The state that step `i` of a history meets.
pub open spec fn state_at(host: HostView, history: Seq<(Operation, u64)>, i: int) -> HostView {
    run(host, history.take(i))
}

/// Whether step `i` of a history is refused in the state that it meets.
pub open spec fn refused_at(host: HostView, history: Seq<(Operation, u64)>, i: int) -> bool {
    history[i].0.outcome(state_at(host, history, i), history[i].1).1 is Err
}

/// The steps of a shorter history meet what they met in the longer one.
proof fn lemma_shorter_history(host: HostView, history: Seq<(Operation, u64)>)
    requires
        history.len() > 0,
    ensures
        state_at(host, history, history.len() - 1) == run(host, history.drop_last()),
        forall|i: int|
            0 <= i < history.len() - 1 ==> {
                &&& history.drop_last()[i] == history[i]
                &&& #[trigger] refused_at(host, history.drop_last(), i) == refused_at(
                    host,
                    history,
                    i,
                )
            },
{
    assert(history.take(history.len() - 1) =~= history.drop_last());
    assert forall|i: int| 0 <= i < history.len() - 1 implies {
        &&& history.drop_last()[i] == history[i]
        &&& #[trigger] refused_at(host, history.drop_last(), i) == refused_at(host, history, i)
    } by {
        assert(history.drop_last().take(i) =~= history.take(i));
    }
}

/// A bounty's proposal, or its absence, stays through any history in which each
/// step that proposes, executes or cancels for the bounty is refused.
pub proof fn law_proposal_stays(host: HostView, history: Seq<(Operation, u64)>, bounty_id: u64)
    requires
        forall|i: int|
            0 <= i < history.len() && history[i].0.bounty() == bounty_id && (history[i].0 is Propose
                || history[i].0 is Execute || history[i].0 is Cancel) ==> #[trigger] refused_at(
                host,
                history,
                i,
            ),
    ensures
        run(host, history).persistent.contains_key(proposal_slot(bounty_id))
            == host.persistent.contains_key(proposal_slot(bounty_id)),
        run(host, history).persistent[proposal_slot(bounty_id)]
            == host.persistent[proposal_slot(bounty_id)],
        run(host, history).proposal(bounty_id) == host.proposal(bounty_id),
    decreases history.len(),
{
    if history.len() > 0 {
        let last = history.len() - 1;
        lemma_shorter_history(host, history);
        law_proposal_stays(host, history.drop_last(), bounty_id);
        lemma_slots_differ(bounty_id, history[last].0.bounty());
        if history[last].0.bounty() == bounty_id && (history[last].0 is Propose
            || history[last].0 is Execute || history[last].0 is Cancel) {
            assert(refused_at(host, history, last));
        }
    }
}

/// A pending proposal holds to its delay through any history: where no other
/// proposal and no cancellation for the bounty is accepted, and none asks for the
/// execution once the time has come, the proposal is still pending.
pub proof fn law_delay_holds_through_history(
    host: HostView,
    history: Seq<(Operation, u64)>,
    bounty_id: u64,
)
    requires
        host.proposal(bounty_id) is Some,
        forall|i: int|
            0 <= i < history.len() && history[i].0.bounty() == bounty_id && (history[i].0 is Propose
                || history[i].0 is Cancel) ==> #[trigger] refused_at(host, history, i),
        forall|i: int|
            0 <= i < history.len() && (#[trigger] history[i]).0.bounty() == bounty_id
                && history[i].0 is Execute ==> history[i].1 < host.proposal(
                bounty_id,
            ).unwrap().execute_after,
    ensures
        run(host, history).proposal(bounty_id) == host.proposal(bounty_id),
    decreases history.len(),
{
    if history.len() > 0 {
        let last = history.len() - 1;
        lemma_shorter_history(host, history);
        law_delay_holds_through_history(host, history.drop_last(), bounty_id);
        lemma_slots_differ(bounty_id, history[last].0.bounty());
        if history[last].0.bounty() == bounty_id && (history[last].0 is Propose
            || history[last].0 is Cancel) {
            assert(refused_at(host, history, last));
        }
    }
}

/// A proposal that was carried out or cancelled stays gone: through any history
/// in which no proposal for the bounty is accepted there is none, and a request
/// to execute it is answered with `BountyNotFound`.
pub proof fn law_gone_proposal_stays_gone(
    host: HostView,
    history: Seq<(Operation, u64)>,
    bounty_id: u64,
    now: u64,
)
    requires
        !host.persistent.contains_key(proposal_slot(bounty_id)),
        forall|i: int|
            0 <= i < history.len() && history[i].0.bounty() == bounty_id && history[i].0 is Propose
                ==> #[trigger] refused_at(host, history, i),
    ensures
        !run(host, history).persistent.contains_key(proposal_slot(bounty_id)),
        run(host, history).proposal(bounty_id) is None,
        execute_outcome(run(host, history), bounty_id, now) == (
            run(host, history),
            Err::<(), Error>(Error::BountyNotFound),
        ),
    decreases history.len(),
{
    if history.len() > 0 {
        let last = history.len() - 1;
        lemma_shorter_history(host, history);
        law_gone_proposal_stays_gone(host, history.drop_last(), bounty_id, now);
        lemma_slots_differ(bounty_id, history[last].0.bounty());
        if history[last].0.bounty() == bounty_id && history[last].0 is Propose {
            assert(refused_at(host, history, last));
        }
    }
}

/// An accepted execution or cancellation leaves the bounty without a proposal.
pub proof fn law_end_of_a_proposal(host: HostView, op: Operation, now: u64)
    requires
        op is Execute || op is Cancel,
        op.outcome(host, now).1 is Ok,
    ensures
        !op.outcome(host, now).0.persistent.contains_key(proposal_slot(op.bounty())),
{
}

/// How many steps of a history are accepted changes of the bounty's flags.
pub open spec fn change_count(
    host: HostView,
    history: Seq<(Operation, u64)>,
    bounty_id: u64,
) -> nat
    decreases history.len(),
{
    if history.len() == 0 {
        0
    } else {
        let (op, now) = history.last();
        let earlier = history.drop_last();
        change_count(host, earlier, bounty_id) + if changes(op, run(host, earlier), now, bounty_id) {
            1nat
        } else {
            0nat
        }
    }
}

/// After any history the flags are still sound.
pub proof fn law_any_history_is_sound(host: HostView, history: Seq<(Operation, u64)>)
    requires
        sound(host),
    ensures
        sound(run(host, history)),
    decreases history.len(),
{
    if history.len() > 0 {
        let (op, now) = history.last();
        law_any_history_is_sound(host, history.drop_last());
        law_soundness_is_kept(run(host, history.drop_last()), op, now);
    }
}

/// After any history the events are still a complete log: the reported changes
/// of a bounty form a chain from `start` to its flags, with exactly one more
/// for every accepted set, add, clear and execution.
pub proof fn law_any_history_is_logged(
    host: HostView,
    history: Seq<(Operation, u64)>,
    start: u32,
    bounty_id: u64,
)
    requires
        logged(host, start, bounty_id),
    ensures
        logged(run(host, history), start, bounty_id),
        reported_updates(run(host, history).events, bounty_id).len() == reported_updates(
            host.events,
            bounty_id,
        ).len() + change_count(host, history, bounty_id),
    decreases history.len(),
{
    if history.len() > 0 {
        let (op, now) = history.last();
        let before = run(host, history.drop_last());
        law_any_history_is_logged(host, history.drop_last(), start, bounty_id);
        law_events_tell_the_flags(before, op, now, start, bounty_id);
        law_each_change_is_reported_once(before, op, now, bounty_id);
    }
}

/// A host that has published nothing yet has a complete log, from the flags that
/// the bounty has.
pub proof fn law_log_starts_complete(host: HostView, bounty_id: u64)
    requires
        host.events.len() == 0,
    ensures
        logged(host, host.flags(bounty_id), bounty_id),
{
}

} // verus!
