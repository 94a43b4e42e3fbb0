//! The Soroban host, as the operations see it.
//!
//! Everything that the library asks of `soroban_sdk` stands here. Verus does
//! not read the bodies of these functions: each doc comment names the function
//! of the crate that is called and says what is believed of it.
//!
//! The functions that change persistent storage, publish events or ask for an
//! authorization require the reentrancy guard to be taken. The host does not ask
//! for that; it is the library's own rule, and holds of every operation.

use soroban_sdk::address_payload::AddressPayload;
use soroban_sdk::{
    Address as SdkAddress, Bytes, BytesN, Env, IntoVal, Map as SdkMap, String as SdkString, Symbol,
    TryIntoVal, Val,
};
use vstd::prelude::*;

use crate::types::{
    is_symbol, Address, EscrowMetadata, MetadataView, Notice, RiskFlagProposal, RiskFlagsUpdated,
};

verus! {

/// `soroban_sdk::Env`, the handle through which a contract call reaches its
/// host.
///
/// The host hands an `Env` to a contract function when it calls it, and an
/// `Env` in this library is always one of a contract call that is running. The
/// names below describe the host behind the handle. Clones of a handle share
/// their host, so a function that changes the host takes the handle as `&mut`,
/// and no other clone may be used to write in the meantime. The host ends a
/// transaction that exceeds its declared footprint or its resource limits, as
/// an operating system ends a process that runs out of memory.
#[verifier::external_type_specification]
#[verifier::external_body]
pub struct ExEnv(Env);

/// What a storage slot holds.
pub enum StoredValue {
    /// An address.
    Address(Address),
    /// A boolean.
    Flag(bool),
    /// A metadata record.
    Metadata(MetadataView),
    /// A proposal.
    Proposal(RiskFlagProposal),
    /// Something else.
    Other,
}

/// The data of a published event.
pub enum EventData {
    /// A change of risk flags.
    Update(RiskFlagsUpdated),
    /// A step of the governance path.
    Notice(Notice),
}

/// A published event: its two topics and its data.
pub struct PublishedEvent {
    pub topic: Seq<char>,
    pub bounty_id: u64,
    pub data: EventData,
}

/// What the instance storage of the running contract holds, by name.
pub uninterp spec fn instance_entries(env: Env) -> Map<Seq<char>, StoredValue>;

/// What the persistent storage of the running contract holds, by name and
/// bounty. What is held under the name of metadata is read as a metadata record,
/// and what is held under the name of a proposal as a proposal.
pub uninterp spec fn persistent_entries(env: Env) -> Map<(Seq<char>, u64), StoredValue>;

/// The events that the running contract call has published, in order.
pub uninterp spec fn published_events(env: Env) -> Seq<PublishedEvent>;

/// The addresses whose authorization the running contract call has asked for
/// and been given.
pub uninterp spec fn given_auths(env: Env) -> Set<Address>;

/// The addresses, other than that of the running contract itself, whose
/// authorization of the running contract call is at hand and has not been asked
/// for yet.
pub uninterp spec fn pending_auths(env: Env) -> Set<Address>;

/// The part of the host that the operations read and change.
#[verifier::ext_equal]
pub struct HostView {
    pub instance: Map<Seq<char>, StoredValue>,
    pub persistent: Map<(Seq<char>, u64), StoredValue>,
    pub events: Seq<PublishedEvent>,
    pub auths: Set<Address>,
}

/// The part of the host behind `env` that the operations read and change.
pub open spec fn host_view(env: Env) -> HostView {
    HostView {
        instance: instance_entries(env),
        persistent: persistent_entries(env),
        events: published_events(env),
        auths: given_auths(env),
    }
}

/// `Instance::has` of `soroban_sdk::storage`: whether instance storage holds
/// anything under the name.
#[verifier::external_body]
pub(crate) fn instance_has(env: &Env, name: &str) -> (r: bool)
    requires
        is_symbol(name@),
    ensures
        r == instance_entries(*env).contains_key(name@),
{
    env.storage().instance().has(&(Symbol::new(env, name),))
}

/// `Instance::get` of `soroban_sdk::storage`: the address that instance storage
/// holds under the name, and nothing where it holds no address there.
#[verifier::external_body]
pub(crate) fn instance_address(env: &Env, name: &str) -> (r: Option<Address>)
    requires
        is_symbol(name@),
    ensures
        match r {
            Some(address) => instance_entries(*env).contains_pair(
                name@,
                StoredValue::Address(address),
            ),
            None => instance_entries(*env).contains_key(name@) ==> !(instance_entries(
                *env,
            )[name@] is Address),
        },
{
    let value: Val = env.storage().instance().get(&(Symbol::new(env, name),))?;
    let address: SdkAddress = value.try_into_val(env).ok()?;
    match address.to_payload()? {
        AddressPayload::AccountIdPublicKeyEd25519(key) => Some(Address::Account(key.to_array())),
        AddressPayload::ContractIdHash(hash) => Some(Address::Contract(hash.to_array())),
    }
}

/// `Instance::set` of `soroban_sdk::storage`, for a boolean: the name then
/// holds the flag, and nothing else changes.
#[verifier::external_body]
pub(crate) fn instance_set_flag(env: &mut Env, name: &str, flag: bool)
    requires
        is_symbol(name@),
    ensures
        host_view(*final(env)) == (HostView {
            instance: instance_entries(*old(env)).insert(name@, StoredValue::Flag(flag)),
            ..host_view(*old(env))
        }),
        pending_auths(*final(env)) == pending_auths(*old(env)),
{
    env.storage().instance().set(&(Symbol::new(env, name),), &flag)
}

/// `Instance::remove` of `soroban_sdk::storage`: the name then holds nothing,
/// and nothing else changes.
#[verifier::external_body]
pub(crate) fn instance_remove(env: &mut Env, name: &str)
    requires
        is_symbol(name@),
    ensures
        host_view(*final(env)) == (HostView {
            instance: instance_entries(*old(env)).remove(name@),
            ..host_view(*old(env))
        }),
        pending_auths(*final(env)) == pending_auths(*old(env)),
{
    env.storage().instance().remove(&(Symbol::new(env, name),))
}

/// `Persistent::has` of `soroban_sdk::storage`: whether persistent storage
/// holds anything under the name for the bounty.
#[verifier::external_body]
pub(crate) fn persistent_has(env: &Env, name: &str, bounty_id: u64) -> (r: bool)
    requires
        is_symbol(name@),
    ensures
        r == persistent_entries(*env).contains_key((name@, bounty_id)),
{
    env.storage().persistent().has(&(Symbol::new(env, name), bounty_id))
}

/// `Persistent::get` of `soroban_sdk::storage`: the metadata record that
/// persistent storage holds under the name for the bounty, and nothing where it
/// holds no such record there. A record is stored as a map from its field names;
/// other fields of the map are passed over.
#[verifier::external_body]
pub(crate) fn persistent_metadata(env: &Env, name: &str, bounty_id: u64) -> (r: Option<
    EscrowMetadata,
>)
    requires
        name@ == "Metadata"@,
    ensures
        match r {
            Some(record) => record@.fits() && persistent_entries(*env).contains_pair(
                (name@, bounty_id),
                StoredValue::Metadata(record@),
            ),
            None => persistent_entries(*env).contains_key((name@, bounty_id)) ==> !(
            persistent_entries(*env)[(name@, bounty_id)] is Metadata),
        },
{
    let value: Val = env.storage().persistent().get(&(Symbol::new(env, name), bounty_id))?;
    let map: SdkMap<Symbol, Val> = value.try_into_val(env).ok()?;
    let values = [
        "repo_id", "issue_id", "bounty_type", "risk_flags", "notification_prefs", "reference_hash",
    ].map(|field| map.get(Symbol::new(env, field)).unwrap_or(().into()));
    let (repo_id, issue_id, bounty_type, risk_flags, notification_prefs, reference_hash):
        (u64, u64, SdkString, u32, u32, Option<Bytes>) = values.try_into_val(env).ok()?;
    Some(EscrowMetadata {
        repo_id, issue_id, risk_flags, notification_prefs,
        bounty_type: bounty_type.to_bytes().to_alloc_vec(),
        reference_hash: reference_hash.map(|hash| hash.to_alloc_vec()),
    })
}

/// `Persistent::get` of `soroban_sdk::storage`: the proposal that persistent
/// storage holds under the name for the bounty, and nothing where it holds no
/// proposal there. A proposal is stored as a map from its field names; other
/// fields of the map are passed over.
#[verifier::external_body]
pub(crate) fn persistent_proposal(env: &Env, name: &str, bounty_id: u64) -> (r: Option<
    RiskFlagProposal,
>)
    requires
        name@ == "Proposal"@,
    ensures
        match r {
            Some(proposal) => persistent_entries(*env).contains_pair(
                (name@, bounty_id),
                StoredValue::Proposal(proposal),
            ),
            None => persistent_entries(*env).contains_key((name@, bounty_id)) ==> !(
            persistent_entries(*env)[(name@, bounty_id)] is Proposal),
        },
{
    let value: Val = env.storage().persistent().get(&(Symbol::new(env, name), bounty_id))?;
    let map: SdkMap<Symbol, Val> = value.try_into_val(env).ok()?;
    let values = ["proposed_flags", "execute_after", "proposed_by", "proposed_at"]
        .map(|field| map.get(Symbol::new(env, field)).unwrap_or(().into()));
    let (proposed_flags, execute_after, by, proposed_at): (u32, u64, SdkAddress, u64) =
        values.try_into_val(env).ok()?;
    let proposed_by = match by.to_payload()? {
        AddressPayload::AccountIdPublicKeyEd25519(key) => Address::Account(key.to_array()),
        AddressPayload::ContractIdHash(hash) => Address::Contract(hash.to_array()),
    };
    Some(RiskFlagProposal { proposed_flags, execute_after, proposed_by, proposed_at })
}

/// `Persistent::set` of `soroban_sdk::storage`, for a metadata record: the slot
/// then holds the record, and nothing else changes.
#[verifier::external_body]
pub(crate) fn persistent_set_metadata(
    env: &mut Env,
    name: &str,
    bounty_id: u64,
    record: &EscrowMetadata,
)
    requires
        host_view(*old(env)).guarded(),
        name@ == "Metadata"@,
        record@.fits(),
    ensures
        host_view(*final(env)) == (HostView {
            persistent: persistent_entries(*old(env)).insert(
                (name@, bounty_id),
                StoredValue::Metadata(record@),
            ),
            ..host_view(*old(env))
        }),
        pending_auths(*final(env)) == pending_auths(*old(env)),
{
    let hash = record.reference_hash.as_ref().map(|bytes| Bytes::from_slice(env, bytes));
    let map: SdkMap<Symbol, Val> = SdkMap::from_array(env, [
        ("repo_id", record.repo_id.into_val(env)),
        ("issue_id", record.issue_id.into_val(env)),
        ("bounty_type", SdkString::from_bytes(env, &record.bounty_type).to_val()),
        ("risk_flags", record.risk_flags.into()),
        ("notification_prefs", record.notification_prefs.into()),
        ("reference_hash", hash.into_val(env)),
    ].map(|(field, value)| (Symbol::new(env, field), value)));
    env.storage().persistent().set(&(Symbol::new(env, name), bounty_id), &map)
}

/// `Persistent::set` of `soroban_sdk::storage`, for a proposal: the slot then
/// holds the proposal, and nothing else changes.
#[verifier::external_body]
pub(crate) fn persistent_set_proposal(
    env: &mut Env,
    name: &str,
    bounty_id: u64,
    proposal: &RiskFlagProposal,
)
    requires
        host_view(*old(env)).guarded(),
        name@ == "Proposal"@,
    ensures
        host_view(*final(env)) == (HostView {
            persistent: persistent_entries(*old(env)).insert(
                (name@, bounty_id),
                StoredValue::Proposal(*proposal),
            ),
            ..host_view(*old(env))
        }),
        pending_auths(*final(env)) == pending_auths(*old(env)),
{
    let by = match &proposal.proposed_by {
        Address::Account(key) => AddressPayload::AccountIdPublicKeyEd25519(BytesN::from_array(env, key)),
        Address::Contract(hash) => AddressPayload::ContractIdHash(BytesN::from_array(env, hash)),
    };
    let map: SdkMap<Symbol, Val> = SdkMap::from_array(env, [
        ("proposed_flags", proposal.proposed_flags.into()),
        ("execute_after", proposal.execute_after.into_val(env)),
        ("proposed_by", SdkAddress::from_payload(env, by).to_val()),
        ("proposed_at", proposal.proposed_at.into_val(env)),
    ].map(|(field, value)| (Symbol::new(env, field), value)));
    env.storage().persistent().set(&(Symbol::new(env, name), bounty_id), &map)
}

/// `Persistent::remove` of `soroban_sdk::storage`: the slot then holds nothing,
/// and nothing else changes.
#[verifier::external_body]
pub(crate) fn persistent_remove(env: &mut Env, name: &str, bounty_id: u64)
    requires
        host_view(*old(env)).guarded(),
        is_symbol(name@),
    ensures
        host_view(*final(env)) == (HostView {
            persistent: persistent_entries(*old(env)).remove((name@, bounty_id)),
            ..host_view(*old(env))
        }),
        pending_auths(*final(env)) == pending_auths(*old(env)),
{
    env.storage().persistent().remove(&(Symbol::new(env, name), bounty_id))
}

/// `Address::require_auth` of `soroban_sdk`: asks the host to confirm that the
/// address has authorized the running contract call. The call returns only
/// where the authorization is at hand; it is then recorded as given. The host
/// may run the contract behind the address to decide, but lets none call back
/// into the running one, whose storage and events stay as they were. Which
/// authorizations are at hand afterwards is left unsaid.
#[verifier::external_body]
pub(crate) fn require_auth(env: &mut Env, address: &Address)
    requires
        host_view(*old(env)).guarded(),
        pending_auths(*old(env)).contains(*address),
    ensures
        host_view(*final(env)) == (HostView {
            auths: given_auths(*old(env)).insert(*address),
            ..host_view(*old(env))
        }),
{
    let payload = match address {
        Address::Account(key) => AddressPayload::AccountIdPublicKeyEd25519(BytesN::from_array(env, key)),
        Address::Contract(hash) => AddressPayload::ContractIdHash(BytesN::from_array(env, hash)),
    };
    SdkAddress::from_payload(env, payload).require_auth()
}

/// `Ledger::timestamp` of `soroban_sdk::ledger`: the close time of the current
/// ledger, in seconds. Nothing is promised of the time.
#[verifier::external_body]
pub(crate) fn timestamp(env: &Env) -> (r: u64) {
    env.ledger().timestamp()
}

/// Whether `now` is a time that [`timestamp`] gives through `env`. Nothing is
/// said of which times these are; an operation that goes by such a time has asked
/// the ledger for it.
pub closed spec fn is_ledger_time(env: Env, now: u64) -> bool {
    call_ensures(timestamp, (&env,), now)
}

/// The ledger's times are what [`timestamp`] returns, unchanged, and nothing else.
pub(crate) proof fn law_ledger_times_are_as_returned(env: Env)
    ensures
        forall|now: u64| #[trigger]
            call_ensures(timestamp, (&env,), now) <==> is_ledger_time(env, now),
{
}

/// `Events::publish` of `soroban_sdk::events`, for a change of risk flags: the
/// event is added at the end of those published, and nothing else changes. Its
/// topics are the name and the bounty; its data is a map from the six field
/// names.
#[verifier::external_body]
#[allow(deprecated)]
pub(crate) fn publish_update(env: &mut Env, topic: &str, update: &RiskFlagsUpdated)
    requires
        host_view(*old(env)).guarded(),
        is_symbol(topic@),
    ensures
        host_view(*final(env)) == (HostView {
            events: published_events(*old(env)).push(
                PublishedEvent {
                    topic: topic@,
                    bounty_id: update.bounty_id,
                    data: EventData::Update(*update),
                },
            ),
            ..host_view(*old(env))
        }),
        pending_auths(*final(env)) == pending_auths(*old(env)),
{
    let admin = match &update.admin {
        Address::Account(key) => AddressPayload::AccountIdPublicKeyEd25519(BytesN::from_array(env, key)),
        Address::Contract(hash) => AddressPayload::ContractIdHash(BytesN::from_array(env, hash)),
    };
    let data: SdkMap<Symbol, Val> = SdkMap::from_array(env, [
        ("version", update.version.into()),
        ("bounty_id", update.bounty_id.into_val(env)),
        ("previous_flags", update.previous_flags.into()),
        ("new_flags", update.new_flags.into()),
        ("admin", SdkAddress::from_payload(env, admin).to_val()),
        ("timestamp", update.timestamp.into_val(env)),
    ].map(|(field, value)| (Symbol::new(env, field), value)));
    env.events().publish((Symbol::new(env, topic), update.bounty_id), data)
}

/// `Events::publish` of `soroban_sdk::events`, for a step of the governance
/// path: the event is added at the end of those published, and nothing else
/// changes. Its topics are the name and the bounty; its data are the values of
/// the notice, in order.
#[verifier::external_body]
#[allow(deprecated)]
pub(crate) fn publish_notice(env: &mut Env, topic: &str, bounty_id: u64, notice: &Notice)
    requires
        host_view(*old(env)).guarded(),
        is_symbol(topic@),
    ensures
        host_view(*final(env)) == (HostView {
            events: published_events(*old(env)).push(
                PublishedEvent { topic: topic@, bounty_id, data: EventData::Notice(*notice) },
            ),
            ..host_view(*old(env))
        }),
        pending_auths(*final(env)) == pending_auths(*old(env)),
{
    let of = |address: &Address| SdkAddress::from_payload(env, match address {
        Address::Account(key) => AddressPayload::AccountIdPublicKeyEd25519(BytesN::from_array(env, key)),
        Address::Contract(hash) => AddressPayload::ContractIdHash(BytesN::from_array(env, hash)),
    });
    let data: Val = match notice {
        Notice::Proposed(flags, after, admin) => (*flags, *after, of(admin)).into_val(env),
        Notice::Executed(flags, by) => (*flags, of(by)).into_val(env),
        Notice::Cancelled(admin, at) => (of(admin), *at).into_val(env),
    };
    env.events().publish((Symbol::new(env, topic), bounty_id), data)
}

} // verus!
