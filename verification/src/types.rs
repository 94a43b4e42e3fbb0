//! The data that the operations read, write and report.

use vstd::prelude::*;

verus! {

/// Elevated risk; highlighted by user interfaces and indexers.
pub const RISK_FLAG_HIGH_RISK: u32 = 1;

/// A manual review is in progress.
pub const RISK_FLAG_UNDER_REVIEW: u32 = 2;

/// Compliance hold.
pub const RISK_FLAG_RESTRICTED: u32 = 4;

/// The bounty is softly deprecated.
pub const RISK_FLAG_DEPRECATED: u32 = 8;

/// The version that a [`RiskFlagsUpdated`] event carries.
pub const EVENT_VERSION_V2: u32 = 2;

/// Why an operation was refused.
#[derive(Clone, Copy, Debug, PartialEq, Eq, Structural)]
pub enum Error {
    /// No admin is stored yet.
    NotInitialized,
    /// The bounty, or the proposal that was asked for, does not exist.
    BountyNotFound,
    /// The caller is not the stored admin.
    Unauthorized,
    /// The flags hold unknown bits.
    InvalidAmount,
    /// A delay of zero seconds was asked for.
    InvalidDeadline,
    /// The delay of the proposal has not passed yet.
    DeadlineNotPassed,
}

/// An address of the network: an account by its public key, or a contract by
/// its hash.
#[derive(Clone, Copy, Debug, PartialEq, Eq)]
pub enum Address {
    /// The ed25519 public key of an account.
    Account([u8; 32]),
    /// The hash that identifies a contract.
    Contract([u8; 32]),
}

/// Whether two payloads hold the same bytes.
fn same_payload(left: &[u8; 32], right: &[u8; 32]) -> (r: bool)
    ensures
        r == (*left == *right),
{
    let mut i: usize = 0;
    while i < 32
        invariant
            i <= 32,
            forall|j: int| 0 <= j < i ==> left@[j] == right@[j],
        decreases 32 - i,
    {
        if left[i] != right[i] {
            assert(left@[i as int] != right@[i as int]);
            return false;
        }
        i = i + 1;
    }
    assert(left@ =~= right@);
    assert(*left =~= *right);
    true
}

impl Address {
    /// Whether two addresses are the same.
    pub fn same(&self, other: &Address) -> (r: bool)
        ensures
            r == (*self == *other),
    {
        match (self, other) {
            (Address::Account(left), Address::Account(right)) => same_payload(left, right),
            (Address::Contract(left), Address::Contract(right)) => same_payload(left, right),
            _ => false,
        }
    }
}

/// The metadata record of a bounty.
#[derive(Clone, Debug, PartialEq, Eq)]
pub struct EscrowMetadata {
    pub repo_id: u64,
    pub issue_id: u64,
    pub bounty_type: Vec<u8>,
    pub risk_flags: u32,
    pub notification_prefs: u32,
    pub reference_hash: Option<Vec<u8>>,
}

/// What an [`EscrowMetadata`] stands for.
#[verifier::ext_equal]
pub struct MetadataView {
    pub repo_id: u64,
    pub issue_id: u64,
    pub bounty_type: Seq<u8>,
    pub risk_flags: u32,
    pub notification_prefs: u32,
    pub reference_hash: Option<Seq<u8>>,
}

impl View for EscrowMetadata {
    type V = MetadataView;

    open spec fn view(&self) -> MetadataView {
        MetadataView {
            repo_id: self.repo_id,
            issue_id: self.issue_id,
            bounty_type: self.bounty_type@,
            risk_flags: self.risk_flags,
            notification_prefs: self.notification_prefs,
            reference_hash: match self.reference_hash {
                Some(hash) => Some(hash@),
                None => None,
            },
        }
    }
}

impl MetadataView {
    /// The record that stands in when a bounty has none: all fields empty or zero.
    pub open spec fn minimal() -> MetadataView {
        MetadataView {
            repo_id: 0,
            issue_id: 0,
            bounty_type: Seq::empty(),
            risk_flags: 0,
            notification_prefs: 0,
            reference_hash: None,
        }
    }

    /// The lengths of the byte fields are within what the host can hold.
    pub open spec fn fits(self) -> bool {
        &&& self.bounty_type.len() <= u32::MAX
        &&& self.reference_hash matches Some(hash) ==> hash.len() <= u32::MAX
    }
}

impl EscrowMetadata {
    /// The record that stands in when a bounty has none.
    pub fn minimal() -> (r: EscrowMetadata)
        ensures
            r@ == MetadataView::minimal(),
    {
        EscrowMetadata {
            repo_id: 0,
            issue_id: 0,
            bounty_type: Vec::new(),
            risk_flags: 0,
            notification_prefs: 0,
            reference_hash: None,
        }
    }
}

/// Whether the text can name a storage slot or an event: at most 32 letters,
/// digits and underscores.
pub open spec fn is_symbol(text: Seq<char>) -> bool {
    &&& text.len() <= 32
    &&& forall|i: int| 0 <= i < text.len() ==> is_symbol_char(#[trigger] text[i])
}

/// A letter, a digit or an underscore.
pub open spec fn is_symbol_char(c: char) -> bool {
    ||| 'a' <= c <= 'z'
    ||| 'A' <= c <= 'Z'
    ||| '0' <= c <= '9'
    ||| c == '_'
}

/// A key of the contract's own storage. A key is stored as its name, followed
/// by its bounty where it has one.
#[derive(Clone, Copy, Debug, PartialEq, Eq)]
pub enum DataKey {
    /// The contract admin, in instance storage.
    Admin,
    /// Present in instance storage while an operation is under way.
    ReentrancyGuard,
    /// The escrow of a bounty.
    Escrow(u64),
    /// The escrow of a bounty with an anonymous depositor.
    EscrowAnon(u64),
    /// The metadata of a bounty.
    Metadata(u64),
}

impl DataKey {
    /// The name of the key.
    pub open spec fn spec_name(self) -> Seq<char> {
        match self {
            DataKey::Admin => "Admin"@,
            DataKey::ReentrancyGuard => "ReentrancyGuard"@,
            DataKey::Escrow(_) => "Escrow"@,
            DataKey::EscrowAnon(_) => "EscrowAnon"@,
            DataKey::Metadata(_) => "Metadata"@,
        }
    }

    /// The name of the key.
    pub fn name(&self) -> (r: &'static str)
        ensures
            r@ == self.spec_name(),
            is_symbol(r@),
    {
        proof {
            reveal_strlit("Admin");
            reveal_strlit("ReentrancyGuard");
            reveal_strlit("Escrow");
            reveal_strlit("EscrowAnon");
            reveal_strlit("Metadata");
        }
        match self {
            DataKey::Admin => "Admin",
            DataKey::ReentrancyGuard => "ReentrancyGuard",
            DataKey::Escrow(_) => "Escrow",
            DataKey::EscrowAnon(_) => "EscrowAnon",
            DataKey::Metadata(_) => "Metadata",
        }
    }
}

/// The key of a pending risk-flag proposal.
#[derive(Clone, Copy, Debug, PartialEq, Eq)]
pub enum RiskFlagGovernanceKey {
    /// The proposal for a bounty.
    Proposal(u64),
}

impl RiskFlagGovernanceKey {
    /// The name of the key.
    pub open spec fn spec_name(self) -> Seq<char> {
        "Proposal"@
    }

    /// The name of the key.
    pub fn name(&self) -> (r: &'static str)
        ensures
            r@ == self.spec_name(),
            is_symbol(r@),
    {
        proof {
            reveal_strlit("Proposal");
        }
        "Proposal"
    }
}

/// The slots of a bounty in persistent storage are four different ones.
pub proof fn lemma_slots_differ(a: u64, b: u64)
    ensures
        DataKey::Escrow(a).spec_name() != DataKey::Metadata(b).spec_name(),
        DataKey::EscrowAnon(a).spec_name() != DataKey::Metadata(b).spec_name(),
        DataKey::Escrow(a).spec_name() != DataKey::EscrowAnon(b).spec_name(),
        RiskFlagGovernanceKey::Proposal(a).spec_name() != DataKey::Metadata(b).spec_name(),
        RiskFlagGovernanceKey::Proposal(a).spec_name() != DataKey::Escrow(b).spec_name(),
        RiskFlagGovernanceKey::Proposal(a).spec_name() != DataKey::EscrowAnon(b).spec_name(),
        DataKey::Admin.spec_name() != DataKey::ReentrancyGuard.spec_name(),
{
    reveal_strlit("Admin");
    reveal_strlit("ReentrancyGuard");
    reveal_strlit("Escrow");
    reveal_strlit("EscrowAnon");
    reveal_strlit("Metadata");
    reveal_strlit("Proposal");
    assert("Admin"@.len() != "ReentrancyGuard"@.len());
    assert("Escrow"@.len() != "EscrowAnon"@.len());
    assert("Metadata"@[0] != "Proposal"@[0]);
}

/// A pending change of risk flags.
#[derive(Clone, Copy, Debug, PartialEq, Eq)]
pub struct RiskFlagProposal {
    /// The flags to apply.
    pub proposed_flags: u32,
    /// The ledger time before which the change must not be carried out.
    pub execute_after: u64,
    /// The admin who made the proposal.
    pub proposed_by: Address,
    /// The ledger time at which the proposal was made.
    pub proposed_at: u64,
}

/// The event that reports a change of risk flags.
#[derive(Clone, Copy, Debug, PartialEq, Eq)]
pub struct RiskFlagsUpdated {
    pub version: u32,
    pub bounty_id: u64,
    pub previous_flags: u32,
    pub new_flags: u32,
    pub admin: Address,
    pub timestamp: u64,
}

/// The data of an event of the governance path.
#[derive(Clone, Copy, Debug, PartialEq, Eq)]
pub enum Notice {
    /// The proposed flags, the time from which they may be applied, and the admin.
    Proposed(u32, u64, Address),
    /// The flags applied, and who proposed them.
    Executed(u32, Address),
    /// The admin, and the time of the cancellation.
    Cancelled(Address, u64),
}

} // verus!
