use risk_flags::risk_flag::{
    check_admin, make_proposal, replace_flags, validate_flags, RiskFlagGovernanceKey,
    RiskFlagProposal, RISK_FLAGS_ALL_KNOWN,
};
use risk_flags::types::{
    Address, DataKey, Error, EscrowMetadata, RISK_FLAG_DEPRECATED, RISK_FLAG_HIGH_RISK,
    RISK_FLAG_RESTRICTED, RISK_FLAG_UNDER_REVIEW,
};

#[test]
fn the_flags_are_the_four_lowest_bits() {
    assert_eq!(RISK_FLAG_HIGH_RISK, 1);
    assert_eq!(RISK_FLAG_UNDER_REVIEW, 2);
    assert_eq!(RISK_FLAG_RESTRICTED, 4);
    assert_eq!(RISK_FLAG_DEPRECATED, 8);
    assert_eq!(RISK_FLAGS_ALL_KNOWN, 15);
}

#[test]
fn only_known_bits_are_valid() {
    for flags in 0..16u32 {
        assert_eq!(validate_flags(flags), Ok(()));
    }
    for bit in 4..32u32 {
        assert_eq!(validate_flags(1 << bit), Err(Error::InvalidAmount));
        assert_eq!(validate_flags((1 << bit) | 3), Err(Error::InvalidAmount));
    }
    assert_eq!(validate_flags(u32::MAX), Err(Error::InvalidAmount));
}

#[test]
fn the_admin_is_checked_in_order() {
    let admin = Address::Account([1; 32]);
    let other = Address::Account([2; 32]);
    let contract = Address::Contract([1; 32]);
    assert_eq!(check_admin(false, false, None, &admin), Err(Error::NotInitialized));
    assert_eq!(check_admin(true, false, Some(other), &admin), Err(Error::BountyNotFound));
    assert_eq!(check_admin(true, true, Some(other), &admin), Err(Error::Unauthorized));
    assert_eq!(check_admin(true, true, Some(contract), &admin), Err(Error::Unauthorized));
    assert_eq!(check_admin(true, true, Some(admin), &admin), Ok(()));
    assert_eq!(check_admin(true, true, Some(contract), &contract), Ok(()));
}

#[test]
fn addresses_differ_in_any_byte() {
    let mut last = [7; 32];
    last[31] = 8;
    assert!(Address::Contract([7; 32]).same(&Address::Contract([7; 32])));
    assert!(!Address::Contract([7; 32]).same(&Address::Contract(last)));
    assert!(!Address::Contract([7; 32]).same(&Address::Account([7; 32])));
}

#[test]
fn only_the_flags_of_a_record_are_replaced() {
    let record = EscrowMetadata {
        repo_id: 1,
        issue_id: 2,
        bounty_type: vec![3],
        risk_flags: 4,
        notification_prefs: 5,
        reference_hash: Some(vec![6]),
    };
    let expected = EscrowMetadata { risk_flags: 9, ..record.clone() };
    assert_eq!(replace_flags(Some(record), 9), expected);
    assert_eq!(
        replace_flags(None, 9),
        EscrowMetadata {
            repo_id: 0,
            issue_id: 0,
            bounty_type: vec![],
            risk_flags: 9,
            notification_prefs: 0,
            reference_hash: None,
        }
    );
}

#[test]
fn a_proposal_is_due_after_its_delay() {
    let admin = Address::Contract([3; 32]);
    let proposal = |execute_after: u64, proposed_at: u64| RiskFlagProposal {
        proposed_flags: 6,
        execute_after,
        proposed_by: admin,
        proposed_at,
    };
    assert_eq!(make_proposal(&admin, 6, 50, 100), Ok(proposal(150, 100)));
    assert_eq!(make_proposal(&admin, 6, 1, u64::MAX - 1), Ok(proposal(u64::MAX, u64::MAX - 1)));
    assert_eq!(make_proposal(&admin, 6, 2, u64::MAX - 1), Ok(proposal(u64::MAX, u64::MAX - 1)));
    assert_eq!(make_proposal(&admin, 6, 0, 100), Err(Error::InvalidDeadline));
    assert_eq!(make_proposal(&admin, 64, 0, 100), Err(Error::InvalidDeadline));
    assert_eq!(make_proposal(&admin, 64, 5, 100), Err(Error::InvalidAmount));
}

#[test]
fn keys_have_their_names() {
    assert_eq!(DataKey::Admin.name(), "Admin");
    assert_eq!(DataKey::ReentrancyGuard.name(), "ReentrancyGuard");
    assert_eq!(DataKey::Escrow(1).name(), "Escrow");
    assert_eq!(DataKey::EscrowAnon(1).name(), "EscrowAnon");
    assert_eq!(DataKey::Metadata(1).name(), "Metadata");
    assert_eq!(RiskFlagGovernanceKey::Proposal(1).name(), "Proposal");
}
