use gaming_rewards::keys::Pubkey;
use gaming_rewards::security::{
    default_policy, OperationKind, SecurityError, SecurityLevel, SecurityManager, VerificationType,
};
use sha2::{Digest, Sha256};

const T0: i64 = 1_700_000_000;

fn manager() -> (SecurityManager, Pubkey) {
    let owner = Pubkey::new([4; 32]);
    (SecurityManager::initialize(owner).unwrap(), owner)
}

#[test]
fn the_zero_key_cannot_own_the_engine() {
    assert_eq!(SecurityManager::initialize(Pubkey::default_key()).unwrap_err(), SecurityError::InvalidOwner);
    let (m, owner) = manager();
    assert_eq!(m.owner, owner);
    assert!(!m.emergency_paused);
    assert_eq!(m.audit_trail.len(), 0);
}

#[test]
fn pause_and_resume_are_owner_only_and_always_logged() {
    let (mut m, owner) = manager();
    let stranger = Pubkey::new([5; 32]);
    assert_eq!(m.emergency_pause(&stranger, T0), Err(SecurityError::Unauthorized));
    assert!(!m.emergency_paused);
    assert_eq!(m.resume_operations(&owner, T0), Err(SecurityError::NotPaused));
    assert_eq!(m.emergency_pause(&owner, T0 + 1), Ok(()));
    assert!(m.emergency_paused);
    assert_eq!(m.security_incidents, 1);
    assert_eq!(m.emergency_pause(&owner, T0 + 2), Err(SecurityError::AlreadyPaused));
    assert_eq!(m.resume_operations(&stranger, T0 + 3), Err(SecurityError::Unauthorized));
    assert_eq!(m.resume_operations(&owner, T0 + 4), Ok(()));
    assert!(!m.emergency_paused);
    let verified: Vec<bool> = m.audit_trail.iter().map(|e| e.verified).collect();
    assert_eq!(verified, vec![false, false, true, false, false, true]);
    assert_eq!(m.audit_trail[5].timestamp, T0 + 4);
    assert_eq!(m.audit_trail[0].user, stranger);
}

#[test]
fn audit_entries_keep_only_a_digest_of_parameters() {
    let (mut m, owner) = manager();
    m.add_audit_entry(OperationKind::ClaimReward, &owner, b"secret params", SecurityLevel::Medium, true, T0);
    let expected: [u8; 32] = Sha256::digest(b"secret params").into();
    assert_eq!(m.audit_trail[0].parameters_hash, expected);
    assert_ne!(&m.audit_trail[0].parameters_hash[..13], b"secret params");
    assert_eq!(m.audit_trail[0].operation, OperationKind::ClaimReward);
}

#[test]
fn audit_log_evicts_the_oldest_entry() {
    let (mut m, owner) = manager();
    for k in 0..10_001i64 {
        m.add_audit_entry(OperationKind::ClaimReward, &owner, &[], SecurityLevel::Low, true, k);
    }
    assert_eq!(m.audit_trail.len(), 10_000);
    assert_eq!(m.audit_trail[0].timestamp, 1);
    assert_eq!(m.audit_trail[9_999].timestamp, 10_000);
}

#[test]
fn operation_checks_pause_rate_level_and_verifications() {
    let (mut m, owner) = manager();
    let user = Pubkey::new([6; 32]);
    let both = vec![VerificationType::Oracle, VerificationType::Stake];
    assert!(m.verify_operation(OperationKind::ClaimReward, &user, T0, &both));
    assert!(!m.verify_operation(OperationKind::ClaimReward, &user, T0, &vec![VerificationType::Oracle]));
    m.add_audit_entry(OperationKind::ClaimReward, &user, &[], SecurityLevel::Medium, true, T0);
    assert!(!m.verify_operation(OperationKind::ClaimReward, &user, T0 + 100, &both));
    assert_eq!(m.count_recent(OperationKind::ClaimReward, &user, T0), 1);
    assert_eq!(m.count_recent(OperationKind::ClaimReward, &owner, T0), 0);
    assert!(m.verify_operation(OperationKind::ClaimReward, &user, T0 + 86_401, &both));
    let emergency = vec![VerificationType::MultiSignature, VerificationType::TimeLock, VerificationType::Oracle];
    assert!(!m.verify_operation(OperationKind::EmergencyOperation, &user, T0, &emergency));
    assert!(m.verify_operation(OperationKind::EmergencyOperation, &owner, T0, &emergency));
    m.emergency_pause(&owner, T0).unwrap();
    assert!(!m.verify_operation(OperationKind::ClaimReward, &owner, T0 + 90_000, &both));
}

#[test]
fn policies_can_be_replaced_by_the_owner() {
    let (mut m, owner) = manager();
    let mut relaxed = default_policy(OperationKind::HarvestRebalance);
    relaxed.rate_limit.max_operations = 3;
    relaxed.required_verifications = vec![];
    assert_eq!(
        m.update_security_policy(OperationKind::HarvestRebalance, relaxed.clone(), &Pubkey::new([5; 32]), T0),
        Err(SecurityError::Unauthorized)
    );
    assert_eq!(m.policy(OperationKind::HarvestRebalance).rate_limit.max_operations, 1);
    assert_eq!(m.update_security_policy(OperationKind::HarvestRebalance, relaxed, &owner, T0), Ok(()));
    assert_eq!(m.policy(OperationKind::HarvestRebalance).rate_limit.max_operations, 3);
    assert!(m.verify_operation(OperationKind::HarvestRebalance, &owner, T0, &vec![]));
    assert_eq!(m.audit_trail.len(), 2);
}

#[test]
fn pause_counts_an_incident_only_when_it_pauses() {
    let (mut m, owner) = manager();
    assert_eq!(m.security_incidents, 0);
    m.emergency_pause(&Pubkey::new([5; 32]), T0).unwrap_err();
    assert_eq!(m.security_incidents, 0);
    m.emergency_pause(&owner, T0).unwrap();
    assert_eq!(m.security_incidents, 1);
    m.emergency_pause(&owner, T0).unwrap_err();
    assert_eq!(m.security_incidents, 1);
    m.resume_operations(&owner, T0).unwrap();
    assert_eq!(m.security_incidents, 1);
    assert_eq!(m.multisig_threshold, 3);
}
