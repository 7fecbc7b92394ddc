use gaming_rewards::achievements::{AchievementRegistry, AchievementVerification, VerificationStatus};
use gaming_rewards::errors::GamingRewardsError;
use gaming_rewards::keys::Pubkey;
use gaming_rewards::oracle::OracleAccount;

const T0: i64 = 1_700_000_000;

fn record(value: u64, status: VerificationStatus) -> AchievementVerification {
    AchievementVerification {
        user: Pubkey::new([2; 32]),
        achievement_id: b"first-blood".to_vec(),
        achievement_value: value,
        verification_timestamp: T0,
        verifying_oracle: Pubkey::new([7; 32]),
        oracle_signature: vec![1],
        status,
        reward_amount: 0,
    }
}

#[test]
fn achievement_values_within_bounds() {
    assert_eq!(record(99, VerificationStatus::Pending).validate_achievement_value(), Err(GamingRewardsError::InvalidAchievementValue));
    assert_eq!(record(100, VerificationStatus::Pending).validate_achievement_value(), Ok(()));
    assert_eq!(record(10_000, VerificationStatus::Pending).validate_achievement_value(), Ok(()));
    assert_eq!(record(10_001, VerificationStatus::Pending).validate_achievement_value(), Err(GamingRewardsError::InvalidAchievementValue));
}

#[test]
fn reward_scales_with_value_and_bonus() {
    assert_eq!(record(250, VerificationStatus::Verified).calculate_reward(100), 25_000);
    assert_eq!(record(250, VerificationStatus::Verified).calculate_reward(150), 37_500);
    assert_eq!(record(3, VerificationStatus::Verified).calculate_reward(33), 99);
}

#[test]
fn verification_expires_after_the_window() {
    let r = record(500, VerificationStatus::Verified);
    assert!(r.is_valid(T0 + 3600));
    assert!(!r.is_valid(T0 + 3601));
    assert!(!record(500, VerificationStatus::Pending).is_valid(T0));
}

#[test]
fn an_achievement_pays_a_user_once() {
    let mut reg = AchievementRegistry::new();
    let mut oracle = OracleAccount::initialize(Pubkey::new([7; 32]), 1_000_000_000, 1_000_000_000, 100, T0).unwrap();
    let user = Pubkey::new([2; 32]);
    let event = reg.verify_achievement(&mut oracle, user, b"first-blood".to_vec(), 500, vec![1], 120, T0).unwrap();
    assert_eq!(event.reward_amount, 60_000);
    assert_eq!(reg.records.len(), 1);
    assert_eq!(reg.records[0].status, VerificationStatus::Verified);
    assert!(reg.is_verified(&user, &b"first-blood".to_vec()));
    assert_eq!(oracle.successful_verifications, 1);
    let again = reg.verify_achievement(&mut oracle, user, b"first-blood".to_vec(), 500, vec![1], 120, T0 + 1);
    assert_eq!(again.unwrap_err(), GamingRewardsError::AchievementAlreadyVerified);
    assert_eq!(reg.records.len(), 1);
    assert_eq!(oracle.successful_verifications, 1);
    let other_user = Pubkey::new([3; 32]);
    assert!(reg.verify_achievement(&mut oracle, other_user, b"first-blood".to_vec(), 500, vec![1], 100, T0).is_ok());
    assert!(reg.verify_achievement(&mut oracle, user, b"headshot".to_vec(), 500, vec![1], 100, T0).is_ok());
    assert_eq!(reg.records.len(), 3);
}

#[test]
fn achievement_refusals() {
    let mut reg = AchievementRegistry::new();
    let mut oracle = OracleAccount::initialize(Pubkey::new([7; 32]), 1_000_000_000, 1_000_000_000, 100, T0).unwrap();
    let user = Pubkey::new([2; 32]);
    let r = reg.verify_achievement(&mut oracle, user, b"a".to_vec(), 99, vec![1], 100, T0);
    assert_eq!(r.unwrap_err(), GamingRewardsError::InvalidAchievementValue);
    let r = reg.verify_achievement(&mut oracle, user, b"a".to_vec(), 10_000, vec![1], u64::MAX, T0);
    assert_eq!(r.unwrap_err(), GamingRewardsError::ArithmeticOverflow);
    oracle.status = gaming_rewards::oracle::OracleStatus::Suspended;
    let r = reg.verify_achievement(&mut oracle, user, b"a".to_vec(), 500, vec![1], 100, T0);
    assert_eq!(r.unwrap_err(), GamingRewardsError::OracleNotActive);
    assert_eq!(reg.records.len(), 0);
}
