use gaming_rewards::protocol::{audited_harvest, audited_slash};
use gaming_rewards::security::{OperationKind, SecurityManager};
use sha2::{Digest, Sha256};
use gaming_rewards::errors::GamingRewardsError;
use gaming_rewards::keys::Pubkey;
use gaming_rewards::oracle::{slash_oracle, OracleAccount, OracleOp, OracleStatus};
use gaming_rewards::treasury::Treasury;

const T0: i64 = 1_700_000_000;

#[test]
fn three_failures_suspend_an_oracle_with_enough_stake() {
    let mut o = OracleAccount::initialize(Pubkey::new([7; 32]), 10, 10, 2, T0).unwrap();
    assert_eq!(o.validate_stake(10), Ok(()));
    for k in 0..3 {
        o.record_verification(false, T0 + k);
    }
    assert_eq!(o.reputation_score, 0);
    assert_eq!(o.status, OracleStatus::Suspended);
    assert_eq!(o.stake_amount, 10);
    assert_eq!(o.failed_verifications, 3);
    assert_eq!(o.validate_stake(10), Err(GamingRewardsError::OracleNotActive));
}

#[test]
fn onboarding_needs_the_minimum_stake() {
    assert_eq!(
        OracleAccount::initialize(Pubkey::new([7; 32]), 9, 10, 0, T0).unwrap_err(),
        GamingRewardsError::InsufficientOracleStake
    );
    let o = OracleAccount::initialize(Pubkey::new([7; 32]), 10, 10, 0, T0).unwrap();
    assert_eq!(o.status, OracleStatus::Active);
    assert_eq!(o.validate_stake(11), Err(GamingRewardsError::InsufficientOracleStake));
}

#[test]
fn reputation_moves_status_both_ways() {
    let mut o = OracleAccount::initialize(Pubkey::new([7; 32]), 10, 10, 49, T0).unwrap();
    o.record_verification(true, T0);
    assert_eq!(o.reputation_score, 50);
    assert_eq!(o.status, OracleStatus::Active);
    o.record_verification(false, T0);
    assert_eq!(o.status, OracleStatus::Suspended);
    o.reputation_score = 99;
    o.record_verification(true, T0 + 5);
    assert_eq!(o.reputation_score, 100);
    assert_eq!(o.status, OracleStatus::Active);
    assert_eq!(o.successful_verifications, 2);
    assert_eq!(o.last_activity, T0 + 5);
}

#[test]
fn slash_below_minimum_marks_slashed() {
    let mut o = OracleAccount::initialize(Pubkey::new([7; 32]), 100, 60, 100, T0).unwrap();
    assert_eq!(o.slash(40, T0), Ok(40));
    assert_eq!(o.stake_amount, 60);
    assert_eq!(o.status, OracleStatus::Active);
    assert_eq!(o.slash(61, T0), Err(GamingRewardsError::InsufficientStakeToSlash));
    assert_eq!(o.stake_amount, 60);
    assert_eq!(o.slash(1, T0 + 1), Ok(1));
    assert_eq!(o.stake_amount, 59);
    assert_eq!(o.status, OracleStatus::Slashed);
    assert_eq!(o.slash_count, 2);
    assert_eq!(o.last_slash_timestamp, T0 + 1);
    o.reputation_score = 500;
    o.record_verification(true, T0 + 2);
    assert_eq!(o.status, OracleStatus::Slashed);
    assert_eq!(o.validate_stake(1), Err(GamingRewardsError::OracleNotActive));
    assert_eq!(o.slash(59, T0 + 3), Ok(59));
    assert_eq!(o.stake_amount, 0);
}

#[test]
fn any_sequence_keeps_slashed_below_minimum() {
    let mut o = OracleAccount::initialize(Pubkey::new([7; 32]), 1000, 500, 60, T0).unwrap();
    let ops = [
        OracleOp::Slash { amount: 200, now: T0 },
        OracleOp::Verification { success: false, now: T0 + 1 },
        OracleOp::Slash { amount: 5000, now: T0 + 2 },
        OracleOp::Slash { amount: 301, now: T0 + 3 },
        OracleOp::Verification { success: true, now: T0 + 4 },
        OracleOp::Slash { amount: 499, now: T0 + 5 },
    ];
    for op in ops {
        o.apply(op);
        assert_eq!(o.stake_amount < o.min_stake, o.status == OracleStatus::Slashed);
    }
    assert_eq!(o.stake_amount, 0);
}

#[test]
fn slash_oracle_needs_the_treasury_authority() {
    let authority = Pubkey::new([1; 32]);
    let treasury = Treasury::initialize(authority, T0);
    let mut o = OracleAccount::initialize(Pubkey::new([7; 32]), 100, 60, 100, T0).unwrap();
    let r = slash_oracle(&treasury, &Pubkey::new([2; 32]), &mut o, 10, T0);
    assert_eq!(r.unwrap_err(), GamingRewardsError::Unauthorized);
    let r = slash_oracle(&treasury, &authority, &mut o, 0, T0);
    assert_eq!(r.unwrap_err(), GamingRewardsError::InvalidSlashAmount);
    let r = slash_oracle(&treasury, &authority, &mut o, 101, T0);
    assert_eq!(r.unwrap_err(), GamingRewardsError::InvalidSlashAmount);
    assert_eq!(o.stake_amount, 100);
    let event = slash_oracle(&treasury, &authority, &mut o, 50, T0 + 9).unwrap();
    assert_eq!(event.slash_amount, 50);
    assert_eq!(event.timestamp, T0 + 9);
    assert_eq!(event.oracle, Pubkey::new([7; 32]));
    assert_eq!(o.status, OracleStatus::Slashed);
}

#[test]
fn slash_count_overflow_is_refused_without_change() {
    let mut o = OracleAccount::initialize(Pubkey::new([7; 32]), 100, 10, 100, T0).unwrap();
    o.slash_count = u32::MAX;
    assert_eq!(o.slash(5, T0), Err(GamingRewardsError::ArithmeticOverflow));
    assert_eq!(o.stake_amount, 100);
}

#[test]
fn privileged_harvest_and_slash_are_audited() {
    let authority = Pubkey::new([1; 32]);
    let mut security = SecurityManager::initialize(Pubkey::new([4; 32])).unwrap();
    let mut treasury = Treasury::initialize(authority, T0);
    let stranger = Pubkey::new([2; 32]);
    assert_eq!(audited_harvest(&mut security, &mut treasury, &stranger, 1000, T0 + 3600).unwrap_err(), GamingRewardsError::Unauthorized);
    audited_harvest(&mut security, &mut treasury, &authority, 1000, T0 + 3600).unwrap();
    assert_eq!(treasury.user_rewards_pool, 500);
    let mut o = OracleAccount::initialize(Pubkey::new([7; 32]), 100, 60, 100, T0).unwrap();
    assert_eq!(audited_slash(&mut security, &treasury, &authority, &mut o, 500, T0).unwrap_err(), GamingRewardsError::InvalidSlashAmount);
    audited_slash(&mut security, &treasury, &authority, &mut o, 50, T0).unwrap();
    let log = &security.audit_trail;
    assert_eq!(log.len(), 4);
    assert_eq!(log.iter().map(|e| e.verified).collect::<Vec<_>>(), vec![false, true, false, true]);
    assert_eq!(log[1].operation, OperationKind::HarvestRebalance);
    let digest: [u8; 32] = Sha256::digest(b"1000").into();
    assert_eq!(log[1].parameters_hash, digest);
    assert_eq!(log[3].operation, OperationKind::EmergencyOperation);
    assert_eq!(log[3].user, authority);
}
