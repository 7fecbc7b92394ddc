//! Achievement records: an oracle attests that a user earned an achievement
//! of some value, and the user is owed a reward for it, once.
use vstd::prelude::*;
use crate::errors::GamingRewardsError;
use crate::keys::Pubkey;
use crate::oracle::{OracleAccount, MIN_ORACLE_STAKE};

verus! {

/// Smallest achievement value that earns a reward, in points.
pub const MIN_ACHIEVEMENT_VALUE: u64 = 100;

/// Largest achievement value that earns a reward, in points.
pub const MAX_ACHIEVEMENT_VALUE: u64 = 10_000;

/// How long, in seconds, a verification stays valid.
pub const ACHIEVEMENT_VERIFICATION_WINDOW: i64 = 3600;

/// Reward per achievement point, in lamports.
pub const LAMPORTS_PER_POINT: u64 = 100;

/// Where an achievement record stands.
#[derive(Clone, Copy, Debug, PartialEq, Eq, Structural)]
pub enum VerificationStatus {
    Pending,
    Verified,
    Rejected,
    Expired,
}

/// An oracle's attestation that a user earned an achievement.
#[derive(Clone, Debug)]
pub struct AchievementVerification {
    pub user: Pubkey,
    pub achievement_id: Vec<u8>,
    pub achievement_value: u64,
    pub verification_timestamp: i64,
    pub verifying_oracle: Pubkey,
    pub oracle_signature: Vec<u8>,
    pub status: VerificationStatus,
    pub reward_amount: u64,
}

/// All achievement records, keyed by user and achievement id.
#[derive(Clone, Debug)]
pub struct AchievementRegistry {
    pub records: Vec<AchievementVerification>,
}

/// What a verified achievement reports.
#[derive(Clone, Debug)]
pub struct AchievementVerifiedEvent {
    pub user: Pubkey,
    pub achievement_id: Vec<u8>,
    pub achievement_value: u64,
    pub reward_amount: u64,
    pub oracle: Pubkey,
    pub timestamp: i64,
}

/// The reward for an achievement of `value` points under a trust
/// multiplier of `bonus` percent.
pub open spec fn reward_for(value: u64, bonus: u64) -> int {
    value * LAMPORTS_PER_POINT * bonus / 100
}

/// Whether `r` is a verified record of achievement `id` for `user`.
pub open spec fn verified_for(r: AchievementVerification, user: Seq<u8>, id: Seq<u8>) -> bool {
    r.status == VerificationStatus::Verified && r.user@ == user && r.achievement_id@ == id
}

/// Whether achievement `id` is already verified for `user` among `records`.
pub open spec fn already_verified(records: Seq<AchievementVerification>, user: Seq<u8>, id: Seq<u8>) -> bool {
    exists|i: int| 0 <= i < records.len() && verified_for(#[trigger] records[i], user, id)
}

/// Whether two byte strings are equal.
fn bytes_equal(a: &Vec<u8>, b: &Vec<u8>) -> (r: bool)
    ensures
        r == (a@ == b@),
{
    if a.len() != b.len() {
        return false;
    }
    let mut i: usize = 0;
    while i < a.len()
        invariant
            0 <= i <= a@.len(),
            a@.len() == b@.len(),
            forall|j: int| 0 <= j < i ==> a@[j] == b@[j],
        decreases a@.len() - i,
    {
        if a[i] != b[i] {
            return false;
        }
        i = i + 1;
    }
    assert(a@ =~= b@);
    true
}

impl AchievementVerification {
    /// Why the value earns no reward, if it does not.
    pub open spec fn value_error(self) -> Option<GamingRewardsError> {
        if self.achievement_value < MIN_ACHIEVEMENT_VALUE || self.achievement_value > MAX_ACHIEVEMENT_VALUE {
            Some(GamingRewardsError::InvalidAchievementValue)
        } else {
            None
        }
    }

    /// Passes when the value lies within the rewarded range.
    pub fn validate_achievement_value(&self) -> (r: Result<(), GamingRewardsError>)
        ensures
            r is Ok <==> self.value_error() is None,
            r is Err ==> r->Err_0 == GamingRewardsError::InvalidAchievementValue,
    {
        if self.achievement_value < MIN_ACHIEVEMENT_VALUE {
            return Err(GamingRewardsError::InvalidAchievementValue);
        }
        if self.achievement_value > MAX_ACHIEVEMENT_VALUE {
            return Err(GamingRewardsError::InvalidAchievementValue);
        }
        Ok(())
    }

    /// Whether the record is verified and its verification is recent enough
    /// at time `now`.
    pub fn is_valid(&self, now: i64) -> (r: bool)
        ensures
            r == (self.status == VerificationStatus::Verified
                && now - self.verification_timestamp <= ACHIEVEMENT_VERIFICATION_WINDOW),
    {
        self.status == VerificationStatus::Verified
            && (now as i128) - (self.verification_timestamp as i128) <= ACHIEVEMENT_VERIFICATION_WINDOW as i128
    }

    /// The reward for this achievement under a trust multiplier of
    /// `user_bonus` percent.
    pub fn calculate_reward(&self, user_bonus: u64) -> (r: u64)
        requires
            self.achievement_value * LAMPORTS_PER_POINT * user_bonus <= u64::MAX,
        ensures
            r == reward_for(self.achievement_value, user_bonus),
    {
        let base = self.achievement_value as u128 * LAMPORTS_PER_POINT as u128;
        assert(base * (user_bonus as u128) <= u64::MAX) by (nonlinear_arith)
            requires
                base == self.achievement_value * LAMPORTS_PER_POINT,
                self.achievement_value * LAMPORTS_PER_POINT * user_bonus <= u64::MAX,
        ;
        let scaled = base * user_bonus as u128;
        (scaled / 100) as u64
    }
}

impl AchievementRegistry {
    /// The registry's invariant: an achievement is verified at most once per
    /// user.
    pub open spec fn wf(self) -> bool {
        forall|i: int, j: int|
            0 <= i < self.records@.len() && 0 <= j < self.records@.len()
                && #[trigger] self.records@[i].status == VerificationStatus::Verified
                && #[trigger] self.records@[j].status == VerificationStatus::Verified
                && self.records@[i].user@ == self.records@[j].user@
                && self.records@[i].achievement_id@ == self.records@[j].achievement_id@
                ==> i == j
    }

    /// Why an attestation of achievement `id` for `user` is refused, if it is.
    pub open spec fn attestation_error(self, oracle: OracleAccount, user: Pubkey, id: Seq<u8>, value: u64, user_bonus: u64) -> Option<GamingRewardsError> {
        if oracle.stake_error(MIN_ORACLE_STAKE) is Some {
            oracle.stake_error(MIN_ORACLE_STAKE)
        } else if value < MIN_ACHIEVEMENT_VALUE || value > MAX_ACHIEVEMENT_VALUE {
            Some(GamingRewardsError::InvalidAchievementValue)
        } else if already_verified(self.records@, user@, id) {
            Some(GamingRewardsError::AchievementAlreadyVerified)
        } else if value * LAMPORTS_PER_POINT * user_bonus > u64::MAX {
            Some(GamingRewardsError::ArithmeticOverflow)
        } else {
            None
        }
    }

    /// An empty registry.
    pub fn new() -> (r: AchievementRegistry)
        ensures
            r.wf(),
            r.records@.len() == 0,
    {
        AchievementRegistry { records: Vec::new() }
    }

    /// Whether achievement `id` is already verified for `user`.
    pub fn is_verified(&self, user: &Pubkey, id: &Vec<u8>) -> (r: bool)
        ensures
            r == already_verified(self.records@, user@, id@),
    {
        let mut i: usize = 0;
        while i < self.records.len()
            invariant
                0 <= i <= self.records@.len(),
                forall|j: int| 0 <= j < i ==> !verified_for(#[trigger] self.records@[j], user@, id@),
            decreases self.records@.len() - i,
        {
            let rec = &self.records[i];
            if rec.status == VerificationStatus::Verified && rec.user.same_as(user) && bytes_equal(&rec.achievement_id, id) {
                assert(verified_for(self.records@[i as int], user@, id@));
                return true;
            }
            i = i + 1;
        }
        false
    }

    /// A staked, active oracle attests that `user` earned achievement `id`
    /// worth `value` points. The record is stored as verified with its
    /// reward, and the oracle is credited with a successful verification.
    /// Refused when the achievement is already verified for the user.
    pub fn verify_achievement(
        &mut self,
        oracle: &mut OracleAccount,
        user: Pubkey,
        achievement_id: Vec<u8>,
        value: u64,
        oracle_signature: Vec<u8>,
        user_bonus: u64,
        now: i64,
    ) -> (r: Result<AchievementVerifiedEvent, GamingRewardsError>)
        requires
            old(self).wf(),
            old(oracle).wf(),
        ensures
            final(self).wf(),
            final(oracle).wf(),
            r is Ok <==> old(self).attestation_error(*old(oracle), user, achievement_id@, value, user_bonus) is None,
            r is Err ==> r->Err_0 == old(self).attestation_error(*old(oracle), user, achievement_id@, value, user_bonus)->Some_0,
            r is Err ==> *final(self) == *old(self) && *final(oracle) == *old(oracle),
            r is Ok ==> {
                let rec = final(self).records@.last();
                &&& final(self).records@ == old(self).records@.push(rec)
                &&& verified_for(rec, user@, achievement_id@)
                &&& rec.achievement_value == value
                &&& rec.reward_amount == reward_for(value, user_bonus)
                &&& rec.verification_timestamp == now
                &&& rec.verifying_oracle == old(oracle).oracle
                &&& *final(oracle) == old(oracle).after_verification(true, now)
                &&& r->Ok_0.reward_amount == rec.reward_amount
                &&& r->Ok_0.achievement_id@ == achievement_id@
            },
    {
        oracle.validate_stake(MIN_ORACLE_STAKE)?;
        if value < MIN_ACHIEVEMENT_VALUE || value > MAX_ACHIEVEMENT_VALUE {
            return Err(GamingRewardsError::InvalidAchievementValue);
        }
        if self.is_verified(&user, &achievement_id) {
            return Err(GamingRewardsError::AchievementAlreadyVerified);
        }
        let base = value as u128 * LAMPORTS_PER_POINT as u128;
        assert(base * (user_bonus as u128) <= 1_000_000 * 0xffff_ffff_ffff_ffffu128) by (nonlinear_arith)
            requires
                base <= 1_000_000,
                user_bonus <= 0xffff_ffff_ffff_ffffu64,
        ;
        if base * user_bonus as u128 > u64::MAX as u128 {
            return Err(GamingRewardsError::ArithmeticOverflow);
        }
        let mut record = AchievementVerification {
            user,
            achievement_id: achievement_id.clone(),
            achievement_value: value,
            verification_timestamp: now,
            verifying_oracle: oracle.oracle,
            oracle_signature,
            status: VerificationStatus::Verified,
            reward_amount: 0,
        };
        assert(record.achievement_id@ == achievement_id@);
        let reward = record.calculate_reward(user_bonus);
        record.reward_amount = reward;
        let event = AchievementVerifiedEvent {
            user,
            achievement_id,
            achievement_value: value,
            reward_amount: reward,
            oracle: oracle.oracle,
            timestamp: now,
        };
        let ghost before = self.records@;
        self.records.push(record);
        assert forall|i: int, j: int|
            0 <= i < self.records@.len() && 0 <= j < self.records@.len()
                && #[trigger] self.records@[i].status == VerificationStatus::Verified
                && #[trigger] self.records@[j].status == VerificationStatus::Verified
                && self.records@[i].user@ == self.records@[j].user@
                && self.records@[i].achievement_id@ == self.records@[j].achievement_id@
                implies i == j by {
            if i < before.len() && j == before.len() {
                assert(verified_for(before[i], user@, record.achievement_id@));
            }
            if j < before.len() && i == before.len() {
                assert(verified_for(before[j], user@, record.achievement_id@));
            }
        }
        oracle.record_verification(true, now);
        Ok(event)
    }
}

/// Attesting an achievement that is already verified for a user changes
/// nothing, so each achievement pays a user at most once.
pub proof fn lemma_attestation_idempotent(reg: AchievementRegistry, oracle: OracleAccount, user: Pubkey, id: Seq<u8>, value: u64, user_bonus: u64)
    requires
        already_verified(reg.records@, user@, id),
    ensures
        reg.attestation_error(oracle, user, id, value, user_bonus) is Some,
{
}

} // verus!
