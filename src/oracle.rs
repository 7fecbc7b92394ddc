//! The oracle registry: stake, reputation and status of each attestor.
use vstd::prelude::*;
use crate::errors::GamingRewardsError;
use crate::keys::Pubkey;
use crate::treasury::Treasury;

verus! {

/// Stake an oracle must keep to attest (1 SOL in lamports).
pub const MIN_ORACLE_STAKE: u64 = 1_000_000_000;

/// Reputation below which an oracle is suspended.
pub const SUSPENSION_THRESHOLD: u32 = 50;

/// Reputation from which a suspended oracle is active again.
pub const ORACLE_REPUTATION_THRESHOLD: u32 = 100;

/// Where an oracle stands.
#[derive(Clone, Copy, Debug, PartialEq, Eq, Structural)]
pub enum OracleStatus {
    Active,
    Inactive,
    Slashed,
    Suspended,
}

/// An economically staked attestor.
#[derive(Clone, Copy, Debug)]
pub struct OracleAccount {
    /// The key the oracle signs with.
    pub oracle: Pubkey,
    pub stake_amount: u64,
    /// The stake below which the oracle counts as slashed.
    pub min_stake: u64,
    pub reputation_score: u32,
    pub successful_verifications: u32,
    pub failed_verifications: u32,
    pub last_activity: i64,
    pub status: OracleStatus,
    pub slash_count: u32,
    pub last_slash_timestamp: i64,
}

/// A state change of an oracle account.
#[derive(Clone, Copy, Debug, PartialEq, Eq, Structural)]
pub enum OracleOp {
    Verification { success: bool, now: i64 },
    Slash { amount: u64, now: i64 },
}

/// What a successful slash reports.
#[derive(Clone, Copy, Debug)]
pub struct SlashOracleEvent {
    pub oracle: Pubkey,
    pub slash_amount: u64,
    pub timestamp: i64,
}

/// The status an oracle takes after its reputation changed to `reputation`.
pub open spec fn status_after_reputation(status: OracleStatus, reputation: u32) -> OracleStatus {
    if status == OracleStatus::Slashed {
        OracleStatus::Slashed
    } else if reputation < SUSPENSION_THRESHOLD {
        OracleStatus::Suspended
    } else if reputation >= ORACLE_REPUTATION_THRESHOLD {
        OracleStatus::Active
    } else {
        status
    }
}

/// `n + 1`, or `n` when that would not fit.
pub open spec fn saturating_inc(n: u32) -> u32 {
    if n == u32::MAX { n } else { (n + 1) as u32 }
}

/// `n - 1`, or `0` when `n` is `0`.
pub open spec fn floored_dec(n: u32) -> u32 {
    if n == 0 { 0 } else { (n - 1) as u32 }
}

impl OracleAccount {
    /// The registry's invariant: an oracle is slashed exactly when its stake is
    /// below the minimum.
    pub open spec fn wf(self) -> bool {
        (self.stake_amount < self.min_stake) <==> (self.status == OracleStatus::Slashed)
    }

    /// Why the oracle does not qualify against a stake of `min_stake`, if it does not.
    pub open spec fn stake_error(self, min_stake: u64) -> Option<GamingRewardsError> {
        if self.stake_amount < min_stake {
            Some(GamingRewardsError::InsufficientOracleStake)
        } else if self.status != OracleStatus::Active {
            Some(GamingRewardsError::OracleNotActive)
        } else {
            None
        }
    }

    /// The account after a verification was recorded.
    pub open spec fn after_verification(self, success: bool, now: i64) -> OracleAccount {
        let reputation = if success { saturating_inc(self.reputation_score) } else { floored_dec(self.reputation_score) };
        OracleAccount {
            successful_verifications: if success { saturating_inc(self.successful_verifications) } else { self.successful_verifications },
            failed_verifications: if success { self.failed_verifications } else { saturating_inc(self.failed_verifications) },
            reputation_score: reputation,
            status: status_after_reputation(self.status, reputation),
            last_activity: now,
            ..self
        }
    }

    /// Why a slash of `amount` is refused, if it is.
    pub open spec fn slash_error(self, amount: u64) -> Option<GamingRewardsError> {
        if amount > self.stake_amount {
            Some(GamingRewardsError::InsufficientStakeToSlash)
        } else if self.slash_count == u32::MAX {
            Some(GamingRewardsError::ArithmeticOverflow)
        } else {
            None
        }
    }

    /// The account after an admitted slash.
    pub open spec fn after_slash(self, amount: u64, now: i64) -> OracleAccount {
        let stake = (self.stake_amount - amount) as u64;
        OracleAccount {
            stake_amount: stake,
            slash_count: (self.slash_count + 1) as u32,
            last_slash_timestamp: now,
            status: if stake < self.min_stake { OracleStatus::Slashed } else { self.status },
            ..self
        }
    }

    /// The account after an operation: unchanged when it is refused.
    pub open spec fn step(self, op: OracleOp) -> OracleAccount {
        match op {
            OracleOp::Verification { success, now } => self.after_verification(success, now),
            OracleOp::Slash { amount, now } => if self.slash_error(amount) is None {
                self.after_slash(amount, now)
            } else {
                self
            },
        }
    }

    /// Onboards an oracle with the given stake, minimum and starting
    /// reputation. Refused when the stake is below the minimum.
    pub fn initialize(oracle: Pubkey, stake_amount: u64, min_stake: u64, reputation_score: u32, now: i64) -> (r: Result<OracleAccount, GamingRewardsError>)
        ensures
            r is Ok <==> stake_amount >= min_stake,
            r is Err ==> r->Err_0 == GamingRewardsError::InsufficientOracleStake,
            r is Ok ==> ({
                let o = r->Ok_0;
                &&& o.wf()
                &&& o.oracle == oracle
                &&& o.stake_amount == stake_amount
                &&& o.min_stake == min_stake
                &&& o.reputation_score == reputation_score
                &&& o.successful_verifications == 0
                &&& o.failed_verifications == 0
                &&& o.last_activity == now
                &&& o.status == OracleStatus::Active
                &&& o.slash_count == 0
            }),
    {
        if stake_amount < min_stake {
            return Err(GamingRewardsError::InsufficientOracleStake);
        }
        Ok(OracleAccount {
            oracle,
            stake_amount,
            min_stake,
            reputation_score,
            successful_verifications: 0,
            failed_verifications: 0,
            last_activity: now,
            status: OracleStatus::Active,
            slash_count: 0,
            last_slash_timestamp: 0,
        })
    }

    /// Passes when the oracle holds at least `min_stake` and is active.
    pub fn validate_stake(&self, min_stake: u64) -> (r: Result<(), GamingRewardsError>)
        ensures
            r is Ok <==> self.stake_error(min_stake) is None,
            r is Err ==> r->Err_0 == self.stake_error(min_stake)->Some_0,
    {
        if self.stake_amount < min_stake {
            return Err(GamingRewardsError::InsufficientOracleStake);
        }
        if self.status != OracleStatus::Active {
            return Err(GamingRewardsError::OracleNotActive);
        }
        Ok(())
    }

    /// Records the outcome of a verification: a success raises reputation by
    /// one, a failure lowers it by one down to zero; the status then follows
    /// the new reputation, except that a slashed oracle stays slashed.
    pub fn record_verification(&mut self, success: bool, now: i64)
        requires
            old(self).wf(),
        ensures
            final(self).wf(),
            *final(self) == old(self).after_verification(success, now),
    {
        if success {
            if self.successful_verifications < u32::MAX {
                self.successful_verifications = self.successful_verifications + 1;
            }
            if self.reputation_score < u32::MAX {
                self.reputation_score = self.reputation_score + 1;
            }
        } else {
            if self.failed_verifications < u32::MAX {
                self.failed_verifications = self.failed_verifications + 1;
            }
            if self.reputation_score > 0 {
                self.reputation_score = self.reputation_score - 1;
            }
        }
        if self.status != OracleStatus::Slashed {
            if self.reputation_score < SUSPENSION_THRESHOLD {
                self.status = OracleStatus::Suspended;
            } else if self.reputation_score >= ORACLE_REPUTATION_THRESHOLD {
                self.status = OracleStatus::Active;
            }
        }
        self.last_activity = now;
    }

    /// Takes `amount` out of the oracle's stake and returns it; the oracle is
    /// slashed when what is left is below its minimum. Refused when `amount`
    /// exceeds the stake.
    pub fn slash(&mut self, amount: u64, now: i64) -> (r: Result<u64, GamingRewardsError>)
        requires
            old(self).wf(),
        ensures
            final(self).wf(),
            r is Ok <==> old(self).slash_error(amount) is None,
            r is Err ==> r->Err_0 == old(self).slash_error(amount)->Some_0 && *final(self) == *old(self),
            r is Ok ==> r->Ok_0 == amount && *final(self) == old(self).after_slash(amount, now),
            r is Ok ==> final(self).stake_amount == old(self).stake_amount - amount,
            final(self).stake_amount < final(self).min_stake ==> final(self).status == OracleStatus::Slashed,
    {
        if amount > self.stake_amount {
            return Err(GamingRewardsError::InsufficientStakeToSlash);
        }
        if self.slash_count == u32::MAX {
            return Err(GamingRewardsError::ArithmeticOverflow);
        }
        self.stake_amount = self.stake_amount - amount;
        self.slash_count = self.slash_count + 1;
        self.last_slash_timestamp = now;
        if self.stake_amount < self.min_stake {
            self.status = OracleStatus::Slashed;
        }
        Ok(amount)
    }

    /// Applies one operation.
    pub fn apply(&mut self, op: OracleOp)
        requires
            old(self).wf(),
        ensures
            final(self).wf(),
            *final(self) == old(self).step(op),
    {
        match op {
            OracleOp::Verification { success, now } => self.record_verification(success, now),
            OracleOp::Slash { amount, now } => {
                let _ = self.slash(amount, now);
            },
        }
    }
}

/// Slashes an oracle on behalf of `caller`, who must be the treasury's
/// authority. Refused as an invalid amount when `amount` is zero or more than
/// the oracle's stake.
pub fn slash_oracle(treasury: &Treasury, caller: &Pubkey, oracle: &mut OracleAccount, amount: u64, now: i64) -> (r: Result<SlashOracleEvent, GamingRewardsError>)
    requires
        old(oracle).wf(),
    ensures
        final(oracle).wf(),
        r is Ok <==> caller@ == treasury.authority@ && 0 < amount <= old(oracle).stake_amount && old(oracle).slash_error(amount) is None,
        r is Err ==> *final(oracle) == *old(oracle),
        r is Err ==> r->Err_0 == (if caller@ != treasury.authority@ {
            GamingRewardsError::Unauthorized
        } else if amount == 0 || amount > old(oracle).stake_amount {
            GamingRewardsError::InvalidSlashAmount
        } else {
            old(oracle).slash_error(amount)->Some_0
        }),
        r is Ok ==> *final(oracle) == old(oracle).after_slash(amount, now) && r->Ok_0.oracle == old(oracle).oracle
            && r->Ok_0.slash_amount == amount && r->Ok_0.timestamp == now,
{
    if !caller.same_as(&treasury.authority) {
        return Err(GamingRewardsError::Unauthorized);
    }
    if amount == 0 || amount > oracle.stake_amount {
        return Err(GamingRewardsError::InvalidSlashAmount);
    }
    match oracle.slash(amount, now) {
        Ok(slashed) => Ok(SlashOracleEvent { oracle: oracle.oracle, slash_amount: slashed, timestamp: now }),
        Err(e) => Err(e),
    }
}

/// The account after a sequence of operations.
pub open spec fn oracle_run(o: OracleAccount, ops: Seq<OracleOp>) -> OracleAccount
    decreases ops.len(),
{
    if ops.len() == 0 {
        o
    } else {
        oracle_run(o, ops.drop_last()).step(ops.last())
    }
}

/// Whatever verifications and slashes an oracle goes through, its stake never
/// drops below zero, never grows, and whenever it is below the minimum the
/// oracle is slashed.
pub proof fn lemma_slashed_below_minimum(o: OracleAccount, ops: Seq<OracleOp>)
    requires
        o.wf(),
    ensures
        oracle_run(o, ops).wf(),
        0 <= oracle_run(o, ops).stake_amount <= o.stake_amount,
        oracle_run(o, ops).stake_amount < oracle_run(o, ops).min_stake ==> oracle_run(o, ops).status == OracleStatus::Slashed,
    decreases ops.len(),
{
    if ops.len() > 0 {
        lemma_slashed_below_minimum(o, ops.drop_last());
    }
}

} // verus!
