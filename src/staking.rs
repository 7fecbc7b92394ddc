//! Time-locked staking positions and the time-weighted payout multiplier.
use vstd::prelude::*;
use crate::errors::GamingRewardsError;
use crate::keys::Pubkey;

verus! {

/// Staking time from which the medium bonus applies (24 hours).
pub const MIN_STAKING_PERIOD: i64 = 86400;

/// Staking time from which the long-term bonus applies (30 days).
pub const MAX_STAKING_PERIOD: i64 = 2592000;

/// Payout multiplier, in percent, below the minimum staking period.
pub const BASE_STAKER_MULTIPLIER: u64 = 100;

/// Payout multiplier, in percent, between the two staking periods.
pub const MEDIUM_TERM_STAKER_BONUS: u64 = 120;

/// Payout multiplier, in percent, from the maximum staking period on.
pub const LONG_TERM_STAKER_BONUS: u64 = 150;

/// The payout multiplier, in percent, after staking for `duration` seconds.
pub open spec fn staking_multiplier(duration: int) -> u64 {
    if duration >= MAX_STAKING_PERIOD {
        LONG_TERM_STAKER_BONUS
    } else if duration >= MIN_STAKING_PERIOD {
        MEDIUM_TERM_STAKER_BONUS
    } else {
        BASE_STAKER_MULTIPLIER
    }
}

/// The payout multiplier, in percent, for a stake held from `start` to `now`.
pub fn multiplier_for(start: i64, now: i64) -> (r: u64)
    ensures
        r == staking_multiplier(now - start),
        BASE_STAKER_MULTIPLIER <= r <= LONG_TERM_STAKER_BONUS,
{
    let duration: i128 = (now as i128) - (start as i128);
    if duration >= MAX_STAKING_PERIOD as i128 {
        LONG_TERM_STAKER_BONUS
    } else if duration >= MIN_STAKING_PERIOD as i128 {
        MEDIUM_TERM_STAKER_BONUS
    } else {
        BASE_STAKER_MULTIPLIER
    }
}

/// An amount locked for a period, paid back with a time-weighted bonus.
#[derive(Clone, Copy, Debug)]
pub struct StakingPosition {
    pub user: Pubkey,
    pub amount: u64,
    pub lock_period: u64,
    pub start_timestamp: i64,
    pub end_timestamp: i64,
    pub rewards_earned: u64,
    pub is_active: bool,
    pub stake_id: u64,
}

impl StakingPosition {
    /// The position's invariant: an active position holds something, and it
    /// ends one lock period after it starts.
    pub open spec fn wf(self) -> bool {
        &&& self.is_active ==> self.amount > 0
        &&& self.end_timestamp == self.start_timestamp + self.lock_period
    }

    /// What unlocking at time `now` pays back.
    pub open spec fn payout_at(self, now: i64) -> int {
        self.amount * staking_multiplier(now - self.start_timestamp) / 100
    }

    /// Why unlocking at time `now` is refused, if it is.
    pub open spec fn unlock_error(self, now: i64) -> Option<GamingRewardsError> {
        if !self.is_active {
            Some(GamingRewardsError::NotStaking)
        } else if now < self.end_timestamp {
            Some(GamingRewardsError::StakeLocked)
        } else if self.payout_at(now) > u64::MAX {
            Some(GamingRewardsError::ArithmeticOverflow)
        } else {
            None
        }
    }

    /// Locks `amount` for `lock_period` seconds from `now`. Refused for a
    /// zero amount, or when the end of the lock is past the last timestamp.
    pub fn open(user: Pubkey, stake_id: u64, amount: u64, lock_period: u64, now: i64) -> (r: Result<StakingPosition, GamingRewardsError>)
        ensures
            r is Ok <==> amount > 0 && now + lock_period <= i64::MAX,
            r is Err ==> r->Err_0 == (if amount == 0 { GamingRewardsError::InvalidStakeAmount } else { GamingRewardsError::ArithmeticOverflow }),
            r is Ok ==> ({
                let p = r->Ok_0;
                &&& p.wf()
                &&& p.is_active
                &&& p.user == user
                &&& p.stake_id == stake_id
                &&& p.amount == amount
                &&& p.lock_period == lock_period
                &&& p.start_timestamp == now
                &&& p.end_timestamp == now + lock_period
                &&& p.rewards_earned == 0
            }),
    {
        if amount == 0 {
            return Err(GamingRewardsError::InvalidStakeAmount);
        }
        if lock_period as i128 > i64::MAX as i128 - now as i128 {
            return Err(GamingRewardsError::ArithmeticOverflow);
        }
        let end = (now as i128 + lock_period as i128) as i64;
        Ok(StakingPosition {
            user,
            amount,
            lock_period,
            start_timestamp: now,
            end_timestamp: end,
            rewards_earned: 0,
            is_active: true,
            stake_id,
        })
    }

    /// Whether the position is active and its lock has run out at `now`.
    pub fn can_unstake(&self, now: i64) -> (r: bool)
        ensures
            r == (self.is_active && now >= self.end_timestamp),
    {
        self.is_active && now >= self.end_timestamp
    }

    /// Ends the position once its lock has run out, and returns the amount
    /// with its time-weighted bonus; the bonus is kept as the rewards earned.
    /// Refused when the payout would not fit in a `u64`.
    pub fn unlock(&mut self, now: i64) -> (r: Result<u64, GamingRewardsError>)
        requires
            old(self).wf(),
        ensures
            final(self).wf(),
            r is Ok <==> old(self).unlock_error(now) is None,
            r is Err ==> r->Err_0 == old(self).unlock_error(now)->Some_0 && *final(self) == *old(self),
            r is Ok ==> {
                &&& r->Ok_0 == old(self).payout_at(now)
                &&& *final(self) == (StakingPosition {
                    is_active: false,
                    rewards_earned: (old(self).payout_at(now) - old(self).amount) as u64,
                    ..*old(self)
                })
            },
    {
        if !self.is_active {
            return Err(GamingRewardsError::NotStaking);
        }
        if now < self.end_timestamp {
            return Err(GamingRewardsError::StakeLocked);
        }
        let multiplier = multiplier_for(self.start_timestamp, now);
        let a = self.amount as u128;
        let m = multiplier as u128;
        assert(a * m <= a * 150) by (nonlinear_arith)
            requires
                m <= 150,
        ;
        let wide = a * m / 100;
        assert(wide >= a) by (nonlinear_arith)
            requires
                wide == a * m / 100,
                100 <= m,
        ;
        if wide > u64::MAX as u128 {
            return Err(GamingRewardsError::ArithmeticOverflow);
        }
        let payout = wide as u64;
        self.rewards_earned = payout - self.amount;
        self.is_active = false;
        Ok(payout)
    }
}

/// A position becomes inactive once: after an unlock, every further unlock
/// is refused and leaves it as it is.
pub proof fn lemma_unlock_once(p: StakingPosition, now: i64, later: i64)
    requires
        p.wf(),
        p.unlock_error(now) is None,
    ensures
        (StakingPosition { is_active: false, rewards_earned: (p.payout_at(now) - p.amount) as u64, ..p }).unlock_error(later)
            == Some(GamingRewardsError::NotStaking),
{
}

} // verus!
