//! The claim processor: rate-limited, oracle-approved payouts from the
//! treasury's user rewards pool into a user's reward account, and the
//! time-weighted staking of what was claimed.
use vstd::prelude::*;
use crate::crypto::{ed25519_accepts, verify_ed25519};
use crate::encoding::{claim_message, encode_claim_message};
use crate::errors::GamingRewardsError;
use crate::keys::Pubkey;
use crate::oracle::{OracleAccount, MIN_ORACLE_STAKE};
use crate::treasury::Treasury;
use crate::verification::{check_freshness, freshness_error};
use crate::staking::{multiplier_for, staking_multiplier, BASE_STAKER_MULTIPLIER};

verus! {

/// Largest amount a single claim may move (10,000 USDC in lamports).
pub const MAX_CLAIM_AMOUNT: u64 = 10_000_000_000;

/// Length of the rate-limit window, in seconds.
pub const CLAIM_RATE_LIMIT_WINDOW: i64 = 3600;

/// Claims a user may make within one window.
pub const MAX_CLAIMS_PER_WINDOW: u32 = 10;

/// Minimum number of seconds between two claims of one user.
pub const MIN_TIME_BETWEEN_CLAIMS: i64 = 300;

/// A user's claim history and staking state.
#[derive(Clone, Copy, Debug)]
pub struct UserReward {
    pub user: Pubkey,
    /// What the user has claimed and not staked.
    pub total_claimed: u64,
    pub last_claim_timestamp: i64,
    pub claims_in_window: u32,
    pub window_start_timestamp: i64,
    pub is_staking: bool,
    pub staking_start_timestamp: i64,
    pub staked_amount: u64,
}

/// A state change of a reward account, as a caller may request it.
#[derive(Clone, Copy, Debug, PartialEq, Eq, Structural)]
pub enum RewardOp {
    Claim { amount: u64, now: i64 },
    Stake { amount: u64, now: i64 },
    Unstake { amount: u64, now: i64 },
}

/// What a successful claim reports.
#[derive(Clone, Copy, Debug)]
pub struct ClaimRewardEvent {
    pub user: Pubkey,
    pub amount: u64,
    pub timestamp: i64,
}

impl UserReward {
    /// The account's invariant: it stakes exactly when something is staked.
    pub open spec fn wf(self) -> bool {
        self.is_staking <==> self.staked_amount > 0
    }

    /// The current window holds no more than the allowed number of claims.
    pub open spec fn window_ok(self) -> bool {
        self.claims_in_window <= MAX_CLAIMS_PER_WINDOW
    }

    /// Whether the rate-limit window has run out at time `now`.
    pub open spec fn window_expired(self, now: i64) -> bool {
        now - self.window_start_timestamp >= CLAIM_RATE_LIMIT_WINDOW
    }

    /// The claims that count against the limit at time `now`.
    pub open spec fn claims_counted(self, now: i64) -> u32 {
        if self.window_expired(now) { 0 } else { self.claims_in_window }
    }

    /// Why the rate limit refuses a claim at time `now`, if it does.
    pub open spec fn rate_error(self, now: i64) -> Option<GamingRewardsError> {
        if self.claims_counted(now) >= MAX_CLAIMS_PER_WINDOW {
            Some(GamingRewardsError::RateLimitExceeded)
        } else if now - self.last_claim_timestamp < MIN_TIME_BETWEEN_CLAIMS {
            Some(GamingRewardsError::ClaimTooFrequent)
        } else {
            None
        }
    }

    /// The account once a claim at time `now` is admitted: the window
    /// restarts at `now` if it ran out, and is kept otherwise.
    pub open spec fn after_validate(self, now: i64) -> UserReward {
        if self.window_expired(now) {
            UserReward { claims_in_window: 0, window_start_timestamp: now, ..self }
        } else {
            self
        }
    }

    /// Why recording a claim of `amount` is refused, if it is: a counter
    /// would overflow.
    pub open spec fn record_error(self, amount: u64) -> Option<GamingRewardsError> {
        if self.total_claimed + amount > u64::MAX || self.claims_in_window == u32::MAX {
            Some(GamingRewardsError::ArithmeticOverflow)
        } else {
            None
        }
    }

    /// The account after recording a claim of `amount` at time `timestamp`.
    pub open spec fn after_record(self, amount: u64, timestamp: i64) -> UserReward {
        UserReward {
            total_claimed: (self.total_claimed + amount) as u64,
            last_claim_timestamp: timestamp,
            claims_in_window: (self.claims_in_window + 1) as u32,
            ..self
        }
    }

    /// Why a whole claim of `amount` at time `now` (rate limit, then record)
    /// is refused, if it is.
    pub open spec fn claim_record_error(self, amount: u64, now: i64) -> Option<GamingRewardsError> {
        if self.rate_error(now) is Some {
            self.rate_error(now)
        } else {
            self.after_validate(now).record_error(amount)
        }
    }

    /// The account after a whole claim: the window restarts if it ran out,
    /// and the claim counts in it.
    pub open spec fn after_claim(self, amount: u64, now: i64) -> UserReward {
        self.after_validate(now).after_record(amount, now)
    }

    /// The payout multiplier, in percent, for staking held until `now`.
    pub open spec fn bonus_at(self, now: i64) -> u64 {
        if !self.is_staking {
            BASE_STAKER_MULTIPLIER
        } else {
            staking_multiplier(now - self.staking_start_timestamp)
        }
    }

    /// Why staking `amount` is refused, if it is.
    pub open spec fn stake_error(self, amount: u64) -> Option<GamingRewardsError> {
        if self.is_staking {
            Some(GamingRewardsError::AlreadyStaking)
        } else if amount == 0 {
            Some(GamingRewardsError::InvalidStakeAmount)
        } else if amount > self.total_claimed {
            Some(GamingRewardsError::InsufficientRewards)
        } else {
            None
        }
    }

    /// The account after staking `amount` at time `now`.
    pub open spec fn after_stake(self, amount: u64, now: i64) -> UserReward {
        UserReward {
            total_claimed: (self.total_claimed - amount) as u64,
            is_staking: true,
            staking_start_timestamp: now,
            staked_amount: amount,
            ..self
        }
    }

    /// What unstaking `amount` at time `now` pays back.
    pub open spec fn unstake_payout(self, amount: u64, now: i64) -> int {
        amount * self.bonus_at(now) / 100
    }

    /// Why unstaking `amount` at time `now` is refused, if it is.
    pub open spec fn unstake_error(self, amount: u64, now: i64) -> Option<GamingRewardsError> {
        if !self.is_staking {
            Some(GamingRewardsError::NotStaking)
        } else if amount == 0 {
            Some(GamingRewardsError::InvalidStakeAmount)
        } else if amount > self.staked_amount {
            Some(GamingRewardsError::InsufficientStakedAmount)
        } else if self.total_claimed + self.unstake_payout(amount, now) > u64::MAX {
            Some(GamingRewardsError::ArithmeticOverflow)
        } else {
            None
        }
    }

    /// The account after unstaking `amount` at time `now`.
    pub open spec fn after_unstake(self, amount: u64, now: i64) -> UserReward {
        UserReward {
            total_claimed: (self.total_claimed + self.unstake_payout(amount, now)) as u64,
            staked_amount: (self.staked_amount - amount) as u64,
            is_staking: self.staked_amount - amount > 0,
            ..self
        }
    }

    /// The account after an operation: unchanged when it is refused.
    pub open spec fn step(self, op: RewardOp) -> UserReward {
        match op {
            RewardOp::Claim { amount, now } =>
                if self.claim_record_error(amount, now) is None { self.after_claim(amount, now) } else { self },
            RewardOp::Stake { amount, now } =>
                if self.stake_error(amount) is None { self.after_stake(amount, now) } else { self },
            RewardOp::Unstake { amount, now } =>
                if self.unstake_error(amount, now) is None { self.after_unstake(amount, now) } else { self },
        }
    }

    /// A fresh account for `user`, with no claim and no stake.
    pub fn initialize(user: Pubkey) -> (r: UserReward)
        ensures
            r.wf(),
            r.user == user,
            r.total_claimed == 0,
            r.last_claim_timestamp == 0,
            r.claims_in_window == 0,
            r.window_start_timestamp == 0,
            !r.is_staking,
            r.staking_start_timestamp == 0,
            r.staked_amount == 0,
    {
        UserReward {
            user,
            total_claimed: 0,
            last_claim_timestamp: 0,
            claims_in_window: 0,
            window_start_timestamp: 0,
            is_staking: false,
            staking_start_timestamp: 0,
            staked_amount: 0,
        }
    }

    /// Whether the rate-limit window has run out at time `now`.
    pub fn is_window_expired(&self, now: i64) -> (r: bool)
        ensures
            r == self.window_expired(now),
    {
        (now as i128) - (self.window_start_timestamp as i128) >= CLAIM_RATE_LIMIT_WINDOW as i128
    }

    /// Passes when the rate limit admits a claim at time `now`: fewer than
    /// the allowed claims in the current window (a window that ran out counts
    /// none), and enough time since the last claim. An admitted claim in a
    /// window that ran out starts a new window at `now`; a refusal changes
    /// nothing.
    pub fn validate_claim(&mut self, now: i64) -> (r: Result<(), GamingRewardsError>)
        ensures
            r is Ok <==> old(self).rate_error(now) is None,
            r is Err ==> r->Err_0 == old(self).rate_error(now)->Some_0 && *final(self) == *old(self),
            r is Ok ==> *final(self) == old(self).after_validate(now),
            r is Ok ==> final(self).claims_in_window < MAX_CLAIMS_PER_WINDOW,
    {
        let expired = self.is_window_expired(now);
        let counted: u32 = if expired { 0 } else { self.claims_in_window };
        if counted >= MAX_CLAIMS_PER_WINDOW {
            return Err(GamingRewardsError::RateLimitExceeded);
        }
        if (now as i128) - (self.last_claim_timestamp as i128) < MIN_TIME_BETWEEN_CLAIMS as i128 {
            return Err(GamingRewardsError::ClaimTooFrequent);
        }
        if expired {
            self.claims_in_window = 0;
            self.window_start_timestamp = now;
        }
        Ok(())
    }

    /// Records a claim of `amount` made at `timestamp`: the claimed total
    /// grows by `amount`, the last claim time becomes `timestamp`, and the
    /// window counts one more claim. Refused when a counter would overflow.
    pub fn update_claim(&mut self, amount: u64, timestamp: i64) -> (r: Result<(), GamingRewardsError>)
        requires
            old(self).wf(),
        ensures
            final(self).wf(),
            r is Ok <==> old(self).record_error(amount) is None,
            r is Err ==> r->Err_0 == GamingRewardsError::ArithmeticOverflow && *final(self) == *old(self),
            r is Ok ==> *final(self) == old(self).after_record(amount, timestamp),
    {
        if amount > u64::MAX - self.total_claimed || self.claims_in_window == u32::MAX {
            return Err(GamingRewardsError::ArithmeticOverflow);
        }
        self.total_claimed = self.total_claimed + amount;
        self.last_claim_timestamp = timestamp;
        self.claims_in_window = self.claims_in_window + 1;
        Ok(())
    }

    /// A whole claim of `amount` at time `now`: the rate limit admits it and
    /// it is recorded, or nothing changes.
    pub fn claim(&mut self, amount: u64, now: i64) -> (r: Result<(), GamingRewardsError>)
        requires
            old(self).wf(),
        ensures
            final(self).wf(),
            r is Ok <==> old(self).claim_record_error(amount, now) is None,
            r is Err ==> r->Err_0 == old(self).claim_record_error(amount, now)->Some_0,
            *final(self) == old(self).step(RewardOp::Claim { amount, now }),
            old(self).window_ok() ==> final(self).window_ok(),
    {
        let mut staged = *self;
        staged.validate_claim(now)?;
        staged.update_claim(amount, now)?;
        *self = staged;
        Ok(())
    }

    /// Locks `amount` of the claimed balance for a time-weighted bonus.
    pub fn start_staking(&mut self, amount: u64, now: i64) -> (r: Result<(), GamingRewardsError>)
        requires
            old(self).wf(),
        ensures
            final(self).wf(),
            r is Ok <==> old(self).stake_error(amount) is None,
            r is Err ==> r->Err_0 == old(self).stake_error(amount)->Some_0,
            *final(self) == old(self).step(RewardOp::Stake { amount, now }),
    {
        if self.is_staking {
            return Err(GamingRewardsError::AlreadyStaking);
        }
        if amount == 0 {
            return Err(GamingRewardsError::InvalidStakeAmount);
        }
        if amount > self.total_claimed {
            return Err(GamingRewardsError::InsufficientRewards);
        }
        self.total_claimed = self.total_claimed - amount;
        self.is_staking = true;
        self.staking_start_timestamp = now;
        self.staked_amount = amount;
        Ok(())
    }

    /// The payout multiplier, in percent, for staking held until `now`: 100
    /// below the minimum period, 120 up to the maximum period, 150 from then
    /// on; 100 when nothing is staked.
    pub fn calculate_staking_bonus(&self, now: i64) -> (r: u64)
        ensures
            r == self.bonus_at(now),
    {
        if !self.is_staking {
            return BASE_STAKER_MULTIPLIER;
        }
        multiplier_for(self.staking_start_timestamp, now)
    }

    /// Unlocks `amount` of the stake and credits it, with the bonus of the
    /// time staked, to the claimed balance; staking ends when nothing is left
    /// staked. Returns what was credited.
    pub fn unstake(&mut self, amount: u64, now: i64) -> (r: Result<u64, GamingRewardsError>)
        requires
            old(self).wf(),
        ensures
            final(self).wf(),
            r is Ok <==> old(self).unstake_error(amount, now) is None,
            r is Err ==> r->Err_0 == old(self).unstake_error(amount, now)->Some_0,
            r is Ok ==> r->Ok_0 == old(self).unstake_payout(amount, now),
            *final(self) == old(self).step(RewardOp::Unstake { amount, now }),
    {
        if !self.is_staking {
            return Err(GamingRewardsError::NotStaking);
        }
        if amount == 0 {
            return Err(GamingRewardsError::InvalidStakeAmount);
        }
        if amount > self.staked_amount {
            return Err(GamingRewardsError::InsufficientStakedAmount);
        }
        let bonus = self.calculate_staking_bonus(now);
        let a = amount as u128;
        let b = bonus as u128;
        assert(a * b <= a * 150) by (nonlinear_arith)
            requires
                b <= 150,
        ;
        let payout_wide: u128 = a * b / 100;
        if payout_wide > (u64::MAX - self.total_claimed) as u128 {
            return Err(GamingRewardsError::ArithmeticOverflow);
        }
        let payout = payout_wide as u64;
        self.total_claimed = self.total_claimed + payout;
        self.staked_amount = self.staked_amount - amount;
        if self.staked_amount == 0 {
            self.is_staking = false;
        }
        Ok(payout)
    }

    /// Applies one operation.
    pub fn apply(&mut self, op: RewardOp)
        requires
            old(self).wf(),
        ensures
            final(self).wf(),
            *final(self) == old(self).step(op),
    {
        match op {
            RewardOp::Claim { amount, now } => {
                let _ = self.claim(amount, now);
            },
            RewardOp::Stake { amount, now } => {
                let _ = self.start_staking(amount, now);
            },
            RewardOp::Unstake { amount, now } => {
                let _ = self.unstake(amount, now);
            },
        }
    }
}

/// The account after a sequence of operations.
pub open spec fn reward_run(u: UserReward, ops: Seq<RewardOp>) -> UserReward
    decreases ops.len(),
{
    if ops.len() == 0 {
        u
    } else {
        reward_run(u, ops.drop_last()).step(ops.last())
    }
}

/// One operation keeps a reward account well formed and its window within
/// the limit.
pub proof fn lemma_reward_step_wf(u: UserReward, op: RewardOp)
    requires
        u.wf(),
        u.window_ok(),
    ensures
        u.step(op).wf(),
        u.step(op).window_ok(),
{
}

/// However claims and staking operations follow one another, a user's count
/// of claims in the current window never exceeds the maximum; a claim that
/// would exceed it is refused until the window runs out.
pub proof fn lemma_window_bound(u: UserReward, ops: Seq<RewardOp>)
    requires
        u.wf(),
        u.window_ok(),
    ensures
        reward_run(u, ops).wf(),
        reward_run(u, ops).claims_in_window <= MAX_CLAIMS_PER_WINDOW,
    decreases ops.len(),
{
    if ops.len() > 0 {
        lemma_window_bound(u, ops.drop_last());
        lemma_reward_step_wf(reward_run(u, ops.drop_last()), ops.last());
    }
}

/// A claim at time `now` that does not start a new window is refused once
/// the window holds the maximum number of claims.
pub proof fn lemma_full_window_refuses(u: UserReward, amount: u64, now: i64)
    requires
        u.claims_in_window >= MAX_CLAIMS_PER_WINDOW,
        !u.window_expired(now),
    ensures
        u.claim_record_error(amount, now) == Some(GamingRewardsError::RateLimitExceeded),
        u.step(RewardOp::Claim { amount, now }) == u,
{
}

/// How many entries of `flags` are set.
pub open spec fn count_true(flags: Seq<bool>) -> nat
    decreases flags.len(),
{
    if flags.len() == 0 {
        0
    } else {
        count_true(flags.drop_last()) + if flags.last() { 1nat } else { 0 }
    }
}

/// Whether `trace` is what a sequence of claim calls made of a reward
/// account: call `i` at time `nows[i]` either was admitted (`admitted[i]`),
/// passing the rate limit and recording one claim, or changed nothing. This
/// is what `process_claim` and `claim_reward` guarantee of each call,
/// whatever else the call checks.
pub open spec fn claim_trace(trace: Seq<UserReward>, amounts: Seq<u64>, nows: Seq<i64>, admitted: Seq<bool>) -> bool {
    &&& trace.len() == amounts.len() + 1
    &&& nows.len() == amounts.len()
    &&& admitted.len() == amounts.len()
    &&& forall|i: int| 0 <= i < amounts.len() ==> if #[trigger] admitted[i] {
        &&& trace[i].claim_record_error(amounts[i], nows[i]) is None
        &&& trace[i + 1] == trace[i].after_claim(amounts[i], nows[i])
    } else {
        trace[i + 1] == trace[i]
    }
}

/// However many claim calls for one user follow one another, as long as none
/// of them comes after the current window has run out, the calls admitted
/// plus the claims the window already held never exceed the maximum: the
/// window check and the count move together.
pub proof fn lemma_admitted_claims_bounded(trace: Seq<UserReward>, amounts: Seq<u64>, nows: Seq<i64>, admitted: Seq<bool>)
    requires
        claim_trace(trace, amounts, nows, admitted),
        trace[0].window_ok(),
        forall|i: int| 0 <= i < nows.len() ==> !trace[0].window_expired(#[trigger] nows[i]),
    ensures
        trace.last().window_start_timestamp == trace[0].window_start_timestamp,
        trace.last().claims_in_window == trace[0].claims_in_window + count_true(admitted),
        trace[0].claims_in_window + count_true(admitted) <= MAX_CLAIMS_PER_WINDOW,
    decreases amounts.len(),
{
    let n = amounts.len();
    if n > 0 {
        let m = (n - 1) as int;
        let t2 = trace.subrange(0, n as int);
        let a2 = amounts.subrange(0, m);
        let w2 = nows.subrange(0, m);
        let f2 = admitted.subrange(0, m);
        assert forall|i: int| 0 <= i < a2.len() implies if #[trigger] f2[i] {
            &&& t2[i].claim_record_error(a2[i], w2[i]) is None
            &&& t2[i + 1] == t2[i].after_claim(a2[i], w2[i])
        } else {
            t2[i + 1] == t2[i]
        } by {
            assert(admitted[i] == f2[i]);
        }
        assert forall|i: int| 0 <= i < w2.len() implies !t2[0].window_expired(#[trigger] w2[i]) by {
            assert(w2[i] == nows[i]);
        }
        lemma_admitted_claims_bounded(t2, a2, w2, f2);
        assert(f2 =~= admitted.drop_last());
        assert(t2.last() == trace[m]);
        assert(admitted[m] ==> trace[m].claim_record_error(amounts[m], nows[m]) is None);
        assert(!trace[0].window_expired(nows[m]));
        assert(trace[m].window_start_timestamp == trace[0].window_start_timestamp);
        assert(!trace[m].window_expired(nows[m]));
        if admitted[m] {
            assert(trace[m + 1] == trace[m].after_claim(amounts[m], nows[m]));
            assert(trace[m].after_validate(nows[m]) == trace[m]);
        } else {
            assert(trace[m + 1] == trace[m]);
        }
        assert(trace.last() == trace[m + 1]);
    }
}

/// Why a claim is refused, if it is. The checks run in this order: the
/// protocol pause, the amount, the pool, the account's owner, the rate limit,
/// the oracle's stake (against the registry minimum) and status, the oracle's
/// signature, the freshness of the signed timestamp, and the counters.
pub open spec fn claim_error(
    paused: bool,
    treasury: Treasury,
    user_reward: UserReward,
    oracle: OracleAccount,
    user: Pubkey,
    timestamp: i64,
    amount: u64,
    signature_valid: bool,
    now: i64,
) -> Option<GamingRewardsError> {
    if paused {
        Some(GamingRewardsError::ProtocolPaused)
    } else if amount == 0 || amount > MAX_CLAIM_AMOUNT {
        Some(GamingRewardsError::InvalidClaimAmount)
    } else if amount > treasury.user_rewards_pool {
        Some(GamingRewardsError::InsufficientRewardsPool)
    } else if user_reward.user@ != user@ {
        Some(GamingRewardsError::Unauthorized)
    } else if user_reward.rate_error(now) is Some {
        user_reward.rate_error(now)
    } else if oracle.stake_error(MIN_ORACLE_STAKE) is Some {
        oracle.stake_error(MIN_ORACLE_STAKE)
    } else if !signature_valid {
        Some(GamingRewardsError::InvalidOracleSignature)
    } else if freshness_error(timestamp, now) is Some {
        freshness_error(timestamp, now)
    } else {
        user_reward.after_validate(now).record_error(amount)
    }
}

/// No claim overdraws the pool: a claim of more than the pool holds is
/// refused for that reason whenever the protocol runs and the amount is in
/// range, and an admitted claim never takes more than the pool holds.
pub proof fn lemma_claim_never_overdraws(
    paused: bool,
    treasury: Treasury,
    user_reward: UserReward,
    oracle: OracleAccount,
    user: Pubkey,
    timestamp: i64,
    amount: u64,
    signature_valid: bool,
    now: i64,
)
    ensures
        !paused && 1 <= amount <= MAX_CLAIM_AMOUNT && amount > treasury.user_rewards_pool
            ==> claim_error(paused, treasury, user_reward, oracle, user, timestamp, amount, signature_valid, now)
                == Some(GamingRewardsError::InsufficientRewardsPool),
        claim_error(paused, treasury, user_reward, oracle, user, timestamp, amount, signature_valid, now) is None
            ==> amount <= treasury.user_rewards_pool && treasury.after_debit(amount).user_rewards_pool
                == treasury.user_rewards_pool - amount,
{
}

/// Processes a claim whose oracle signature was found valid or not. On
/// success the pool is debited and the claim recorded, both or neither.
pub fn process_claim(
    paused: bool,
    treasury: &mut Treasury,
    user_reward: &mut UserReward,
    oracle: &OracleAccount,
    user: &Pubkey,
    timestamp: i64,
    amount: u64,
    signature_valid: bool,
    now: i64,
) -> (r: Result<ClaimRewardEvent, GamingRewardsError>)
    requires
        old(treasury).wf(),
        old(user_reward).wf(),
    ensures
        final(treasury).wf(),
        final(user_reward).wf(),
        old(user_reward).window_ok() ==> final(user_reward).window_ok(),
        r is Ok <==> claim_error(paused, *old(treasury), *old(user_reward), *oracle, *user, timestamp, amount, signature_valid, now) is None,
        r is Err ==> r->Err_0 == claim_error(paused, *old(treasury), *old(user_reward), *oracle, *user, timestamp, amount, signature_valid, now)->Some_0,
        r is Err ==> *final(treasury) == *old(treasury) && *final(user_reward) == *old(user_reward),
        r is Ok ==> {
            &&& old(treasury).user_rewards_pool >= amount
            &&& final(treasury).user_rewards_pool == old(treasury).user_rewards_pool - amount
            &&& *final(treasury) == old(treasury).after_debit(amount)
            &&& old(user_reward).claim_record_error(amount, now) is None
            &&& *final(user_reward) == old(user_reward).after_claim(amount, now)
            &&& r->Ok_0.user == *user
            &&& r->Ok_0.amount == amount
            &&& r->Ok_0.timestamp == now
        },
{
    if paused {
        return Err(GamingRewardsError::ProtocolPaused);
    }
    if amount == 0 || amount > MAX_CLAIM_AMOUNT {
        return Err(GamingRewardsError::InvalidClaimAmount);
    }
    if amount > treasury.user_rewards_pool {
        return Err(GamingRewardsError::InsufficientRewardsPool);
    }
    if !user_reward.user.same_as(user) {
        return Err(GamingRewardsError::Unauthorized);
    }
    let mut staged = *user_reward;
    staged.validate_claim(now)?;
    oracle.validate_stake(MIN_ORACLE_STAKE)?;
    if !signature_valid {
        return Err(GamingRewardsError::InvalidOracleSignature);
    }
    check_freshness(timestamp, now)?;
    if amount > u64::MAX - staged.total_claimed || staged.claims_in_window == u32::MAX {
        return Err(GamingRewardsError::ArithmeticOverflow);
    }
    let debited = treasury.subtract_from_rewards_pool(amount);
    assert(debited is Ok);
    let recorded = staged.update_claim(amount, now);
    assert(recorded is Ok);
    *user_reward = staged;
    Ok(ClaimRewardEvent { user: *user, amount, timestamp: now })
}

/// Processes a claim approved by the oracle's Ed25519 signature over
/// `subject:timestamp:amount`.
pub fn claim_reward(
    paused: bool,
    treasury: &mut Treasury,
    user_reward: &mut UserReward,
    oracle: &OracleAccount,
    user: &Pubkey,
    timestamp: i64,
    oracle_signature: &Vec<u8>,
    amount: u64,
    now: i64,
) -> (r: Result<ClaimRewardEvent, GamingRewardsError>)
    requires
        old(treasury).wf(),
        old(user_reward).wf(),
    ensures
        final(treasury).wf(),
        final(user_reward).wf(),
        old(user_reward).window_ok() ==> final(user_reward).window_ok(),
        ({
            let valid = ed25519_accepts(claim_message(user@, timestamp as int, amount as nat), oracle_signature@, oracle.oracle@);
            let e = claim_error(paused, *old(treasury), *old(user_reward), *oracle, *user, timestamp, amount, valid, now);
            &&& r is Ok <==> e is None
            &&& r is Err ==> r->Err_0 == e->Some_0
        }),
        oracle_signature@.len() != 64 ==> r is Err,
        r is Err ==> *final(treasury) == *old(treasury) && *final(user_reward) == *old(user_reward),
        r is Ok ==> {
            &&& old(treasury).user_rewards_pool >= amount
            &&& final(treasury).user_rewards_pool == old(treasury).user_rewards_pool - amount
            &&& *final(treasury) == old(treasury).after_debit(amount)
            &&& old(user_reward).claim_record_error(amount, now) is None
            &&& *final(user_reward) == old(user_reward).after_claim(amount, now)
            &&& r->Ok_0.user == *user
            &&& r->Ok_0.amount == amount
            &&& r->Ok_0.timestamp == now
        },
{
    let message = encode_claim_message(user, timestamp, amount);
    let valid = verify_ed25519(message.as_slice(), oracle_signature.as_slice(), &oracle.oracle.bytes);
    process_claim(paused, treasury, user_reward, oracle, user, timestamp, amount, valid, now)
}

} // verus!
