//! The treasury ledger: harvested yield is split between the pool that pays
//! user claims and a reserve; claims debit the pool.
use vstd::prelude::*;
use crate::errors::GamingRewardsError;
use crate::keys::Pubkey;

verus! {

/// Share of each harvest credited to the user rewards pool, in percent.
pub const USER_REWARDS_PERCENTAGE: u8 = 50;

/// Minimum number of seconds between two harvests.
pub const HARVEST_COOLDOWN: i64 = 3600;

/// Aggregate balances of the protocol.
#[derive(Clone, Copy, Debug)]
pub struct Treasury {
    /// The only key allowed to harvest yield and to slash oracles.
    pub authority: Pubkey,
    /// Everything ever harvested into the treasury.
    pub total_balance: u64,
    /// What user claims may still draw on.
    pub user_rewards_pool: u64,
    /// What is kept back from harvests.
    pub treasury_reserve: u64,
    /// Everything ever paid out to users.
    pub total_distributed: u64,
    /// Protocol fees collected.
    pub treasury_fees: u64,
    /// When yield was last harvested.
    pub last_harvest_timestamp: i64,
    /// Minimum number of seconds between two harvests.
    pub harvest_cooldown: i64,
    /// Share of each harvest credited to the user rewards pool, in percent.
    pub user_share_percent: u8,
}

/// A state change of the ledger, as a caller may request it.
#[derive(Clone, Copy, Debug, PartialEq, Eq, Structural)]
pub enum LedgerOp {
    Harvest { amount: u64, now: i64 },
    Debit { amount: u64 },
    Fee { amount: u64 },
}

/// What a successful harvest reports.
#[derive(Clone, Copy, Debug, PartialEq, Eq, Structural)]
pub struct HarvestEvent {
    pub yield_amount: u64,
    pub user_share: u64,
    pub treasury_share: u64,
    pub timestamp: i64,
}

impl Treasury {
    /// The ledger's invariant: what sits in the pool and the reserve is
    /// exactly what was harvested and not yet paid out.
    pub open spec fn wf(self) -> bool {
        &&& self.user_rewards_pool + self.treasury_reserve + self.total_distributed == self.total_balance
        &&& self.user_share_percent <= 100
        &&& self.harvest_cooldown >= 0
    }

    /// The part of a harvest that goes to the user rewards pool.
    pub open spec fn user_share_of(self, amount: u64) -> nat {
        (amount * self.user_share_percent / 100) as nat
    }

    /// Why a harvest of `amount` at time `now` is refused, if it is.
    pub open spec fn harvest_error(self, amount: u64, now: i64) -> Option<GamingRewardsError> {
        if amount == 0 {
            Some(GamingRewardsError::InvalidYieldAmount)
        } else if now - self.last_harvest_timestamp < self.harvest_cooldown {
            Some(GamingRewardsError::HarvestTooFrequent)
        } else if self.total_balance + amount > u64::MAX {
            Some(GamingRewardsError::ArithmeticOverflow)
        } else {
            None
        }
    }

    /// The ledger after an admitted harvest.
    pub open spec fn after_harvest(self, amount: u64, now: i64) -> Treasury {
        Treasury {
            user_rewards_pool: (self.user_rewards_pool + self.user_share_of(amount)) as u64,
            treasury_reserve: (self.treasury_reserve + amount - self.user_share_of(amount)) as u64,
            total_balance: (self.total_balance + amount) as u64,
            last_harvest_timestamp: now,
            ..self
        }
    }

    /// Why a debit of `amount` from the pool is refused, if it is.
    pub open spec fn debit_error(self, amount: u64) -> Option<GamingRewardsError> {
        if amount == 0 {
            Some(GamingRewardsError::InvalidClaimAmount)
        } else if amount > self.user_rewards_pool {
            Some(GamingRewardsError::InsufficientRewardsPool)
        } else {
            None
        }
    }

    /// The ledger after an admitted debit.
    pub open spec fn after_debit(self, amount: u64) -> Treasury {
        Treasury {
            user_rewards_pool: (self.user_rewards_pool - amount) as u64,
            total_distributed: (self.total_distributed + amount) as u64,
            ..self
        }
    }

    /// Why recording a fee is refused, if it is.
    pub open spec fn fee_error(self, amount: u64) -> Option<GamingRewardsError> {
        if self.treasury_fees + amount > u64::MAX {
            Some(GamingRewardsError::ArithmeticOverflow)
        } else {
            None
        }
    }

    /// Whether the ledger admits an operation.
    pub open spec fn admits(self, op: LedgerOp) -> bool {
        match op {
            LedgerOp::Harvest { amount, now } => self.harvest_error(amount, now) is None,
            LedgerOp::Debit { amount } => self.debit_error(amount) is None,
            LedgerOp::Fee { amount } => self.fee_error(amount) is None,
        }
    }

    /// The ledger after an operation: unchanged when it is refused.
    pub open spec fn step(self, op: LedgerOp) -> Treasury {
        if !self.admits(op) {
            self
        } else {
            match op {
                LedgerOp::Harvest { amount, now } => self.after_harvest(amount, now),
                LedgerOp::Debit { amount } => self.after_debit(amount),
                LedgerOp::Fee { amount } => Treasury { treasury_fees: (self.treasury_fees + amount) as u64, ..self },
            }
        }
    }

    /// A fresh ledger with the default policy: half of each harvest to users,
    /// at most one harvest an hour.
    pub fn initialize(authority: Pubkey, now: i64) -> (r: Treasury)
        ensures
            r.wf(),
            r.authority == authority,
            r.total_balance == 0,
            r.user_rewards_pool == 0,
            r.treasury_reserve == 0,
            r.total_distributed == 0,
            r.treasury_fees == 0,
            r.last_harvest_timestamp == now,
            r.harvest_cooldown == HARVEST_COOLDOWN,
            r.user_share_percent == USER_REWARDS_PERCENTAGE,
    {
        Treasury::initialize_with_policy(authority, now, HARVEST_COOLDOWN, USER_REWARDS_PERCENTAGE)
    }

    /// A fresh ledger with the given harvest interval and user share.
    pub fn initialize_with_policy(authority: Pubkey, now: i64, harvest_cooldown: i64, user_share_percent: u8) -> (r: Treasury)
        requires
            harvest_cooldown >= 0,
            user_share_percent <= 100,
        ensures
            r.wf(),
            r.authority == authority,
            r.total_balance == 0,
            r.user_rewards_pool == 0,
            r.treasury_reserve == 0,
            r.total_distributed == 0,
            r.treasury_fees == 0,
            r.last_harvest_timestamp == now,
            r.harvest_cooldown == harvest_cooldown,
            r.user_share_percent == user_share_percent,
    {
        Treasury {
            authority,
            total_balance: 0,
            user_rewards_pool: 0,
            treasury_reserve: 0,
            total_distributed: 0,
            treasury_fees: 0,
            last_harvest_timestamp: now,
            harvest_cooldown,
            user_share_percent,
        }
    }

    /// The part of a harvest of `amount` that goes to the user rewards pool.
    pub fn user_share(&self, amount: u64) -> (r: u64)
        requires
            self.user_share_percent <= 100,
        ensures
            r == self.user_share_of(amount),
            r <= amount,
    {
        let a = amount as u128;
        let p = self.user_share_percent as u128;
        assert(a * p <= a * 100) by (nonlinear_arith)
            requires
                p <= 100,
        ;
        let share = a * p / 100;
        assert(share <= amount) by (nonlinear_arith)
            requires
                share == a * p / 100,
                a == amount,
                p <= 100,
        ;
        share as u64
    }

    /// Whether enough time has passed since the last harvest.
    pub fn can_harvest(&self, now: i64) -> (r: bool)
        ensures
            r == (now - self.last_harvest_timestamp >= self.harvest_cooldown),
    {
        (now as i128) - (self.last_harvest_timestamp as i128) >= self.harvest_cooldown as i128
    }

    /// Credits harvested yield: the user share to the pool, the rest to the
    /// reserve. Refused when `amount` is zero, when the last harvest is too
    /// recent, or when a balance would overflow.
    pub fn add_yield(&mut self, amount: u64, now: i64) -> (r: Result<(), GamingRewardsError>)
        requires
            old(self).wf(),
        ensures
            final(self).wf(),
            r is Ok <==> old(self).harvest_error(amount, now) is None,
            r is Err ==> r->Err_0 == old(self).harvest_error(amount, now)->Some_0 && *final(self) == *old(self),
            r is Ok ==> *final(self) == old(self).after_harvest(amount, now),
            r is Ok ==> final(self).user_rewards_pool + final(self).treasury_reserve
                == old(self).user_rewards_pool + old(self).treasury_reserve + amount,
    {
        if amount == 0 {
            return Err(GamingRewardsError::InvalidYieldAmount);
        }
        if !self.can_harvest(now) {
            return Err(GamingRewardsError::HarvestTooFrequent);
        }
        if amount > u64::MAX - self.total_balance {
            return Err(GamingRewardsError::ArithmeticOverflow);
        }
        let share = self.user_share(amount);
        self.user_rewards_pool = self.user_rewards_pool + share;
        self.treasury_reserve = self.treasury_reserve + (amount - share);
        self.total_balance = self.total_balance + amount;
        self.last_harvest_timestamp = now;
        Ok(())
    }

    /// Debits a user payout from the pool. Refused when `amount` is zero or
    /// more than the pool holds.
    pub fn subtract_from_rewards_pool(&mut self, amount: u64) -> (r: Result<(), GamingRewardsError>)
        requires
            old(self).wf(),
        ensures
            final(self).wf(),
            r is Ok <==> old(self).debit_error(amount) is None,
            r is Err ==> r->Err_0 == old(self).debit_error(amount)->Some_0 && *final(self) == *old(self),
            r is Ok ==> *final(self) == old(self).after_debit(amount),
            r is Ok ==> final(self).user_rewards_pool == old(self).user_rewards_pool - amount,
    {
        if amount == 0 {
            return Err(GamingRewardsError::InvalidClaimAmount);
        }
        if amount > self.user_rewards_pool {
            return Err(GamingRewardsError::InsufficientRewardsPool);
        }
        self.user_rewards_pool = self.user_rewards_pool - amount;
        self.total_distributed = self.total_distributed + amount;
        Ok(())
    }

    /// Records a protocol fee.
    pub fn add_fee(&mut self, amount: u64) -> (r: Result<(), GamingRewardsError>)
        requires
            old(self).wf(),
        ensures
            final(self).wf(),
            r is Ok <==> old(self).fee_error(amount) is None,
            r is Err ==> r->Err_0 == GamingRewardsError::ArithmeticOverflow && *final(self) == *old(self),
            *final(self) == old(self).step(LedgerOp::Fee { amount }),
    {
        if amount > u64::MAX - self.treasury_fees {
            return Err(GamingRewardsError::ArithmeticOverflow);
        }
        self.treasury_fees = self.treasury_fees + amount;
        Ok(())
    }

    /// Applies one ledger operation.
    pub fn apply(&mut self, op: LedgerOp) -> (r: Result<(), GamingRewardsError>)
        requires
            old(self).wf(),
        ensures
            final(self).wf(),
            r is Ok <==> old(self).admits(op),
            *final(self) == old(self).step(op),
    {
        match op {
            LedgerOp::Harvest { amount, now } => self.add_yield(amount, now),
            LedgerOp::Debit { amount } => self.subtract_from_rewards_pool(amount),
            LedgerOp::Fee { amount } => self.add_fee(amount),
        }
    }

    /// Harvests yield on behalf of `caller`, who must be the treasury's
    /// authority.
    pub fn harvest_and_rebalance(&mut self, caller: &Pubkey, yield_amount: u64, now: i64) -> (r: Result<HarvestEvent, GamingRewardsError>)
        requires
            old(self).wf(),
        ensures
            final(self).wf(),
            r is Ok <==> caller@ == old(self).authority@ && old(self).harvest_error(yield_amount, now) is None,
            r is Err ==> *final(self) == *old(self),
            r is Err && caller@ != old(self).authority@ ==> r->Err_0 == GamingRewardsError::Unauthorized,
            r is Err && caller@ == old(self).authority@ ==> r->Err_0 == old(self).harvest_error(yield_amount, now)->Some_0,
            r is Ok ==> *final(self) == old(self).after_harvest(yield_amount, now) && r->Ok_0 == (HarvestEvent {
                yield_amount,
                user_share: old(self).user_share_of(yield_amount) as u64,
                treasury_share: (yield_amount - old(self).user_share_of(yield_amount)) as u64,
                timestamp: now,
            }),
    {
        if !caller.same_as(&self.authority) {
            return Err(GamingRewardsError::Unauthorized);
        }
        let user_share = self.user_share(yield_amount);
        match self.add_yield(yield_amount, now) {
            Ok(()) => Ok(HarvestEvent { yield_amount, user_share, treasury_share: yield_amount - user_share, timestamp: now }),
            Err(e) => Err(e),
        }
    }
}

/// The ledger after a sequence of operations, each applied to the result of
/// the ones before it.
pub open spec fn ledger_run(t: Treasury, ops: Seq<LedgerOp>) -> Treasury
    decreases ops.len(),
{
    if ops.len() == 0 {
        t
    } else {
        ledger_run(t, ops.drop_last()).step(ops.last())
    }
}

/// The yield that the admitted harvests of a sequence brought in.
pub open spec fn harvested_total(t: Treasury, ops: Seq<LedgerOp>) -> int
    decreases ops.len(),
{
    if ops.len() == 0 {
        0
    } else {
        let before = ledger_run(t, ops.drop_last());
        harvested_total(t, ops.drop_last()) + match ops.last() {
            LedgerOp::Harvest { amount, now } => if before.admits(ops.last()) { amount as int } else { 0 },
            _ => 0,
        }
    }
}

/// What the admitted debits of a sequence paid out.
pub open spec fn distributed_total(t: Treasury, ops: Seq<LedgerOp>) -> int
    decreases ops.len(),
{
    if ops.len() == 0 {
        0
    } else {
        let before = ledger_run(t, ops.drop_last());
        distributed_total(t, ops.drop_last()) + match ops.last() {
            LedgerOp::Debit { amount } => if before.admits(ops.last()) { amount as int } else { 0 },
            _ => 0,
        }
    }
}

/// Conservation of value: after any sequence of harvests, debits and fees,
/// the pool and the reserve together hold what they held before, plus the
/// yield harvested, minus what was paid out; and the ledger stays well formed.
pub proof fn lemma_ledger_conservation(t: Treasury, ops: Seq<LedgerOp>)
    requires
        t.wf(),
    ensures
        ledger_run(t, ops).wf(),
        ledger_run(t, ops).user_rewards_pool + ledger_run(t, ops).treasury_reserve
            == t.user_rewards_pool + t.treasury_reserve + harvested_total(t, ops) - distributed_total(t, ops),
        ledger_run(t, ops).total_distributed == t.total_distributed + distributed_total(t, ops),
    decreases ops.len(),
{
    if ops.len() > 0 {
        lemma_ledger_conservation(t, ops.drop_last());
        let before = ledger_run(t, ops.drop_last());
        lemma_step_wf(before, ops.last());
    }
}

/// One operation keeps the ledger well formed.
proof fn lemma_step_wf(t: Treasury, op: LedgerOp)
    requires
        t.wf(),
    ensures
        t.step(op).wf(),
{
    if let LedgerOp::Harvest { amount, now } = op {
        let share = t.user_share_of(amount);
        assert(share <= amount) by (nonlinear_arith)
            requires
                share == (amount * t.user_share_percent / 100) as nat,
                t.user_share_percent <= 100,
        ;
    }
}

/// A ledger that starts empty holds in its pool and reserve exactly the
/// yield harvested minus the payouts, whatever the sequence of operations.
pub proof fn lemma_fresh_ledger_conservation(authority: Pubkey, now: i64, ops: Seq<LedgerOp>)
    ensures
        ({
            let t = Treasury {
                authority,
                total_balance: 0,
                user_rewards_pool: 0,
                treasury_reserve: 0,
                total_distributed: 0,
                treasury_fees: 0,
                last_harvest_timestamp: now,
                harvest_cooldown: HARVEST_COOLDOWN,
                user_share_percent: USER_REWARDS_PERCENTAGE,
            };
            ledger_run(t, ops).user_rewards_pool + ledger_run(t, ops).treasury_reserve
                == harvested_total(t, ops) - distributed_total(t, ops)
        }),
{
    let t = Treasury {
        authority,
        total_balance: 0,
        user_rewards_pool: 0,
        treasury_reserve: 0,
        total_distributed: 0,
        treasury_fees: 0,
        last_harvest_timestamp: now,
        harvest_cooldown: HARVEST_COOLDOWN,
        user_share_percent: USER_REWARDS_PERCENTAGE,
    };
    lemma_ledger_conservation(t, ops);
}

} // verus!
