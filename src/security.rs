//! The security policy engine: a policy for each kind of operation, an
//! emergency pause, and an append-only audit log of bounded size.
use vstd::prelude::*;
use crate::crypto::{sha256, sha256_of};
use crate::keys::Pubkey;

verus! {

/// Most entries the audit log keeps; the oldest go first.
pub const MAX_AUDIT_ENTRIES: usize = 10000;

/// Default multi-signature threshold.
pub const DEFAULT_MULTISIG_THRESHOLD: u8 = 3;

/// Default time lock for critical operations, in seconds.
pub const DEFAULT_TIMELOCK_DURATION: i64 = 86400;

/// The kinds of operation that policies govern.
#[derive(Clone, Copy, Debug, PartialEq, Eq, Structural)]
pub enum OperationKind {
    ClaimReward,
    HarvestRebalance,
    EmergencyOperation,
}

/// How sensitive an operation is.
#[derive(Clone, Copy, Debug, PartialEq, Eq, Structural)]
pub enum SecurityLevel {
    Low,
    Medium,
    High,
    Critical,
    Maximum,
}

/// What exceeding a rate limit costs.
#[derive(Clone, Copy, Debug, PartialEq, Eq, Structural)]
pub enum RateLimitPenalty {
    Suspension { duration: i64 },
    StakeSlashing { amount: u64 },
    PermanentBan,
}

/// A kind of check an operation may require.
#[derive(Clone, Copy, Debug, PartialEq, Eq, Structural)]
pub enum VerificationType {
    Oracle,
    MultiSignature,
    TimeLock,
    Stake,
    Reputation,
}

/// How often an actor may perform an operation.
#[derive(Clone, Copy, Debug, PartialEq, Eq, Structural)]
pub struct RateLimitConfig {
    pub max_operations: u64,
    pub time_window: i64,
    pub penalty: RateLimitPenalty,
}

/// The rules for one kind of operation.
#[derive(Clone, Debug)]
pub struct SecurityPolicy {
    pub min_security_level: SecurityLevel,
    pub rate_limit: RateLimitConfig,
    pub required_verifications: Vec<VerificationType>,
    pub timelock_required: bool,
    pub multisig_required: bool,
}

/// One record of the audit log. Parameters are kept only as a digest.
#[derive(Clone, Copy, Debug)]
pub struct SecurityAuditEntry {
    pub timestamp: i64,
    pub operation: OperationKind,
    pub user: Pubkey,
    pub parameters_hash: [u8; 32],
    pub security_level: SecurityLevel,
    pub verified: bool,
}

/// Why a privileged action was refused.
#[derive(Clone, Copy, Debug, PartialEq, Eq, Structural)]
pub enum SecurityError {
    InvalidOwner,
    Unauthorized,
    ProtocolPaused,
    NotPaused,
    AlreadyPaused,
}

/// The policy table, the pause flag and the audit log.
#[derive(Clone, Debug)]
pub struct SecurityManager {
    pub owner: Pubkey,
    pub audit_trail: Vec<SecurityAuditEntry>,
    pub claim_policy: SecurityPolicy,
    pub harvest_policy: SecurityPolicy,
    pub emergency_policy: SecurityPolicy,
    pub emergency_paused: bool,
    pub security_incidents: u64,
    pub multisig_threshold: u8,
    pub timelock_duration: i64,
}

/// The log after appending `e`: when it then holds more than the maximum,
/// its oldest entry is dropped.
pub open spec fn appended(trail: Seq<SecurityAuditEntry>, e: SecurityAuditEntry) -> Seq<SecurityAuditEntry> {
    if trail.len() + 1 > MAX_AUDIT_ENTRIES {
        trail.push(e).drop_first()
    } else {
        trail.push(e)
    }
}

/// Whether an entry records `op` by `user` at or after time `since`.
pub open spec fn counts_against(e: SecurityAuditEntry, op: OperationKind, user: Seq<u8>, since: int) -> bool {
    e.operation == op && e.user@ == user && e.timestamp >= since
}

/// How many entries of `trail` record `op` by `user` at or after `since`.
pub open spec fn recent_count(trail: Seq<SecurityAuditEntry>, op: OperationKind, user: Seq<u8>, since: int) -> nat
    decreases trail.len(),
{
    if trail.len() == 0 {
        0
    } else {
        recent_count(trail.drop_last(), op, user, since) + if counts_against(trail.last(), op, user, since) { 1nat } else { 0 }
    }
}

/// Whether `user` meets `level`: the two highest levels are the owner's alone.
pub open spec fn level_met(level: SecurityLevel, user: Seq<u8>, owner: Seq<u8>) -> bool {
    match level {
        SecurityLevel::Critical | SecurityLevel::Maximum => user == owner,
        _ => true,
    }
}

/// Whether every verification in `required` is among `provided`.
pub open spec fn verifications_met(required: Seq<VerificationType>, provided: Seq<VerificationType>) -> bool {
    forall|i: int| 0 <= i < required.len() ==> provided.contains(#[trigger] required[i])
}

/// Whether `p` is the default policy for `kind`: claims need a medium level,
/// an oracle and a stake, once a day; harvests a high level, multiple
/// signatures and a time lock, once an hour; emergency operations the
/// highest level, multiple signatures, a time lock and an oracle, once a day.
pub open spec fn is_default_policy(kind: OperationKind, p: SecurityPolicy) -> bool {
    &&& p.rate_limit.max_operations == 1
    &&& match kind {
        OperationKind::ClaimReward => {
            &&& p.min_security_level == SecurityLevel::Medium
            &&& p.rate_limit.time_window == 86400
            &&& p.rate_limit.penalty == (RateLimitPenalty::Suspension { duration: 3600 })
            &&& p.required_verifications@ == seq![VerificationType::Oracle, VerificationType::Stake]
            &&& !p.timelock_required
            &&& !p.multisig_required
        },
        OperationKind::HarvestRebalance => {
            &&& p.min_security_level == SecurityLevel::High
            &&& p.rate_limit.time_window == 3600
            &&& p.rate_limit.penalty == (RateLimitPenalty::StakeSlashing { amount: 1_000_000_000 })
            &&& p.required_verifications@ == seq![VerificationType::MultiSignature, VerificationType::TimeLock]
            &&& p.timelock_required
            &&& p.multisig_required
        },
        OperationKind::EmergencyOperation => {
            &&& p.min_security_level == SecurityLevel::Maximum
            &&& p.rate_limit.time_window == 86400
            &&& p.rate_limit.penalty == RateLimitPenalty::PermanentBan
            &&& p.required_verifications@ == seq![VerificationType::MultiSignature, VerificationType::TimeLock, VerificationType::Oracle]
            &&& p.timelock_required
            &&& p.multisig_required
        },
    }
}

/// The default policy for `kind`.
pub fn default_policy(kind: OperationKind) -> (r: SecurityPolicy)
    ensures
        is_default_policy(kind, r),
{
    match kind {
        OperationKind::ClaimReward => SecurityPolicy {
            min_security_level: SecurityLevel::Medium,
            rate_limit: RateLimitConfig { max_operations: 1, time_window: 86400, penalty: RateLimitPenalty::Suspension { duration: 3600 } },
            required_verifications: vec![VerificationType::Oracle, VerificationType::Stake],
            timelock_required: false,
            multisig_required: false,
        },
        OperationKind::HarvestRebalance => SecurityPolicy {
            min_security_level: SecurityLevel::High,
            rate_limit: RateLimitConfig {
                max_operations: 1,
                time_window: 3600,
                penalty: RateLimitPenalty::StakeSlashing { amount: 1_000_000_000 },
            },
            required_verifications: vec![VerificationType::MultiSignature, VerificationType::TimeLock],
            timelock_required: true,
            multisig_required: true,
        },
        OperationKind::EmergencyOperation => SecurityPolicy {
            min_security_level: SecurityLevel::Maximum,
            rate_limit: RateLimitConfig { max_operations: 1, time_window: 86400, penalty: RateLimitPenalty::PermanentBan },
            required_verifications: vec![VerificationType::MultiSignature, VerificationType::TimeLock, VerificationType::Oracle],
            timelock_required: true,
            multisig_required: true,
        },
    }
}

impl SecurityManager {
    /// The engine's invariant: the audit log never exceeds its bound.
    pub open spec fn wf(self) -> bool {
        self.audit_trail@.len() <= MAX_AUDIT_ENTRIES
    }

    /// The policy that governs `kind`.
    pub open spec fn policy_of(self, kind: OperationKind) -> SecurityPolicy {
        match kind {
            OperationKind::ClaimReward => self.claim_policy,
            OperationKind::HarvestRebalance => self.harvest_policy,
            OperationKind::EmergencyOperation => self.emergency_policy,
        }
    }

    /// Whether the rate limit of `kind` admits `user` at time `now`.
    pub open spec fn rate_allows(self, kind: OperationKind, user: Seq<u8>, now: i64) -> bool {
        let limit = self.policy_of(kind).rate_limit;
        recent_count(self.audit_trail@, kind, user, now - limit.time_window) < limit.max_operations
    }

    /// Whether `user` may perform `kind` at time `now`, having passed the
    /// verifications in `provided`.
    pub open spec fn allows(self, kind: OperationKind, user: Seq<u8>, now: i64, provided: Seq<VerificationType>) -> bool {
        &&& !self.emergency_paused
        &&& self.rate_allows(kind, user, now)
        &&& level_met(self.policy_of(kind).min_security_level, user, self.owner@)
        &&& verifications_met(self.policy_of(kind).required_verifications@, provided)
    }

    /// A manager owned by `owner`, unpaused, with the default policies and
    /// an empty log. Refused for the all-zero key.
    pub fn initialize(owner: Pubkey) -> (r: Result<SecurityManager, SecurityError>)
        ensures
            r is Ok <==> owner@ != Seq::new(32, |i: int| 0u8),
            r is Err ==> r->Err_0 == SecurityError::InvalidOwner,
            r is Ok ==> ({
                let m = r->Ok_0;
                &&& m.wf()
                &&& m.owner == owner
                &&& !m.emergency_paused
                &&& m.audit_trail@.len() == 0
                &&& m.security_incidents == 0
                &&& m.multisig_threshold == DEFAULT_MULTISIG_THRESHOLD
                &&& m.timelock_duration == DEFAULT_TIMELOCK_DURATION
                &&& forall|k: OperationKind| is_default_policy(k, #[trigger] m.policy_of(k))
            }),
    {
        if owner.is_default() {
            return Err(SecurityError::InvalidOwner);
        }
        Ok(SecurityManager {
            owner,
            audit_trail: Vec::new(),
            claim_policy: default_policy(OperationKind::ClaimReward),
            harvest_policy: default_policy(OperationKind::HarvestRebalance),
            emergency_policy: default_policy(OperationKind::EmergencyOperation),
            emergency_paused: false,
            security_incidents: 0,
            multisig_threshold: DEFAULT_MULTISIG_THRESHOLD,
            timelock_duration: DEFAULT_TIMELOCK_DURATION,
        })
    }

    /// The policy that governs `kind`.
    pub fn policy(&self, kind: OperationKind) -> (r: &SecurityPolicy)
        ensures
            *r == self.policy_of(kind),
    {
        match kind {
            OperationKind::ClaimReward => &self.claim_policy,
            OperationKind::HarvestRebalance => &self.harvest_policy,
            OperationKind::EmergencyOperation => &self.emergency_policy,
        }
    }

    /// Appends a record of `operation` by `user` at time `now`; only the
    /// SHA-256 digest of `parameters` is kept. When the log is full its
    /// oldest record goes.
    pub fn add_audit_entry(
        &mut self,
        operation: OperationKind,
        user: &Pubkey,
        parameters: &[u8],
        security_level: SecurityLevel,
        verified: bool,
        now: i64,
    )
        requires
            old(self).wf(),
        ensures
            final(self).wf(),
            final(self).audit_trail@ == appended(old(self).audit_trail@, final(self).audit_trail@.last()),
            final(self).audit_trail@.last().timestamp == now,
            final(self).audit_trail@.last().operation == operation,
            final(self).audit_trail@.last().user == *user,
            final(self).audit_trail@.last().parameters_hash@ == sha256_of(parameters@),
            final(self).audit_trail@.last().security_level == security_level,
            final(self).audit_trail@.last().verified == verified,
            *final(self) == (SecurityManager { audit_trail: final(self).audit_trail, ..*old(self) }),
    {
        let parameters_hash = sha256(parameters);
        let entry = SecurityAuditEntry { timestamp: now, operation, user: *user, parameters_hash, security_level, verified };
        self.audit_trail.push(entry);
        if self.audit_trail.len() > MAX_AUDIT_ENTRIES {
            self.audit_trail.remove(0);
        }
        proof {
            let pushed = old(self).audit_trail@.push(entry);
            if pushed.len() > MAX_AUDIT_ENTRIES {
                assert(pushed.remove(0) =~= pushed.drop_first());
            }
        }
    }

    /// How many records of `operation` by `user` are at or after `since`.
    pub fn count_recent(&self, operation: OperationKind, user: &Pubkey, since: i64) -> (r: u64)
        requires
            self.wf(),
        ensures
            r == recent_count(self.audit_trail@, operation, user@, since as int),
    {
        let mut count: u64 = 0;
        let mut i: usize = 0;
        while i < self.audit_trail.len()
            invariant
                0 <= i <= self.audit_trail@.len(),
                self.audit_trail@.len() <= MAX_AUDIT_ENTRIES,
                count == recent_count(self.audit_trail@.subrange(0, i as int), operation, user@, since as int),
                count <= i,
            decreases self.audit_trail@.len() - i,
        {
            let e = &self.audit_trail[i];
            assert(self.audit_trail@.subrange(0, i + 1).drop_last() =~= self.audit_trail@.subrange(0, i as int));
            if e.operation == operation && e.user.same_as(user) && e.timestamp >= since {
                count = count + 1;
            }
            i = i + 1;
        }
        assert(self.audit_trail@.subrange(0, i as int) =~= self.audit_trail@);
        count
    }

    /// Whether the rate limit of `kind` admits `user` at time `now`.
    pub fn check_rate_limit(&self, kind: OperationKind, user: &Pubkey, now: i64) -> (r: bool)
        requires
            self.wf(),
        ensures
            r == self.rate_allows(kind, user@, now),
    {
        let limit = self.policy(kind).rate_limit;
        let since: i128 = (now as i128) - (limit.time_window as i128);
        let count = if since < i64::MIN as i128 {
            proof { lemma_count_monotone_since(self.audit_trail@, kind, user@, since as int); }
            self.count_recent(kind, user, i64::MIN)
        } else if since > i64::MAX as i128 {
            proof { lemma_count_none_after(self.audit_trail@, kind, user@, since as int); }
            0
        } else {
            self.count_recent(kind, user, since as i64)
        };
        count < limit.max_operations
    }

    /// Whether `user` meets the security level of `kind`.
    pub fn check_security_level(&self, kind: OperationKind, user: &Pubkey) -> (r: bool)
        ensures
            r == level_met(self.policy_of(kind).min_security_level, user@, self.owner@),
    {
        match self.policy(kind).min_security_level {
            SecurityLevel::Critical | SecurityLevel::Maximum => user.same_as(&self.owner),
            _ => true,
        }
    }

    /// Whether every verification that `kind` requires is among `provided`.
    pub fn check_verifications(&self, kind: OperationKind, provided: &Vec<VerificationType>) -> (r: bool)
        ensures
            r == verifications_met(self.policy_of(kind).required_verifications@, provided@),
    {
        let required = &self.policy(kind).required_verifications;
        let mut i: usize = 0;
        while i < required.len()
            invariant
                0 <= i <= required@.len(),
                *required == self.policy_of(kind).required_verifications,
                verifications_met(required@.subrange(0, i as int), provided@),
            decreases required@.len() - i,
        {
            let mut found = false;
            let mut j: usize = 0;
            while j < provided.len()
                invariant
                    0 <= j <= provided@.len(),
                    0 <= i < required@.len(),
                    found <==> provided@.subrange(0, j as int).contains(required@[i as int]),
                decreases provided@.len() - j,
            {
                if provided[j] == required[i] {
                    found = true;
                }
                proof {
                    let s = provided@.subrange(0, j + 1);
                    if s.contains(required@[i as int]) {
                        let k = choose|k: int| 0 <= k < s.len() && s[k] == required@[i as int];
                        if k < j {
                            assert(provided@.subrange(0, j as int)[k] == required@[i as int]);
                        }
                    }
                    if found {
                        if provided@.subrange(0, j as int).contains(required@[i as int]) {
                            let k = choose|k: int| 0 <= k < j && provided@.subrange(0, j as int)[k] == required@[i as int];
                            assert(s[k] == required@[i as int]);
                        } else {
                            assert(s[j as int] == required@[i as int]);
                        }
                    }
                }
                j = j + 1;
            }
            assert(provided@.subrange(0, provided@.len() as int) =~= provided@);
            if !found {
                assert(!verifications_met(required@, provided@));
                return false;
            }
            assert forall|k: int| 0 <= k < i + 1 implies provided@.contains(#[trigger] required@.subrange(0, i + 1)[k]) by {
                if k < i {
                    assert(required@.subrange(0, i + 1)[k] == required@.subrange(0, i as int)[k]);
                }
            }
            i = i + 1;
        }
        assert(required@.subrange(0, required@.len() as int) =~= required@);
        true
    }

    /// Whether `user` may perform `kind` at time `now`, having passed the
    /// verifications in `provided`. Checks, in order, the pause flag, the
    /// rate limit, the security level and each required verification.
    pub fn verify_operation(&self, kind: OperationKind, user: &Pubkey, now: i64, provided: &Vec<VerificationType>) -> (r: bool)
        requires
            self.wf(),
        ensures
            r == self.allows(kind, user@, now, provided@),
    {
        if self.emergency_paused {
            return false;
        }
        if !self.check_rate_limit(kind, user, now) {
            return false;
        }
        if !self.check_security_level(kind, user) {
            return false;
        }
        self.check_verifications(kind, provided)
    }

    /// Pauses the protocol. Only the owner may, and only when it is not
    /// paused; the attempt is logged either way.
    pub fn emergency_pause(&mut self, user: &Pubkey, now: i64) -> (r: Result<(), SecurityError>)
        requires
            old(self).wf(),
        ensures
            final(self).wf(),
            r is Ok <==> user@ == old(self).owner@ && !old(self).emergency_paused,
            r is Err ==> r->Err_0 == (if user@ != old(self).owner@ { SecurityError::Unauthorized } else { SecurityError::AlreadyPaused }),
            final(self).emergency_paused == (old(self).emergency_paused || r is Ok),
            final(self).security_incidents == (if r is Ok && old(self).security_incidents < u64::MAX {
                (old(self).security_incidents + 1) as u64
            } else {
                old(self).security_incidents
            }),
            *final(self) == (SecurityManager {
                audit_trail: final(self).audit_trail,
                emergency_paused: final(self).emergency_paused,
                security_incidents: final(self).security_incidents,
                ..*old(self)
            }),
            final(self).audit_trail@ == appended(old(self).audit_trail@, final(self).audit_trail@.last()),
            final(self).audit_trail@.last().operation == OperationKind::EmergencyOperation,
            final(self).audit_trail@.last().user == *user,
            final(self).audit_trail@.last().verified == r is Ok,
    {
        let result = if !user.same_as(&self.owner) {
            Err(SecurityError::Unauthorized)
        } else if self.emergency_paused {
            Err(SecurityError::AlreadyPaused)
        } else {
            self.emergency_paused = true;
            if self.security_incidents < u64::MAX {
                self.security_incidents = self.security_incidents + 1;
            }
            Ok(())
        };
        let parameters: Vec<u8> = Vec::new();
        self.add_audit_entry(OperationKind::EmergencyOperation, user, parameters.as_slice(), SecurityLevel::Maximum, result.is_ok(), now);
        result
    }

    /// Lifts the pause. Only the owner may, and only when it is paused; the
    /// attempt is logged either way.
    pub fn resume_operations(&mut self, user: &Pubkey, now: i64) -> (r: Result<(), SecurityError>)
        requires
            old(self).wf(),
        ensures
            final(self).wf(),
            r is Ok <==> user@ == old(self).owner@ && old(self).emergency_paused,
            r is Err ==> r->Err_0 == (if user@ != old(self).owner@ { SecurityError::Unauthorized } else { SecurityError::NotPaused }),
            final(self).emergency_paused == (old(self).emergency_paused && r is Err),
            *final(self) == (SecurityManager {
                audit_trail: final(self).audit_trail,
                emergency_paused: final(self).emergency_paused,
                ..*old(self)
            }),
            final(self).audit_trail@ == appended(old(self).audit_trail@, final(self).audit_trail@.last()),
            final(self).audit_trail@.last().operation == OperationKind::EmergencyOperation,
            final(self).audit_trail@.last().user == *user,
            final(self).audit_trail@.last().verified == r is Ok,
    {
        let result = if !user.same_as(&self.owner) {
            Err(SecurityError::Unauthorized)
        } else if !self.emergency_paused {
            Err(SecurityError::NotPaused)
        } else {
            self.emergency_paused = false;
            Ok(())
        };
        let parameters: Vec<u8> = Vec::new();
        self.add_audit_entry(OperationKind::EmergencyOperation, user, parameters.as_slice(), SecurityLevel::Maximum, result.is_ok(), now);
        result
    }

    /// Replaces the policy of `kind`. Only the owner may; the attempt is
    /// logged either way.
    pub fn update_security_policy(&mut self, kind: OperationKind, policy: SecurityPolicy, user: &Pubkey, now: i64) -> (r: Result<(), SecurityError>)
        requires
            old(self).wf(),
        ensures
            final(self).wf(),
            r is Ok <==> user@ == old(self).owner@,
            r is Err ==> r->Err_0 == SecurityError::Unauthorized,
            r is Ok ==> final(self).policy_of(kind) == policy,
            r is Err ==> final(self).policy_of(kind) == old(self).policy_of(kind),
            forall|k: OperationKind| k != kind ==> final(self).policy_of(k) == old(self).policy_of(k),
            final(self).emergency_paused == old(self).emergency_paused,
            final(self).owner == old(self).owner,
            final(self).security_incidents == old(self).security_incidents,
            final(self).multisig_threshold == old(self).multisig_threshold,
            final(self).timelock_duration == old(self).timelock_duration,
            final(self).audit_trail@ == appended(old(self).audit_trail@, final(self).audit_trail@.last()),
            final(self).audit_trail@.last().operation == OperationKind::EmergencyOperation,
            final(self).audit_trail@.last().user == *user,
            final(self).audit_trail@.last().verified == r is Ok,
    {
        let result = if !user.same_as(&self.owner) {
            Err(SecurityError::Unauthorized)
        } else {
            match kind {
                OperationKind::ClaimReward => self.claim_policy = policy,
                OperationKind::HarvestRebalance => self.harvest_policy = policy,
                OperationKind::EmergencyOperation => self.emergency_policy = policy,
            }
            Ok(())
        };
        let parameters: Vec<u8> = Vec::new();
        self.add_audit_entry(OperationKind::EmergencyOperation, user, parameters.as_slice(), SecurityLevel::Critical, result.is_ok(), now);
        result
    }
}

/// Entries before `i64::MIN` do not exist, so counting from any earlier time
/// is counting from `i64::MIN`.
proof fn lemma_count_monotone_since(trail: Seq<SecurityAuditEntry>, op: OperationKind, user: Seq<u8>, since: int)
    requires
        since < i64::MIN,
    ensures
        recent_count(trail, op, user, since) == recent_count(trail, op, user, i64::MIN as int),
    decreases trail.len(),
{
    if trail.len() > 0 {
        lemma_count_monotone_since(trail.drop_last(), op, user, since);
    }
}

/// No entry lies after `i64::MAX`.
proof fn lemma_count_none_after(trail: Seq<SecurityAuditEntry>, op: OperationKind, user: Seq<u8>, since: int)
    requires
        since > i64::MAX,
    ensures
        recent_count(trail, op, user, since) == 0,
    decreases trail.len(),
{
    if trail.len() > 0 {
        lemma_count_none_after(trail.drop_last(), op, user, since);
    }
}

} // verus!
