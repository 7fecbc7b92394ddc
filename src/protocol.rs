//! The protocol's entry points that tie an oracle's attestation to a user's
//! verification profile: registration, and the session, wallet and
//! multi-factor steps.
use vstd::prelude::*;
use crate::claims::UserReward;
use crate::crypto::{ed25519_accepts, verify_ed25519};
use crate::encoding::{encode_multi_factor_message, multi_factor_message, session_message, wallet_message};
use crate::errors::GamingRewardsError;
use crate::keys::Pubkey;
use crate::crypto::sha256_of;
use crate::encoding::{decimal_digits, push_decimal};
use crate::oracle::{slash_oracle, OracleAccount, SlashOracleEvent, MIN_ORACLE_STAKE};
use crate::security::{appended, OperationKind, SecurityLevel, SecurityManager};
use crate::treasury::{HarvestEvent, Treasury};
use crate::verification::{
    multi_factor_report_error, oauth_error, ticket_error, validate_multi_factor_verification,
    validate_oauth_wallet_signature, validate_steam_session_ticket, MultiFactorVerification,
    OAuthWalletSignature, ProfileOp, SteamSessionTicket, UserVerificationProfile,
};

verus! {

/// Smallest 17-digit platform id.
pub const MIN_STEAM_ID: u64 = 10_000_000_000_000_000;

/// Largest 17-digit platform id.
pub const MAX_STEAM_ID: u64 = 99_999_999_999_999_999;

/// What a registration creates.
#[derive(Clone, Debug)]
pub struct Registration {
    pub profile: UserVerificationProfile,
    pub rewards: UserReward,
}

/// What a verified session reports.
#[derive(Clone, Copy, Debug)]
pub struct SteamSessionVerifiedEvent {
    pub user: Pubkey,
    pub steam_id: u64,
    pub timestamp: i64,
    pub oracle: Pubkey,
}

/// What a verified wallet link reports.
#[derive(Clone, Copy, Debug)]
pub struct OAuthWalletVerifiedEvent {
    pub user: Pubkey,
    pub steam_id: u64,
    pub wallet: Pubkey,
    pub timestamp: i64,
    pub oracle: Pubkey,
}

/// What a completed multi-factor verification reports.
#[derive(Clone, Copy, Debug)]
pub struct MultiFactorVerifiedEvent {
    pub user: Pubkey,
    pub verification_level: u8,
    pub multi_factor_score: u64,
    pub ruby_score: u64,
    pub timestamp: i64,
    pub oracle: Pubkey,
}

/// Whether `steam_id` has exactly 17 decimal digits.
pub open spec fn valid_steam_id(steam_id: u64) -> bool {
    MIN_STEAM_ID <= steam_id <= MAX_STEAM_ID
}

/// Registers `user` with a platform id of 17 decimal digits and the wallet
/// they will link: a fresh verification profile and a fresh reward account.
pub fn register_user(user: Pubkey, steam_id: u64, wallet: Pubkey) -> (r: Result<Registration, GamingRewardsError>)
    ensures
        r is Ok <==> valid_steam_id(steam_id),
        r is Err ==> r->Err_0 == GamingRewardsError::InvalidSteamId,
        r is Ok ==> ({
            let reg = r->Ok_0;
            &&& reg.profile.wf()
            &&& reg.profile.user == user
            &&& reg.profile.steam_id == steam_id
            &&& reg.profile.wallet_pubkey == wallet
            &&& reg.profile.verification_level == 0
            &&& !reg.profile.steam_session_valid
            &&& !reg.profile.oauth_wallet_linked
            &&& reg.profile.zkp_attestations@.len() == 0
            &&& reg.profile.multi_factor_score == 0
            &&& reg.profile.total_verifications == 0
            &&& reg.profile.last_verification == 0
            &&& !reg.profile.fraud_detected
            &&& reg.rewards.wf()
            &&& reg.rewards.user == user
            &&& reg.rewards.total_claimed == 0
            &&& reg.rewards.last_claim_timestamp == 0
            &&& reg.rewards.window_start_timestamp == 0
            &&& reg.rewards.staking_start_timestamp == 0
            &&& reg.rewards.staked_amount == 0
            &&& reg.rewards.claims_in_window == 0
            &&& !reg.rewards.is_staking
        }),
{
    if steam_id < MIN_STEAM_ID || steam_id > MAX_STEAM_ID {
        return Err(GamingRewardsError::InvalidSteamId);
    }
    Ok(Registration { profile: UserVerificationProfile::initialize(user, steam_id, wallet), rewards: UserReward::initialize(user) })
}

/// Why the session step is refused, if it is: the oracle's standing, the
/// ticket's shape, then the profile's own checks.
pub open spec fn session_step_error(
    profile: UserVerificationProfile,
    oracle: OracleAccount,
    ticket: SteamSessionTicket,
    signature_valid: bool,
    now: i64,
) -> Option<GamingRewardsError> {
    if oracle.stake_error(MIN_ORACLE_STAKE) is Some {
        oracle.stake_error(MIN_ORACLE_STAKE)
    } else if ticket_error(ticket) is Some {
        ticket_error(ticket)
    } else {
        profile.session_error(ticket, signature_valid, now)
    }
}

/// A staked, active oracle vouches for a game session; the profile records
/// it and the oracle is credited with a successful verification. Either
/// both accounts change or neither does.
pub fn verify_steam_session(
    profile: &mut UserVerificationProfile,
    oracle: &mut OracleAccount,
    ticket: &SteamSessionTicket,
    oracle_signature: &Vec<u8>,
    now: i64,
) -> (r: Result<SteamSessionVerifiedEvent, GamingRewardsError>)
    requires
        old(oracle).wf(),
    ensures
        final(oracle).wf(),
        ({
            let valid = ed25519_accepts(
                session_message(ticket.steam_id as nat, ticket.timestamp as int, ticket.session_id@),
                oracle_signature@,
                old(oracle).oracle@,
            );
            let e = session_step_error(*old(profile), *old(oracle), *ticket, valid, now);
            &&& r is Ok <==> e is None
            &&& r is Err ==> r->Err_0 == e->Some_0
            &&& r is Ok ==> old(profile).transition(ProfileOp::Session { ticket: *ticket, signature_valid: valid, now }, *final(profile))
        }),
        oracle_signature@.len() != 64 ==> r is Err,
        r is Err ==> *final(profile) == *old(profile) && *final(oracle) == *old(oracle),
        r is Ok ==> *final(oracle) == old(oracle).after_verification(true, now)
            && r->Ok_0.user == old(profile).user && r->Ok_0.steam_id == ticket.steam_id
            && r->Ok_0.timestamp == now && r->Ok_0.oracle == old(oracle).oracle,
{
    oracle.validate_stake(MIN_ORACLE_STAKE)?;
    validate_steam_session_ticket(ticket)?;
    let key = oracle.oracle;
    profile.verify_steam_session(ticket, oracle_signature, &key, now)?;
    oracle.record_verification(true, now);
    Ok(SteamSessionVerifiedEvent { user: profile.user, steam_id: ticket.steam_id, timestamp: now, oracle: key })
}

/// Why the wallet step is refused, if it is.
pub open spec fn wallet_step_error(
    profile: UserVerificationProfile,
    oracle: OracleAccount,
    data: OAuthWalletSignature,
    signature_valid: bool,
    now: i64,
) -> Option<GamingRewardsError> {
    if oracle.stake_error(MIN_ORACLE_STAKE) is Some {
        oracle.stake_error(MIN_ORACLE_STAKE)
    } else if oauth_error(data) is Some {
        oauth_error(data)
    } else {
        profile.wallet_error(data, signature_valid, now)
    }
}

/// A staked, active oracle relays a wallet's signature linking it to the
/// user's game account; the profile records the link and the oracle is
/// credited with a successful verification.
pub fn verify_oauth_wallet(
    profile: &mut UserVerificationProfile,
    oracle: &mut OracleAccount,
    data: &OAuthWalletSignature,
    now: i64,
) -> (r: Result<OAuthWalletVerifiedEvent, GamingRewardsError>)
    requires
        old(oracle).wf(),
    ensures
        final(oracle).wf(),
        ({
            let valid = ed25519_accepts(
                wallet_message(data.steam_id as nat, data.wallet_pubkey@, data.timestamp as int),
                data.signature@,
                data.wallet_pubkey@,
            );
            let e = wallet_step_error(*old(profile), *old(oracle), *data, valid, now);
            &&& r is Ok <==> e is None
            &&& r is Err ==> r->Err_0 == e->Some_0
            &&& r is Ok ==> old(profile).transition(ProfileOp::Wallet { data: *data, signature_valid: valid, now }, *final(profile))
        }),
        data.signature@.len() != 64 ==> r is Err,
        r is Err ==> *final(profile) == *old(profile) && *final(oracle) == *old(oracle),
        r is Ok ==> *final(oracle) == old(oracle).after_verification(true, now)
            && r->Ok_0.user == old(profile).user && r->Ok_0.steam_id == data.steam_id
            && r->Ok_0.wallet == data.wallet_pubkey && r->Ok_0.timestamp == now && r->Ok_0.oracle == old(oracle).oracle,
{
    oracle.validate_stake(MIN_ORACLE_STAKE)?;
    validate_oauth_wallet_signature(data)?;
    profile.verify_oauth_wallet(data, now)?;
    oracle.record_verification(true, now);
    Ok(OAuthWalletVerifiedEvent { user: profile.user, steam_id: data.steam_id, wallet: data.wallet_pubkey, timestamp: now, oracle: oracle.oracle })
}

/// Why the multi-factor step is refused, if it is.
pub open spec fn multi_factor_step_error(
    profile: UserVerificationProfile,
    oracle: OracleAccount,
    data: MultiFactorVerification,
    signature_valid: bool,
) -> Option<GamingRewardsError> {
    if oracle.stake_error(MIN_ORACLE_STAKE) is Some {
        oracle.stake_error(MIN_ORACLE_STAKE)
    } else if multi_factor_report_error(data) is Some {
        multi_factor_report_error(data)
    } else if !signature_valid {
        Some(GamingRewardsError::InvalidOracleSignature)
    } else {
        profile.multi_factor_error()
    }
}

/// A staked, active oracle signs a multi-factor report over
/// `user:ruby_score:verification_level`; the profile's score is replaced by
/// the report's and the oracle is credited with a successful verification.
pub fn verify_multi_factor(
    profile: &mut UserVerificationProfile,
    oracle: &mut OracleAccount,
    data: &MultiFactorVerification,
    oracle_signature: &Vec<u8>,
    now: i64,
) -> (r: Result<MultiFactorVerifiedEvent, GamingRewardsError>)
    requires
        old(oracle).wf(),
    ensures
        final(oracle).wf(),
        ({
            let valid = ed25519_accepts(
                multi_factor_message(old(profile).user@, data.ruby_score as nat, data.verification_level as nat),
                oracle_signature@,
                old(oracle).oracle@,
            );
            let e = multi_factor_step_error(*old(profile), *old(oracle), *data, valid);
            &&& r is Ok <==> e is None
            &&& r is Err ==> r->Err_0 == e->Some_0
        }),
        oracle_signature@.len() != 64 ==> r is Err,
        r is Err ==> *final(profile) == *old(profile) && *final(oracle) == *old(oracle),
        r is Ok ==> *final(profile) == old(profile).after_multi_factor(*data, now)
            && *final(oracle) == old(oracle).after_verification(true, now)
            && r->Ok_0.user == old(profile).user && r->Ok_0.verification_level == data.verification_level
            && r->Ok_0.multi_factor_score == final(profile).multi_factor_score && r->Ok_0.ruby_score == data.ruby_score
            && r->Ok_0.timestamp == now && r->Ok_0.oracle == old(oracle).oracle,
{
    oracle.validate_stake(MIN_ORACLE_STAKE)?;
    validate_multi_factor_verification(data)?;
    let message = encode_multi_factor_message(&profile.user, data.ruby_score, data.verification_level);
    let valid = verify_ed25519(message.as_slice(), oracle_signature.as_slice(), &oracle.oracle.bytes);
    if !valid {
        return Err(GamingRewardsError::InvalidOracleSignature);
    }
    profile.verify_multi_factor(data, now)?;
    oracle.record_verification(true, now);
    Ok(MultiFactorVerifiedEvent {
        user: profile.user,
        verification_level: data.verification_level,
        multi_factor_score: profile.multi_factor_score,
        ruby_score: data.ruby_score,
        timestamp: now,
        oracle: oracle.oracle,
    })
}

/// Whether `after` is `before` with one more audit record of `operation` by
/// `user` over the parameters `parameters`, marked with `verified`, and
/// nothing else changed.
pub open spec fn audited(
    before: SecurityManager,
    after: SecurityManager,
    operation: OperationKind,
    user: Pubkey,
    parameters: Seq<u8>,
    level: SecurityLevel,
    verified: bool,
    now: i64,
) -> bool {
    let e = after.audit_trail@.last();
    &&& after.wf()
    &&& after.audit_trail@ == appended(before.audit_trail@, e)
    &&& e.timestamp == now
    &&& e.operation == operation
    &&& e.user == user
    &&& e.parameters_hash@ == sha256_of(parameters)
    &&& e.security_level == level
    &&& e.verified == verified
    &&& after == (SecurityManager { audit_trail: after.audit_trail, ..before })
}

/// Harvests yield on behalf of `caller` and logs the attempt, whatever its
/// outcome, with the digest of the decimal amount as its parameters.
pub fn audited_harvest(
    security: &mut SecurityManager,
    treasury: &mut Treasury,
    caller: &Pubkey,
    yield_amount: u64,
    now: i64,
) -> (r: Result<HarvestEvent, GamingRewardsError>)
    requires
        old(security).wf(),
        old(treasury).wf(),
    ensures
        final(treasury).wf(),
        r is Ok <==> caller@ == old(treasury).authority@ && old(treasury).harvest_error(yield_amount, now) is None,
        r is Err ==> *final(treasury) == *old(treasury),
        r is Err && caller@ != old(treasury).authority@ ==> r->Err_0 == GamingRewardsError::Unauthorized,
        r is Err && caller@ == old(treasury).authority@ ==> r->Err_0 == old(treasury).harvest_error(yield_amount, now)->Some_0,
        r is Ok ==> *final(treasury) == old(treasury).after_harvest(yield_amount, now),
        audited(*old(security), *final(security), OperationKind::HarvestRebalance, *caller,
            decimal_digits(yield_amount as nat), SecurityLevel::High, r is Ok, now),
{
    let r = treasury.harvest_and_rebalance(caller, yield_amount, now);
    let mut parameters: Vec<u8> = Vec::new();
    push_decimal(&mut parameters, yield_amount);
    assert(parameters@ =~= decimal_digits(yield_amount as nat));
    security.add_audit_entry(OperationKind::HarvestRebalance, caller, parameters.as_slice(), SecurityLevel::High, r.is_ok(), now);
    r
}

/// Slashes an oracle on behalf of `caller` and logs the attempt, whatever
/// its outcome, with the digest of the decimal amount as its parameters.
pub fn audited_slash(
    security: &mut SecurityManager,
    treasury: &Treasury,
    caller: &Pubkey,
    oracle: &mut OracleAccount,
    amount: u64,
    now: i64,
) -> (r: Result<SlashOracleEvent, GamingRewardsError>)
    requires
        old(security).wf(),
        old(oracle).wf(),
    ensures
        final(oracle).wf(),
        r is Ok <==> caller@ == treasury.authority@ && 0 < amount <= old(oracle).stake_amount && old(oracle).slash_error(amount) is None,
        r is Err ==> *final(oracle) == *old(oracle),
        r is Err ==> r->Err_0 == (if caller@ != treasury.authority@ {
            GamingRewardsError::Unauthorized
        } else if amount == 0 || amount > old(oracle).stake_amount {
            GamingRewardsError::InvalidSlashAmount
        } else {
            old(oracle).slash_error(amount)->Some_0
        }),
        r is Ok ==> *final(oracle) == old(oracle).after_slash(amount, now),
        audited(*old(security), *final(security), OperationKind::EmergencyOperation, *caller,
            decimal_digits(amount as nat), SecurityLevel::Critical, r is Ok, now),
{
    let r = slash_oracle(treasury, caller, oracle, amount, now);
    let mut parameters: Vec<u8> = Vec::new();
    push_decimal(&mut parameters, amount);
    assert(parameters@ =~= decimal_digits(amount as nat));
    security.add_audit_entry(OperationKind::EmergencyOperation, caller, parameters.as_slice(), SecurityLevel::Critical, r.is_ok(), now);
    r
}

} // verus!
