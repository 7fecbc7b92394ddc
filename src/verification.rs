//! The per-user verification state machine: trust accumulates from a game
//! session attested by an oracle, a wallet link signed by the wallet,
//! zero-knowledge attestations and a multi-factor score; a fraud flag freezes
//! the profile for good.
use vstd::prelude::*;
use crate::crypto::{ed25519_accepts, verify_ed25519};
use crate::encoding::{encode_session_message, encode_wallet_message, session_message, wallet_message};
use crate::errors::GamingRewardsError;
use crate::keys::Pubkey;

verus! {

/// How old, in seconds, an attested timestamp may be.
pub const MAX_VERIFICATION_AGE: i64 = 300;

/// Verification level needed for rewards.
pub const MIN_VERIFICATION_LEVEL: u8 = 2;

/// Multi-factor score needed for rewards.
pub const MIN_MULTI_FACTOR_SCORE: u64 = 50;

/// Points that each independent multi-factor signal contributes.
pub const FACTOR_POINTS: u64 = 25;

/// Highest verification level a multi-factor report may claim.
pub const MAX_REPORTED_LEVEL: u8 = 4;

/// Highest externally supplied reputation score a report may carry.
pub const MAX_RUBY_SCORE: u64 = 1000;

/// A game session ticket, as an oracle relays it.
#[derive(Clone, Debug)]
pub struct SteamSessionTicket {
    pub ticket: Vec<u8>,
    pub steam_id: u64,
    pub timestamp: i64,
    pub session_id: Vec<u8>,
}

/// A wallet's signature linking it to a game account.
#[derive(Clone, Debug)]
pub struct OAuthWalletSignature {
    pub steam_id: u64,
    pub wallet_pubkey: Pubkey,
    pub signature: Vec<u8>,
    pub message: Vec<u8>,
    pub timestamp: i64,
}

/// A zero-knowledge attestation issued by an oracle. The proof itself is
/// checked elsewhere.
#[derive(Clone, Debug)]
pub struct ZKPAttestation {
    pub proof: Vec<u8>,
    pub public_inputs: Vec<u8>,
    pub attestation_id: Vec<u8>,
    pub issuer: Pubkey,
    pub timestamp: i64,
}

/// Evidence for the multi-factor score.
#[derive(Clone, Debug)]
pub struct MultiFactorVerification {
    pub steam_achievements: Vec<u8>,
    pub wallet_nfts: Vec<Pubkey>,
    pub on_chain_activity: Vec<u8>,
    pub ruby_score: u64,
    pub verification_level: u8,
}

/// The trust accumulated for one user.
#[derive(Clone, Debug)]
pub struct UserVerificationProfile {
    pub user: Pubkey,
    pub steam_id: u64,
    pub wallet_pubkey: Pubkey,
    pub verification_level: u8,
    pub steam_session_valid: bool,
    pub oauth_wallet_linked: bool,
    pub zkp_attestations: Vec<ZKPAttestation>,
    pub multi_factor_score: u64,
    pub last_verification: i64,
    pub total_verifications: u64,
    pub fraud_detected: bool,
}

/// A request to change a profile, with the outcome of its signature check
/// where it has one.
#[derive(Clone, Debug)]
pub enum ProfileOp {
    Session { ticket: SteamSessionTicket, signature_valid: bool, now: i64 },
    Wallet { data: OAuthWalletSignature, signature_valid: bool, now: i64 },
    Attestation { attestation: ZKPAttestation, trusted_issuer: Pubkey, now: i64 },
    MultiFactor { report: MultiFactorVerification, now: i64 },
    MarkFraudulent,
}

/// Why an attested `timestamp` is not acceptable at time `now`, if it is not:
/// it lies in the future, or more than the maximum age in the past.
pub open spec fn freshness_error(timestamp: i64, now: i64) -> Option<GamingRewardsError> {
    if timestamp > now {
        Some(GamingRewardsError::InvalidTimestamp)
    } else if timestamp < now - MAX_VERIFICATION_AGE {
        Some(GamingRewardsError::StaleVerification)
    } else {
        None
    }
}

/// `n + 1`, or `n` when that would not fit.
pub open spec fn level_up(n: u8) -> u8 {
    if n == u8::MAX { n } else { (n + 1) as u8 }
}

/// The multi-factor score of a report: a fixed number of points for each
/// signal present.
pub open spec fn multi_factor_score_of(m: MultiFactorVerification) -> u64 {
    (FACTOR_POINTS * ((if m.steam_achievements@.len() > 0 { 1int } else { 0 })
        + (if m.wallet_nfts@.len() > 0 { 1int } else { 0 })
        + (if m.on_chain_activity@.len() > 0 { 1int } else { 0 })
        + (if m.ruby_score > 0 { 1int } else { 0 }))) as u64
}

/// Why a session ticket is malformed, if it is.
pub open spec fn ticket_error(t: SteamSessionTicket) -> Option<GamingRewardsError> {
    if t.ticket@.len() == 0 {
        Some(GamingRewardsError::InvalidSteamTicket)
    } else if t.steam_id == 0 {
        Some(GamingRewardsError::InvalidSteamId)
    } else if t.session_id@.len() == 0 {
        Some(GamingRewardsError::InvalidSessionId)
    } else {
        None
    }
}

/// Why a wallet signature record is malformed, if it is.
pub open spec fn oauth_error(d: OAuthWalletSignature) -> Option<GamingRewardsError> {
    if d.steam_id == 0 {
        Some(GamingRewardsError::InvalidSteamId)
    } else if d.signature@.len() == 0 {
        Some(GamingRewardsError::InvalidWalletSignature)
    } else if d.message@.len() == 0 {
        Some(GamingRewardsError::InvalidMessage)
    } else {
        None
    }
}

/// Why an attestation is malformed, if it is.
pub open spec fn attestation_error(a: ZKPAttestation) -> Option<GamingRewardsError> {
    if a.proof@.len() == 0 {
        Some(GamingRewardsError::InvalidZKPProof)
    } else if a.public_inputs@.len() == 0 {
        Some(GamingRewardsError::InvalidZKPInputs)
    } else if a.attestation_id@.len() == 0 {
        Some(GamingRewardsError::InvalidAttestationId)
    } else {
        None
    }
}

/// Why a multi-factor report is out of range, if it is.
pub open spec fn multi_factor_report_error(m: MultiFactorVerification) -> Option<GamingRewardsError> {
    if m.verification_level > MAX_REPORTED_LEVEL {
        Some(GamingRewardsError::InvalidVerificationLevel)
    } else if m.ruby_score > MAX_RUBY_SCORE {
        Some(GamingRewardsError::InvalidRubyScore)
    } else {
        None
    }
}

/// Checks the shape of a session ticket.
pub fn validate_steam_session_ticket(ticket: &SteamSessionTicket) -> (r: Result<(), GamingRewardsError>)
    ensures
        r is Ok <==> ticket_error(*ticket) is None,
        r is Err ==> r->Err_0 == ticket_error(*ticket)->Some_0,
{
    if ticket.ticket.len() == 0 {
        return Err(GamingRewardsError::InvalidSteamTicket);
    }
    if ticket.steam_id == 0 {
        return Err(GamingRewardsError::InvalidSteamId);
    }
    if ticket.session_id.len() == 0 {
        return Err(GamingRewardsError::InvalidSessionId);
    }
    Ok(())
}

/// Checks the shape of a wallet signature record.
pub fn validate_oauth_wallet_signature(data: &OAuthWalletSignature) -> (r: Result<(), GamingRewardsError>)
    ensures
        r is Ok <==> oauth_error(*data) is None,
        r is Err ==> r->Err_0 == oauth_error(*data)->Some_0,
{
    if data.steam_id == 0 {
        return Err(GamingRewardsError::InvalidSteamId);
    }
    if data.signature.len() == 0 {
        return Err(GamingRewardsError::InvalidWalletSignature);
    }
    if data.message.len() == 0 {
        return Err(GamingRewardsError::InvalidMessage);
    }
    Ok(())
}

/// Checks the shape of an attestation.
pub fn validate_zkp_attestation(attestation: &ZKPAttestation) -> (r: Result<(), GamingRewardsError>)
    ensures
        r is Ok <==> attestation_error(*attestation) is None,
        r is Err ==> r->Err_0 == attestation_error(*attestation)->Some_0,
{
    if attestation.proof.len() == 0 {
        return Err(GamingRewardsError::InvalidZKPProof);
    }
    if attestation.public_inputs.len() == 0 {
        return Err(GamingRewardsError::InvalidZKPInputs);
    }
    if attestation.attestation_id.len() == 0 {
        return Err(GamingRewardsError::InvalidAttestationId);
    }
    Ok(())
}

/// Checks the ranges of a multi-factor report.
pub fn validate_multi_factor_verification(data: &MultiFactorVerification) -> (r: Result<(), GamingRewardsError>)
    ensures
        r is Ok <==> multi_factor_report_error(*data) is None,
        r is Err ==> r->Err_0 == multi_factor_report_error(*data)->Some_0,
{
    if data.verification_level > MAX_REPORTED_LEVEL {
        return Err(GamingRewardsError::InvalidVerificationLevel);
    }
    if data.ruby_score > MAX_RUBY_SCORE {
        return Err(GamingRewardsError::InvalidRubyScore);
    }
    Ok(())
}

/// Whether `timestamp` is acceptable at time `now`.
pub fn check_freshness(timestamp: i64, now: i64) -> (r: Result<(), GamingRewardsError>)
    ensures
        r is Ok <==> freshness_error(timestamp, now) is None,
        r is Err ==> r->Err_0 == freshness_error(timestamp, now)->Some_0,
{
    if timestamp > now {
        return Err(GamingRewardsError::InvalidTimestamp);
    }
    if (timestamp as i128) < (now as i128) - (MAX_VERIFICATION_AGE as i128) {
        return Err(GamingRewardsError::StaleVerification);
    }
    Ok(())
}

/// The multi-factor score of a report.
pub fn compute_multi_factor_score(data: &MultiFactorVerification) -> (r: u64)
    ensures
        r == multi_factor_score_of(*data),
        r <= 4 * FACTOR_POINTS,
{
    let mut score: u64 = 0;
    if data.steam_achievements.len() > 0 {
        score = score + FACTOR_POINTS;
    }
    if data.wallet_nfts.len() > 0 {
        score = score + FACTOR_POINTS;
    }
    if data.on_chain_activity.len() > 0 {
        score = score + FACTOR_POINTS;
    }
    if data.ruby_score > 0 {
        score = score + FACTOR_POINTS;
    }
    score
}

impl UserVerificationProfile {
    /// The profile's invariant: a fraudulent profile holds no trust.
    pub open spec fn wf(self) -> bool {
        self.fraud_detected ==> {
            &&& !self.steam_session_valid
            &&& !self.oauth_wallet_linked
            &&& self.verification_level == 0
            &&& self.multi_factor_score == 0
        }
    }

    /// Whether the user may receive rewards.
    pub open spec fn eligible(self) -> bool {
        &&& !self.fraud_detected
        &&& self.steam_session_valid
        &&& self.oauth_wallet_linked
        &&& self.verification_level >= MIN_VERIFICATION_LEVEL
        &&& self.multi_factor_score >= MIN_MULTI_FACTOR_SCORE
    }

    /// Why the user may not receive rewards, if they may not.
    pub open spec fn eligibility_error(self) -> Option<GamingRewardsError> {
        if self.fraud_detected {
            Some(GamingRewardsError::FraudDetected)
        } else if !self.steam_session_valid {
            Some(GamingRewardsError::SteamSessionRequired)
        } else if !self.oauth_wallet_linked {
            Some(GamingRewardsError::OAuthWalletRequired)
        } else if self.verification_level < MIN_VERIFICATION_LEVEL {
            Some(GamingRewardsError::InsufficientVerification)
        } else if self.multi_factor_score < MIN_MULTI_FACTOR_SCORE {
            Some(GamingRewardsError::InsufficientMultiFactor)
        } else {
            None
        }
    }

    /// Why a session attestation is refused, if it is.
    pub open spec fn session_error(self, ticket: SteamSessionTicket, signature_valid: bool, now: i64) -> Option<GamingRewardsError> {
        if self.fraud_detected {
            Some(GamingRewardsError::FraudDetected)
        } else if ticket.steam_id != self.steam_id {
            Some(GamingRewardsError::InvalidSteamId)
        } else if !signature_valid {
            Some(GamingRewardsError::InvalidOracleSignature)
        } else if freshness_error(ticket.timestamp, now) is Some {
            freshness_error(ticket.timestamp, now)
        } else if self.total_verifications == u64::MAX {
            Some(GamingRewardsError::ArithmeticOverflow)
        } else {
            None
        }
    }

    /// The profile after an admitted session attestation.
    pub open spec fn after_session(self, now: i64) -> UserVerificationProfile {
        UserVerificationProfile {
            steam_session_valid: true,
            verification_level: level_up(self.verification_level),
            last_verification: now,
            total_verifications: (self.total_verifications + 1) as u64,
            ..self
        }
    }

    /// Why a wallet link is refused, if it is.
    pub open spec fn wallet_error(self, data: OAuthWalletSignature, signature_valid: bool, now: i64) -> Option<GamingRewardsError> {
        if self.fraud_detected {
            Some(GamingRewardsError::FraudDetected)
        } else if data.steam_id != self.steam_id {
            Some(GamingRewardsError::InvalidSteamId)
        } else if data.wallet_pubkey@ != self.wallet_pubkey@ {
            Some(GamingRewardsError::InvalidWallet)
        } else if !signature_valid {
            Some(GamingRewardsError::InvalidWalletSignature)
        } else {
            freshness_error(data.timestamp, now)
        }
    }

    /// The profile after an admitted wallet link.
    pub open spec fn after_wallet(self, now: i64) -> UserVerificationProfile {
        UserVerificationProfile {
            oauth_wallet_linked: true,
            verification_level: level_up(self.verification_level),
            last_verification: now,
            ..self
        }
    }

    /// Why an attestation is refused, if it is.
    pub open spec fn zkp_error(self, attestation: ZKPAttestation, trusted_issuer: Pubkey, now: i64) -> Option<GamingRewardsError> {
        if self.fraud_detected {
            Some(GamingRewardsError::FraudDetected)
        } else if attestation.issuer@ != trusted_issuer@ {
            Some(GamingRewardsError::Unauthorized)
        } else if attestation.proof@.len() == 0 {
            Some(GamingRewardsError::InvalidZKPProof)
        } else {
            freshness_error(attestation.timestamp, now)
        }
    }

    /// The profile after an admitted attestation, but for the attestation
    /// list itself, which gains the attestation at its end.
    pub open spec fn after_attestation(self, now: i64) -> UserVerificationProfile {
        UserVerificationProfile {
            verification_level: level_up(self.verification_level),
            last_verification: now,
            ..self
        }
    }

    /// Why a multi-factor evaluation is refused, if it is.
    pub open spec fn multi_factor_error(self) -> Option<GamingRewardsError> {
        if self.fraud_detected {
            Some(GamingRewardsError::FraudDetected)
        } else if !self.steam_session_valid {
            Some(GamingRewardsError::SteamSessionRequired)
        } else if !self.oauth_wallet_linked {
            Some(GamingRewardsError::OAuthWalletRequired)
        } else {
            None
        }
    }

    /// The profile after an admitted multi-factor evaluation: the new score
    /// replaces the old one.
    pub open spec fn after_multi_factor(self, data: MultiFactorVerification, now: i64) -> UserVerificationProfile {
        UserVerificationProfile {
            multi_factor_score: multi_factor_score_of(data),
            verification_level: level_up(self.verification_level),
            last_verification: now,
            ..self
        }
    }

    /// The profile once marked fraudulent.
    pub open spec fn marked_fraudulent(self) -> UserVerificationProfile {
        UserVerificationProfile {
            fraud_detected: true,
            steam_session_valid: false,
            oauth_wallet_linked: false,
            verification_level: 0,
            multi_factor_score: 0,
            ..self
        }
    }

    /// Whether `after` is what `op` makes of `self`; a refused request leaves
    /// the profile as it was.
    pub open spec fn transition(self, op: ProfileOp, after: UserVerificationProfile) -> bool {
        match op {
            ProfileOp::Session { ticket, signature_valid, now } =>
                if self.session_error(ticket, signature_valid, now) is Some { after == self } else { after == self.after_session(now) },
            ProfileOp::Wallet { data, signature_valid, now } =>
                if self.wallet_error(data, signature_valid, now) is Some { after == self } else { after == self.after_wallet(now) },
            ProfileOp::Attestation { attestation, trusted_issuer, now } =>
                if self.zkp_error(attestation, trusted_issuer, now) is Some {
                    after == self
                } else {
                    &&& after.zkp_attestations@ == self.zkp_attestations@.push(attestation)
                    &&& after == (UserVerificationProfile { zkp_attestations: after.zkp_attestations, ..self.after_attestation(now) })
                },
            ProfileOp::MultiFactor { report, now } =>
                if self.multi_factor_error() is Some { after == self } else { after == self.after_multi_factor(report, now) },
            ProfileOp::MarkFraudulent => after == self.marked_fraudulent(),
        }
    }

    /// A fresh profile with no trust at all.
    pub fn initialize(user: Pubkey, steam_id: u64, wallet_pubkey: Pubkey) -> (r: UserVerificationProfile)
        ensures
            r.user == user,
            r.steam_id == steam_id,
            r.wallet_pubkey == wallet_pubkey,
            r.verification_level == 0,
            !r.steam_session_valid,
            !r.oauth_wallet_linked,
            r.zkp_attestations@.len() == 0,
            r.multi_factor_score == 0,
            r.last_verification == 0,
            r.total_verifications == 0,
            !r.fraud_detected,
    {
        UserVerificationProfile {
            user,
            steam_id,
            wallet_pubkey,
            verification_level: 0,
            steam_session_valid: false,
            oauth_wallet_linked: false,
            zkp_attestations: Vec::new(),
            multi_factor_score: 0,
            last_verification: 0,
            total_verifications: 0,
            fraud_detected: false,
        }
    }

    /// Applies a session attestation whose oracle signature was found valid
    /// or not.
    pub fn apply_steam_session(&mut self, ticket: &SteamSessionTicket, signature_valid: bool, now: i64) -> (r: Result<(), GamingRewardsError>)
        ensures
            r is Ok <==> old(self).session_error(*ticket, signature_valid, now) is None,
            r is Err ==> r->Err_0 == old(self).session_error(*ticket, signature_valid, now)->Some_0,
            old(self).transition(ProfileOp::Session { ticket: *ticket, signature_valid, now }, *final(self)),
    {
        if self.fraud_detected {
            return Err(GamingRewardsError::FraudDetected);
        }
        if ticket.steam_id != self.steam_id {
            return Err(GamingRewardsError::InvalidSteamId);
        }
        if !signature_valid {
            return Err(GamingRewardsError::InvalidOracleSignature);
        }
        check_freshness(ticket.timestamp, now)?;
        if self.total_verifications == u64::MAX {
            return Err(GamingRewardsError::ArithmeticOverflow);
        }
        self.steam_session_valid = true;
        if self.verification_level < u8::MAX {
            self.verification_level = self.verification_level + 1;
        }
        self.last_verification = now;
        self.total_verifications = self.total_verifications + 1;
        Ok(())
    }

    /// Verifies a session ticket signed by the oracle holding `oracle_key`
    /// over `steam_id:timestamp:session_id`, and records the session.
    pub fn verify_steam_session(&mut self, ticket: &SteamSessionTicket, oracle_signature: &Vec<u8>, oracle_key: &Pubkey, now: i64) -> (r: Result<(), GamingRewardsError>)
        ensures
            ({
                let valid = ed25519_accepts(
                    session_message(ticket.steam_id as nat, ticket.timestamp as int, ticket.session_id@),
                    oracle_signature@,
                    oracle_key@,
                );
                &&& r is Ok <==> old(self).session_error(*ticket, valid, now) is None
                &&& r is Err ==> r->Err_0 == old(self).session_error(*ticket, valid, now)->Some_0
                &&& old(self).transition(ProfileOp::Session { ticket: *ticket, signature_valid: valid, now }, *final(self))
            }),
            oracle_signature@.len() != 64 ==> r is Err,
    {
        let message = encode_session_message(ticket.steam_id, ticket.timestamp, &ticket.session_id);
        let valid = verify_ed25519(message.as_slice(), oracle_signature.as_slice(), &oracle_key.bytes);
        self.apply_steam_session(ticket, valid, now)
    }

    /// Applies a wallet link whose wallet signature was found valid or not.
    pub fn apply_oauth_wallet(&mut self, data: &OAuthWalletSignature, signature_valid: bool, now: i64) -> (r: Result<(), GamingRewardsError>)
        ensures
            r is Ok <==> old(self).wallet_error(*data, signature_valid, now) is None,
            r is Err ==> r->Err_0 == old(self).wallet_error(*data, signature_valid, now)->Some_0,
            old(self).transition(ProfileOp::Wallet { data: *data, signature_valid, now }, *final(self)),
    {
        if self.fraud_detected {
            return Err(GamingRewardsError::FraudDetected);
        }
        if data.steam_id != self.steam_id {
            return Err(GamingRewardsError::InvalidSteamId);
        }
        if !data.wallet_pubkey.same_as(&self.wallet_pubkey) {
            return Err(GamingRewardsError::InvalidWallet);
        }
        if !signature_valid {
            return Err(GamingRewardsError::InvalidWalletSignature);
        }
        check_freshness(data.timestamp, now)?;
        self.oauth_wallet_linked = true;
        if self.verification_level < u8::MAX {
            self.verification_level = self.verification_level + 1;
        }
        self.last_verification = now;
        Ok(())
    }

    /// Verifies that the profile's wallet signed `steam_id:wallet:timestamp`,
    /// and records the link.
    pub fn verify_oauth_wallet(&mut self, data: &OAuthWalletSignature, now: i64) -> (r: Result<(), GamingRewardsError>)
        ensures
            ({
                let valid = ed25519_accepts(
                    wallet_message(data.steam_id as nat, data.wallet_pubkey@, data.timestamp as int),
                    data.signature@,
                    data.wallet_pubkey@,
                );
                &&& r is Ok <==> old(self).wallet_error(*data, valid, now) is None
                &&& r is Err ==> r->Err_0 == old(self).wallet_error(*data, valid, now)->Some_0
                &&& old(self).transition(ProfileOp::Wallet { data: *data, signature_valid: valid, now }, *final(self))
            }),
            data.signature@.len() != 64 ==> r is Err,
    {
        let message = encode_wallet_message(data.steam_id, &data.wallet_pubkey, data.timestamp);
        let valid = verify_ed25519(message.as_slice(), data.signature.as_slice(), &data.wallet_pubkey.bytes);
        self.apply_oauth_wallet(data, valid, now)
    }

    /// Records an attestation issued by `trusted_issuer`.
    pub fn add_zkp_attestation(&mut self, attestation: ZKPAttestation, trusted_issuer: &Pubkey, now: i64) -> (r: Result<(), GamingRewardsError>)
        ensures
            r is Ok <==> old(self).zkp_error(attestation, *trusted_issuer, now) is None,
            r is Err ==> r->Err_0 == old(self).zkp_error(attestation, *trusted_issuer, now)->Some_0,
            old(self).transition(ProfileOp::Attestation { attestation, trusted_issuer: *trusted_issuer, now }, *final(self)),
    {
        if self.fraud_detected {
            return Err(GamingRewardsError::FraudDetected);
        }
        if !attestation.issuer.same_as(trusted_issuer) {
            return Err(GamingRewardsError::Unauthorized);
        }
        if attestation.proof.len() == 0 {
            return Err(GamingRewardsError::InvalidZKPProof);
        }
        check_freshness(attestation.timestamp, now)?;
        self.zkp_attestations.push(attestation);
        if self.verification_level < u8::MAX {
            self.verification_level = self.verification_level + 1;
        }
        self.last_verification = now;
        Ok(())
    }

    /// Replaces the multi-factor score with the score of `data`. Refused
    /// unless both the session and the wallet are verified.
    pub fn verify_multi_factor(&mut self, data: &MultiFactorVerification, now: i64) -> (r: Result<(), GamingRewardsError>)
        ensures
            r is Ok <==> old(self).multi_factor_error() is None,
            r is Err ==> r->Err_0 == old(self).multi_factor_error()->Some_0,
            old(self).transition(ProfileOp::MultiFactor { report: *data, now }, *final(self)),
    {
        if self.fraud_detected {
            return Err(GamingRewardsError::FraudDetected);
        }
        if !self.steam_session_valid {
            return Err(GamingRewardsError::SteamSessionRequired);
        }
        if !self.oauth_wallet_linked {
            return Err(GamingRewardsError::OAuthWalletRequired);
        }
        self.multi_factor_score = compute_multi_factor_score(data);
        if self.verification_level < u8::MAX {
            self.verification_level = self.verification_level + 1;
        }
        self.last_verification = now;
        Ok(())
    }

    /// Whether the user may receive rewards.
    pub fn is_eligible(&self) -> (r: bool)
        ensures
            r == self.eligible(),
    {
        !self.fraud_detected && self.steam_session_valid && self.oauth_wallet_linked
            && self.verification_level >= MIN_VERIFICATION_LEVEL && self.multi_factor_score >= MIN_MULTI_FACTOR_SCORE
    }

    /// `Ok(true)` when the user may receive rewards, else the first unmet
    /// requirement.
    pub fn is_eligible_for_rewards(&self) -> (r: Result<bool, GamingRewardsError>)
        ensures
            r is Ok <==> self.eligible(),
            r is Ok ==> r->Ok_0,
            r is Err ==> r->Err_0 == self.eligibility_error()->Some_0,
    {
        if self.fraud_detected {
            return Err(GamingRewardsError::FraudDetected);
        }
        if !self.steam_session_valid {
            return Err(GamingRewardsError::SteamSessionRequired);
        }
        if !self.oauth_wallet_linked {
            return Err(GamingRewardsError::OAuthWalletRequired);
        }
        if self.verification_level < MIN_VERIFICATION_LEVEL {
            return Err(GamingRewardsError::InsufficientVerification);
        }
        if self.multi_factor_score < MIN_MULTI_FACTOR_SCORE {
            return Err(GamingRewardsError::InsufficientMultiFactor);
        }
        Ok(true)
    }

    /// Flags the user as fraudulent and clears every trust field.
    pub fn mark_fraudulent(&mut self)
        ensures
            *final(self) == old(self).marked_fraudulent(),
            old(self).transition(ProfileOp::MarkFraudulent, *final(self)),
    {
        self.fraud_detected = true;
        self.steam_session_valid = false;
        self.oauth_wallet_linked = false;
        self.verification_level = 0;
        self.multi_factor_score = 0;
    }

    /// A trust score for reward weighting: 25 for a verified session, 25 for
    /// a linked wallet, ten per level (at most 255), and a quarter of the
    /// multi-factor score; zero for a fraudulent user.
    pub fn get_verification_score(&self) -> (r: u64)
        ensures
            r == (if self.fraud_detected {
                0
            } else {
                (if self.steam_session_valid { 25int } else { 0 }) + (if self.oauth_wallet_linked { 25int } else { 0 })
                    + (if self.verification_level * 10 > 255 { 255 } else { self.verification_level * 10 })
                    + self.multi_factor_score / 4
            }),
    {
        if self.fraud_detected {
            return 0;
        }
        let mut score: u64 = 0;
        if self.steam_session_valid {
            score = score + 25;
        }
        if self.oauth_wallet_linked {
            score = score + 25;
        }
        let level_points: u64 = if self.verification_level > 25 { 255 } else { self.verification_level as u64 * 10 };
        score = score + level_points;
        score = score + self.multi_factor_score / 4;
        score
    }
}

/// Every request keeps a profile well formed.
pub proof fn lemma_transition_wf(p: UserVerificationProfile, op: ProfileOp, after: UserVerificationProfile)
    requires
        p.wf(),
        p.transition(op, after),
    ensures
        after.wf(),
{
}

/// Marking a profile fraudulent twice is the same as marking it once, and a
/// fraudulent profile is never eligible.
pub proof fn lemma_mark_fraudulent_idempotent(p: UserVerificationProfile)
    ensures
        p.marked_fraudulent().marked_fraudulent() == p.marked_fraudulent(),
        !p.marked_fraudulent().eligible(),
{
}

/// Once a profile is fraudulent, no later request changes it, whether it is
/// admitted or refused, so it is never eligible again.
pub proof fn lemma_fraud_is_permanent(trace: Seq<UserVerificationProfile>, ops: Seq<ProfileOp>)
    requires
        trace.len() == ops.len() + 1,
        trace[0].wf(),
        trace[0].fraud_detected,
        forall|i: int| 0 <= i < ops.len() ==> #[trigger] trace[i].transition(ops[i], trace[i + 1]),
    ensures
        forall|i: int| 0 <= i < trace.len() ==> #[trigger] trace[i] == trace[0],
        forall|i: int| 0 <= i < trace.len() ==> !(#[trigger] trace[i].eligible()),
    decreases ops.len(),
{
    if ops.len() > 0 {
        let n = ops.len() - 1;
        let shorter = trace.subrange(0, n + 1);
        assert forall|i: int| 0 <= i < n implies #[trigger] shorter[i].transition(ops.subrange(0, n)[i], shorter[i + 1]) by {
            assert(shorter[i] == trace[i]);
            assert(shorter[i + 1] == trace[i + 1]);
            assert(ops.subrange(0, n)[i] == ops[i]);
            assert(trace[i].transition(ops[i], trace[i + 1]));
        }
        lemma_fraud_is_permanent(shorter, ops.subrange(0, n));
        assert(shorter[n] == trace[n]);
        assert(shorter[n] == shorter[0]);
        assert(trace[n] == trace[0]);
        assert(trace[n].transition(ops[n], trace[n + 1]));
        if let ProfileOp::Attestation { attestation, trusted_issuer, now } = ops[n] {
            assert(trace[n].zkp_error(attestation, trusted_issuer, now) is Some);
        }
        assert(trace[n + 1] == trace[0]);
        assert forall|i: int| 0 <= i < trace.len() implies #[trigger] trace[i] == trace[0] by {
            if i <= n {
                assert(shorter[i] == trace[i]);
                assert(shorter[i] == shorter[0]);
            }
        }
    }
    assert forall|i: int| 0 <= i < trace.len() implies !(#[trigger] trace[i].eligible()) by {
        assert(trace[i] == trace[0]);
    }
}

} // verus!
