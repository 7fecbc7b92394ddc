use vstd::prelude::*;

verus! {

/// Every way in which an operation of the protocol can be refused.
///
/// A refused operation leaves every account it was handed unchanged.
#[derive(Clone, Copy, Debug, PartialEq, Eq, Structural)]
pub enum GamingRewardsError {
    Unauthorized,
    InvalidYieldAmount,
    InsufficientRewardsPool,
    RateLimitExceeded,
    HarvestTooFrequent,
    InsufficientOracleStake,
    OracleNotActive,
    InvalidSlashAmount,
    InsufficientStakeToSlash,
    InvalidOracleSignature,
    InvalidTimestamp,
    StaleVerification,
    FraudDetected,
    InvalidSteamId,
    InvalidSteamTicket,
    InvalidSessionId,
    InvalidWalletSignature,
    InvalidMessage,
    InvalidZKPProof,
    InvalidZKPInputs,
    InvalidAttestationId,
    InvalidVerificationLevel,
    InvalidRubyScore,
    SteamSessionRequired,
    OAuthWalletRequired,
    InsufficientVerification,
    InsufficientMultiFactor,
    InvalidWallet,
    InvalidClaimAmount,
    ClaimTooFrequent,
    AlreadyStaking,
    NotStaking,
    StakeLocked,
    InvalidStakeAmount,
    InsufficientStakedAmount,
    InsufficientRewards,
    InvalidAchievementValue,
    AchievementAlreadyVerified,
    ProtocolPaused,
    AlreadyPaused,
    NotPaused,
    ArithmeticOverflow,
}

impl GamingRewardsError {
    /// A short human-readable description of the error.
    pub fn message(&self) -> (r: &'static str) {
        match self {
            GamingRewardsError::Unauthorized => "Unauthorized access",
            GamingRewardsError::InvalidYieldAmount => "Invalid yield amount",
            GamingRewardsError::InsufficientRewardsPool => "Insufficient rewards pool",
            GamingRewardsError::RateLimitExceeded => "Rate limit exceeded",
            GamingRewardsError::HarvestTooFrequent => "Harvest too frequent",
            GamingRewardsError::InsufficientOracleStake => "Insufficient oracle stake",
            GamingRewardsError::OracleNotActive => "Oracle not active",
            GamingRewardsError::InvalidSlashAmount => "Invalid slash amount",
            GamingRewardsError::InsufficientStakeToSlash => "Insufficient stake to slash",
            GamingRewardsError::InvalidOracleSignature => "Invalid oracle signature",
            GamingRewardsError::InvalidTimestamp => "Invalid timestamp",
            GamingRewardsError::StaleVerification => "Stale verification",
            GamingRewardsError::FraudDetected => "Fraud detected",
            GamingRewardsError::InvalidSteamId => "Invalid Steam ID",
            GamingRewardsError::InvalidSteamTicket => "Invalid Steam ticket",
            GamingRewardsError::InvalidSessionId => "Invalid session ID",
            GamingRewardsError::InvalidWalletSignature => "Invalid wallet signature",
            GamingRewardsError::InvalidMessage => "Invalid message",
            GamingRewardsError::InvalidZKPProof => "Invalid ZKP proof",
            GamingRewardsError::InvalidZKPInputs => "Invalid ZKP inputs",
            GamingRewardsError::InvalidAttestationId => "Invalid attestation ID",
            GamingRewardsError::InvalidVerificationLevel => "Invalid verification level",
            GamingRewardsError::InvalidRubyScore => "Invalid Ruby score",
            GamingRewardsError::SteamSessionRequired => "Steam session required",
            GamingRewardsError::OAuthWalletRequired => "OAuth wallet required",
            GamingRewardsError::InsufficientVerification => "Insufficient verification",
            GamingRewardsError::InsufficientMultiFactor => "Insufficient multi-factor",
            GamingRewardsError::InvalidWallet => "Invalid wallet",
            GamingRewardsError::InvalidClaimAmount => "Invalid claim amount",
            GamingRewardsError::ClaimTooFrequent => "Claim too frequent",
            GamingRewardsError::AlreadyStaking => "Already staking",
            GamingRewardsError::NotStaking => "Not staking",
            GamingRewardsError::StakeLocked => "Stake is still locked",
            GamingRewardsError::InvalidStakeAmount => "Invalid stake amount",
            GamingRewardsError::InsufficientStakedAmount => "Insufficient staked amount",
            GamingRewardsError::InsufficientRewards => "Insufficient rewards balance",
            GamingRewardsError::InvalidAchievementValue => "Invalid achievement value",
            GamingRewardsError::AchievementAlreadyVerified => "Achievement already verified",
            GamingRewardsError::ProtocolPaused => "Protocol is paused",
            GamingRewardsError::AlreadyPaused => "Protocol is already paused",
            GamingRewardsError::NotPaused => "Protocol is not paused",
            GamingRewardsError::ArithmeticOverflow => "Arithmetic overflow",
        }
    }
}

} // verus!
