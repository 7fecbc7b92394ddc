use ed25519_dalek::{Keypair, PublicKey, SecretKey, Signer};
use gaming_rewards::encoding::{encode_claim_message, encode_multi_factor_message, encode_session_message, encode_wallet_message};
use gaming_rewards::errors::GamingRewardsError;
use gaming_rewards::keys::Pubkey;
use gaming_rewards::oracle::OracleAccount;
use gaming_rewards::protocol::{register_user, verify_multi_factor, verify_oauth_wallet, verify_steam_session};
use gaming_rewards::verification::{
    MultiFactorVerification, OAuthWalletSignature, SteamSessionTicket, UserVerificationProfile, ZKPAttestation,
};

const T0: i64 = 1_700_000_000;
const STEAM_ID: u64 = 76_561_198_000_000_001;

fn keypair(seed: u8) -> Keypair {
    let secret = SecretKey::from_bytes(&[seed; 32]).unwrap();
    let public = PublicKey::from(&secret);
    Keypair { secret, public }
}

fn key_of(kp: &Keypair) -> Pubkey {
    Pubkey::new(kp.public.to_bytes())
}

fn ticket(timestamp: i64) -> SteamSessionTicket {
    SteamSessionTicket { ticket: vec![1, 2, 3], steam_id: STEAM_ID, timestamp, session_id: b"sess-42".to_vec() }
}

fn session_signature(kp: &Keypair, t: &SteamSessionTicket) -> Vec<u8> {
    let mut message = format!("{}:{}:", t.steam_id, t.timestamp).into_bytes();
    message.extend_from_slice(&t.session_id);
    kp.sign(&message).to_bytes().to_vec()
}

fn wallet_data(wallet: &Keypair, timestamp: i64) -> OAuthWalletSignature {
    let message = format!("{}:{}:{}", STEAM_ID, hex::encode(wallet.public.to_bytes()), timestamp);
    OAuthWalletSignature {
        steam_id: STEAM_ID,
        wallet_pubkey: key_of(wallet),
        signature: wallet.sign(message.as_bytes()).to_bytes().to_vec(),
        message: message.into_bytes(),
        timestamp,
    }
}

fn report(signals: usize) -> MultiFactorVerification {
    MultiFactorVerification {
        steam_achievements: if signals > 0 { vec![1] } else { vec![] },
        wallet_nfts: if signals > 1 { vec![Pubkey::new([3; 32])] } else { vec![] },
        on_chain_activity: if signals > 2 { vec![1] } else { vec![] },
        ruby_score: if signals > 3 { 10 } else { 0 },
        verification_level: 2,
    }
}

fn report_signature(kp: &Keypair, user: &Pubkey, m: &MultiFactorVerification) -> Vec<u8> {
    let message = format!("{}:{}:{}", hex::encode(user.bytes), m.ruby_score, m.verification_level);
    kp.sign(message.as_bytes()).to_bytes().to_vec()
}

struct Setup {
    oracle_kp: Keypair,
    wallet_kp: Keypair,
    user: Pubkey,
    oracle: OracleAccount,
    profile: UserVerificationProfile,
}

fn setup() -> Setup {
    let oracle_kp = keypair(11);
    let wallet_kp = keypair(12);
    let user = Pubkey::new([2; 32]);
    let oracle = OracleAccount::initialize(key_of(&oracle_kp), 1_000_000_000, 1_000_000_000, 100, T0).unwrap();
    let profile = register_user(user, STEAM_ID, key_of(&wallet_kp)).unwrap().profile;
    Setup { oracle_kp, wallet_kp, user, oracle, profile }
}

fn verified_setup() -> Setup {
    let mut s = setup();
    let t = ticket(T0 - 10);
    let sig = session_signature(&s.oracle_kp, &t);
    verify_steam_session(&mut s.profile, &mut s.oracle, &t, &sig, T0).unwrap();
    let w = wallet_data(&s.wallet_kp, T0);
    verify_oauth_wallet(&mut s.profile, &mut s.oracle, &w, T0 + 1).unwrap();
    s
}

#[test]
fn score_fifty_is_eligible_and_a_weaker_report_revokes_it() {
    let mut s = verified_setup();
    let m = report(2);
    let sig = report_signature(&s.oracle_kp, &s.user, &m);
    let event = verify_multi_factor(&mut s.profile, &mut s.oracle, &m, &sig, T0 + 2).unwrap();
    assert_eq!(event.multi_factor_score, 50);
    assert!(s.profile.steam_session_valid);
    assert!(s.profile.oauth_wallet_linked);
    assert_eq!(s.profile.multi_factor_score, 50);
    assert!(s.profile.is_eligible());
    assert_eq!(s.profile.is_eligible_for_rewards(), Ok(true));
    let level = s.profile.verification_level;

    let m = report(1);
    let sig = report_signature(&s.oracle_kp, &s.user, &m);
    verify_multi_factor(&mut s.profile, &mut s.oracle, &m, &sig, T0 + 3).unwrap();
    assert_eq!(s.profile.multi_factor_score, 25);
    assert!(!s.profile.is_eligible());
    assert_eq!(s.profile.is_eligible_for_rewards(), Err(GamingRewardsError::InsufficientMultiFactor));
    assert!(s.profile.verification_level >= level);
    assert!(s.profile.verification_level >= 2);
}

#[test]
fn full_report_scores_one_hundred() {
    let mut s = verified_setup();
    let m = report(4);
    let sig = report_signature(&s.oracle_kp, &s.user, &m);
    verify_multi_factor(&mut s.profile, &mut s.oracle, &m, &sig, T0 + 2).unwrap();
    assert_eq!(s.profile.multi_factor_score, 100);
    assert_eq!(s.profile.verification_level, 3);
    assert_eq!(s.profile.get_verification_score(), 25 + 25 + 30 + 25);
}

#[test]
fn session_step_records_session_and_credits_oracle() {
    let mut s = setup();
    let t = ticket(T0 - 300);
    let sig = session_signature(&s.oracle_kp, &t);
    let event = verify_steam_session(&mut s.profile, &mut s.oracle, &t, &sig, T0).unwrap();
    assert!(s.profile.steam_session_valid);
    assert_eq!(s.profile.verification_level, 1);
    assert_eq!(s.profile.total_verifications, 1);
    assert_eq!(s.profile.last_verification, T0);
    assert_eq!(s.oracle.successful_verifications, 1);
    assert_eq!(s.oracle.reputation_score, 101);
    assert_eq!(event.steam_id, STEAM_ID);
    assert_eq!(event.oracle, s.oracle.oracle);
}

#[test]
fn session_refusals() {
    let mut s = setup();
    let t = ticket(T0 - 301);
    let sig = session_signature(&s.oracle_kp, &t);
    let r = verify_steam_session(&mut s.profile, &mut s.oracle, &t, &sig, T0);
    assert_eq!(r.unwrap_err(), GamingRewardsError::StaleVerification);
    let t = ticket(T0 + 1);
    let sig = session_signature(&s.oracle_kp, &t);
    let r = verify_steam_session(&mut s.profile, &mut s.oracle, &t, &sig, T0);
    assert_eq!(r.unwrap_err(), GamingRewardsError::InvalidTimestamp);
    let t = ticket(T0);
    let forged = session_signature(&s.wallet_kp, &t);
    let r = verify_steam_session(&mut s.profile, &mut s.oracle, &t, &forged, T0);
    assert_eq!(r.unwrap_err(), GamingRewardsError::InvalidOracleSignature);
    let r = verify_steam_session(&mut s.profile, &mut s.oracle, &t, &Vec::new(), T0);
    assert_eq!(r.unwrap_err(), GamingRewardsError::InvalidOracleSignature);
    let mut wrong_id = ticket(T0);
    wrong_id.steam_id = STEAM_ID + 1;
    let sig = session_signature(&s.oracle_kp, &wrong_id);
    let r = verify_steam_session(&mut s.profile, &mut s.oracle, &wrong_id, &sig, T0);
    assert_eq!(r.unwrap_err(), GamingRewardsError::InvalidSteamId);
    let mut empty = ticket(T0);
    empty.session_id = vec![];
    let r = verify_steam_session(&mut s.profile, &mut s.oracle, &empty, &sig, T0);
    assert_eq!(r.unwrap_err(), GamingRewardsError::InvalidSessionId);
    let mut no_ticket = ticket(T0);
    no_ticket.ticket = vec![];
    let r = verify_steam_session(&mut s.profile, &mut s.oracle, &no_ticket, &sig, T0);
    assert_eq!(r.unwrap_err(), GamingRewardsError::InvalidSteamTicket);
    assert!(!s.profile.steam_session_valid);
    assert_eq!(s.oracle.successful_verifications, 0);
    let mut weak = OracleAccount::initialize(key_of(&s.oracle_kp), 10, 10, 100, T0).unwrap();
    let r = verify_steam_session(&mut s.profile, &mut weak, &ticket(T0), &sig, T0);
    assert_eq!(r.unwrap_err(), GamingRewardsError::InsufficientOracleStake);
}

#[test]
fn wallet_refusals() {
    let mut s = setup();
    let other = keypair(13);
    let w = wallet_data(&other, T0);
    let r = verify_oauth_wallet(&mut s.profile, &mut s.oracle, &w, T0);
    assert_eq!(r.unwrap_err(), GamingRewardsError::InvalidWallet);
    let mut w = wallet_data(&s.wallet_kp, T0);
    w.signature = other.sign(b"something else").to_bytes().to_vec();
    let r = verify_oauth_wallet(&mut s.profile, &mut s.oracle, &w, T0);
    assert_eq!(r.unwrap_err(), GamingRewardsError::InvalidWalletSignature);
    let mut w = wallet_data(&s.wallet_kp, T0);
    w.message = vec![];
    let r = verify_oauth_wallet(&mut s.profile, &mut s.oracle, &w, T0);
    assert_eq!(r.unwrap_err(), GamingRewardsError::InvalidMessage);
    let w = wallet_data(&s.wallet_kp, T0 - 400);
    let r = verify_oauth_wallet(&mut s.profile, &mut s.oracle, &w, T0);
    assert_eq!(r.unwrap_err(), GamingRewardsError::StaleVerification);
    let w = wallet_data(&s.wallet_kp, T0);
    verify_oauth_wallet(&mut s.profile, &mut s.oracle, &w, T0).unwrap();
    assert!(s.profile.oauth_wallet_linked);
    assert_eq!(s.profile.verification_level, 1);
}

#[test]
fn multi_factor_needs_session_and_wallet() {
    let mut s = setup();
    let m = report(4);
    let sig = report_signature(&s.oracle_kp, &s.user, &m);
    let r = verify_multi_factor(&mut s.profile, &mut s.oracle, &m, &sig, T0);
    assert_eq!(r.unwrap_err(), GamingRewardsError::SteamSessionRequired);
    let t = ticket(T0);
    let tsig = session_signature(&s.oracle_kp, &t);
    verify_steam_session(&mut s.profile, &mut s.oracle, &t, &tsig, T0).unwrap();
    let r = verify_multi_factor(&mut s.profile, &mut s.oracle, &m, &sig, T0);
    assert_eq!(r.unwrap_err(), GamingRewardsError::OAuthWalletRequired);
    let mut bad = report(4);
    bad.verification_level = 5;
    let r = verify_multi_factor(&mut s.profile, &mut s.oracle, &bad, &sig, T0);
    assert_eq!(r.unwrap_err(), GamingRewardsError::InvalidVerificationLevel);
    let mut bad = report(4);
    bad.ruby_score = 1001;
    let r = verify_multi_factor(&mut s.profile, &mut s.oracle, &bad, &sig, T0);
    assert_eq!(r.unwrap_err(), GamingRewardsError::InvalidRubyScore);
    let r = verify_multi_factor(&mut s.profile, &mut s.oracle, &report(3), &sig, T0);
    assert_eq!(r.unwrap_err(), GamingRewardsError::InvalidOracleSignature);
}

#[test]
fn fraud_freezes_the_profile_for_good() {
    let mut s = verified_setup();
    let m = report(4);
    let sig = report_signature(&s.oracle_kp, &s.user, &m);
    verify_multi_factor(&mut s.profile, &mut s.oracle, &m, &sig, T0 + 2).unwrap();
    assert!(s.profile.is_eligible());
    s.profile.mark_fraudulent();
    let once = s.profile.clone();
    s.profile.mark_fraudulent();
    assert_eq!(s.profile.fraud_detected, once.fraud_detected);
    assert_eq!(s.profile.verification_level, 0);
    assert_eq!(s.profile.multi_factor_score, 0);
    assert!(!s.profile.steam_session_valid);
    assert!(!s.profile.oauth_wallet_linked);
    assert!(!s.profile.is_eligible());
    assert_eq!(s.profile.get_verification_score(), 0);

    let t = ticket(T0 + 5);
    let tsig = session_signature(&s.oracle_kp, &t);
    let r = verify_steam_session(&mut s.profile, &mut s.oracle, &t, &tsig, T0 + 5);
    assert_eq!(r.unwrap_err(), GamingRewardsError::FraudDetected);
    let r = verify_oauth_wallet(&mut s.profile, &mut s.oracle, &wallet_data(&s.wallet_kp, T0 + 5), T0 + 5);
    assert_eq!(r.unwrap_err(), GamingRewardsError::FraudDetected);
    let r = verify_multi_factor(&mut s.profile, &mut s.oracle, &m, &sig, T0 + 5);
    assert_eq!(r.unwrap_err(), GamingRewardsError::FraudDetected);
    let att = ZKPAttestation { proof: vec![1], public_inputs: vec![1], attestation_id: vec![1], issuer: s.oracle.oracle, timestamp: T0 + 5 };
    let issuer = s.oracle.oracle;
    assert_eq!(s.profile.add_zkp_attestation(att, &issuer, T0 + 5), Err(GamingRewardsError::FraudDetected));
    assert!(!s.profile.is_eligible());
    assert_eq!(s.profile.is_eligible_for_rewards(), Err(GamingRewardsError::FraudDetected));
    assert_eq!(s.profile.verification_level, 0);
}

#[test]
fn attestations_from_the_trusted_issuer_only() {
    let mut s = setup();
    let issuer = s.oracle.oracle;
    let att = |who: Pubkey, proof: Vec<u8>, ts: i64| ZKPAttestation {
        proof,
        public_inputs: vec![1],
        attestation_id: vec![2],
        issuer: who,
        timestamp: ts,
    };
    assert_eq!(
        s.profile.add_zkp_attestation(att(Pubkey::new([9; 32]), vec![1], T0), &issuer, T0),
        Err(GamingRewardsError::Unauthorized)
    );
    assert_eq!(s.profile.add_zkp_attestation(att(issuer, vec![], T0), &issuer, T0), Err(GamingRewardsError::InvalidZKPProof));
    assert_eq!(s.profile.add_zkp_attestation(att(issuer, vec![1], T0 - 301), &issuer, T0), Err(GamingRewardsError::StaleVerification));
    assert_eq!(s.profile.zkp_attestations.len(), 0);
    assert_eq!(s.profile.add_zkp_attestation(att(issuer, vec![1], T0), &issuer, T0), Ok(()));
    assert_eq!(s.profile.zkp_attestations.len(), 1);
    assert_eq!(s.profile.verification_level, 1);
}

#[test]
fn registration_needs_a_seventeen_digit_id() {
    let user = Pubkey::new([2; 32]);
    let wallet = Pubkey::new([3; 32]);
    assert_eq!(register_user(user, 9_999_999_999_999_999, wallet).unwrap_err(), GamingRewardsError::InvalidSteamId);
    assert_eq!(register_user(user, 100_000_000_000_000_000, wallet).unwrap_err(), GamingRewardsError::InvalidSteamId);
    let reg = register_user(user, 10_000_000_000_000_000, wallet).unwrap();
    assert_eq!(reg.profile.steam_id, 10_000_000_000_000_000);
    assert_eq!(reg.rewards.user, user);
    assert!(!reg.profile.is_eligible());
}

#[test]
fn signed_messages_have_the_canonical_layout() {
    let mut bytes = [0u8; 32];
    bytes[0] = 0xab;
    bytes[31] = 0x0f;
    let user = Pubkey::new(bytes);
    let hex_user = format!("ab{}0f", "00".repeat(30));
    assert_eq!(encode_claim_message(&user, -42, 400_000), format!("{}:-42:400000", hex_user).into_bytes());
    assert_eq!(encode_claim_message(&user, 0, 0), format!("{}:0:0", hex_user).into_bytes());
    assert_eq!(
        encode_claim_message(&user, i64::MIN, u64::MAX),
        format!("{}:-9223372036854775808:18446744073709551615", hex_user).into_bytes()
    );
    assert_eq!(encode_session_message(7, 1234, &b"xy".to_vec()), b"7:1234:xy".to_vec());
    assert_eq!(encode_wallet_message(7, &user, 5), format!("7:{}:5", hex_user).into_bytes());
    assert_eq!(encode_multi_factor_message(&user, 10, 2), format!("{}:10:2", hex_user).into_bytes());
}
