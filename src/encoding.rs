//! Canonical byte messages that oracles and wallets sign.
//!
//! Fields are joined by `:`; integers are written in decimal, a negative one
//! with a leading `-`; keys are written as lowercase hexadecimal.
use vstd::prelude::*;
use crate::keys::Pubkey;

verus! {

/// The ASCII code of `:`, the field separator of every signed message.
pub const SEPARATOR: u8 = 58;

/// The decimal digits of `n`, most significant first, with no leading zero.
pub open spec fn decimal_digits(n: nat) -> Seq<u8>
    decreases n,
{
    if n < 10 {
        seq![(48 + n) as u8]
    } else {
        decimal_digits(n / 10).push((48 + n % 10) as u8)
    }
}

/// The decimal form of a signed integer.
pub open spec fn signed_decimal(n: int) -> Seq<u8> {
    if n < 0 {
        seq![45u8] + decimal_digits((-n) as nat)
    } else {
        decimal_digits(n as nat)
    }
}

/// The lowercase hexadecimal digit of a value below 16.
pub open spec fn hex_digit(v: u8) -> u8 {
    if v < 10 {
        (48 + v) as u8
    } else {
        (87 + v) as u8
    }
}

/// Two lowercase hexadecimal digits for each byte, high half first.
pub open spec fn hex_of(b: Seq<u8>) -> Seq<u8> {
    Seq::new(2 * b.len(), |i: int| if i % 2 == 0 { hex_digit(b[i / 2] / 16) } else { hex_digit(b[i / 2] % 16) })
}

/// Appends the decimal digits of `n`.
pub fn push_decimal(out: &mut Vec<u8>, n: u64)
    ensures
        final(out)@ == old(out)@ + decimal_digits(n as nat),
    decreases n,
{
    if n >= 10 {
        push_decimal(out, n / 10);
    }
    out.push((48 + n % 10) as u8);
    proof {
        if n >= 10 {
            assert(decimal_digits(n as nat) == decimal_digits((n / 10) as nat).push((48 + n % 10) as u8));
        }
    }
    assert(final(out)@ =~= old(out)@ + decimal_digits(n as nat));
}

/// Appends the decimal form of a signed integer.
pub fn push_signed_decimal(out: &mut Vec<u8>, n: i64)
    ensures
        final(out)@ == old(out)@ + signed_decimal(n as int),
{
    if n < 0 {
        out.push(45u8);
        let magnitude: u64 = (0i128 - n as i128) as u64;
        push_decimal(out, magnitude);
        assert(final(out)@ =~= old(out)@ + signed_decimal(n as int));
    } else {
        push_decimal(out, n as u64);
    }
}

/// Relies on `hex::encode`: each byte becomes two lowercase hexadecimal
/// digits, high half first.
#[verifier::external_body]
fn hex_encode(data: &[u8]) -> (r: Vec<u8>)
    ensures
        r@ == hex_of(data@),
{
    hex::encode(data).into_bytes()
}

/// Appends the lowercase hexadecimal form of a key.
pub fn push_key(out: &mut Vec<u8>, key: &Pubkey)
    ensures
        final(out)@ == old(out)@ + hex_of(key@),
{
    let mut digits = hex_encode(&key.bytes);
    out.append(&mut digits);
}

/// `subject:timestamp:amount`, the message an oracle signs to approve a claim.
pub open spec fn claim_message(user: Seq<u8>, timestamp: int, amount: nat) -> Seq<u8> {
    hex_of(user) + seq![SEPARATOR] + signed_decimal(timestamp) + seq![SEPARATOR] + decimal_digits(amount)
}

/// `steam_id:timestamp:session_id`, the message an oracle signs to vouch for a
/// game session.
pub open spec fn session_message(steam_id: nat, timestamp: int, session_id: Seq<u8>) -> Seq<u8> {
    decimal_digits(steam_id) + seq![SEPARATOR] + signed_decimal(timestamp) + seq![SEPARATOR] + session_id
}

/// `steam_id:wallet:timestamp`, the message a wallet signs to link itself to a
/// game account.
pub open spec fn wallet_message(steam_id: nat, wallet: Seq<u8>, timestamp: int) -> Seq<u8> {
    decimal_digits(steam_id) + seq![SEPARATOR] + hex_of(wallet) + seq![SEPARATOR] + signed_decimal(timestamp)
}

/// `user:ruby_score:verification_level`, the message an oracle signs over a
/// multi-factor report.
pub open spec fn multi_factor_message(user: Seq<u8>, ruby_score: nat, level: nat) -> Seq<u8> {
    hex_of(user) + seq![SEPARATOR] + decimal_digits(ruby_score) + seq![SEPARATOR] + decimal_digits(level)
}

/// Builds the claim approval message.
pub fn encode_claim_message(user: &Pubkey, timestamp: i64, amount: u64) -> (r: Vec<u8>)
    ensures
        r@ == claim_message(user@, timestamp as int, amount as nat),
{
    let mut out: Vec<u8> = Vec::new();
    push_key(&mut out, user);
    out.push(SEPARATOR);
    push_signed_decimal(&mut out, timestamp);
    out.push(SEPARATOR);
    push_decimal(&mut out, amount);
    assert(out@ =~= claim_message(user@, timestamp as int, amount as nat));
    out
}

/// Builds the session attestation message.
pub fn encode_session_message(steam_id: u64, timestamp: i64, session_id: &Vec<u8>) -> (r: Vec<u8>)
    ensures
        r@ == session_message(steam_id as nat, timestamp as int, session_id@),
{
    let mut out: Vec<u8> = Vec::new();
    push_decimal(&mut out, steam_id);
    out.push(SEPARATOR);
    push_signed_decimal(&mut out, timestamp);
    out.push(SEPARATOR);
    let mut i: usize = 0;
    let ghost head = out@;
    while i < session_id.len()
        invariant
            0 <= i <= session_id@.len(),
            out@ == head + session_id@.subrange(0, i as int),
        decreases session_id@.len() - i,
    {
        out.push(session_id[i]);
        assert(session_id@.subrange(0, i + 1) =~= session_id@.subrange(0, i as int).push(session_id@[i as int]));
        i = i + 1;
    }
    assert(session_id@.subrange(0, session_id@.len() as int) =~= session_id@);
    assert(out@ =~= session_message(steam_id as nat, timestamp as int, session_id@));
    out
}

/// Builds the wallet linkage message.
pub fn encode_wallet_message(steam_id: u64, wallet: &Pubkey, timestamp: i64) -> (r: Vec<u8>)
    ensures
        r@ == wallet_message(steam_id as nat, wallet@, timestamp as int),
{
    let mut out: Vec<u8> = Vec::new();
    push_decimal(&mut out, steam_id);
    out.push(SEPARATOR);
    push_key(&mut out, wallet);
    out.push(SEPARATOR);
    push_signed_decimal(&mut out, timestamp);
    assert(out@ =~= wallet_message(steam_id as nat, wallet@, timestamp as int));
    out
}

/// Builds the multi-factor report message.
pub fn encode_multi_factor_message(user: &Pubkey, ruby_score: u64, level: u8) -> (r: Vec<u8>)
    ensures
        r@ == multi_factor_message(user@, ruby_score as nat, level as nat),
{
    let mut out: Vec<u8> = Vec::new();
    push_key(&mut out, user);
    out.push(SEPARATOR);
    push_decimal(&mut out, ruby_score);
    out.push(SEPARATOR);
    push_decimal(&mut out, level as u64);
    assert(out@ =~= multi_factor_message(user@, ruby_score as nat, level as nat));
    out
}

} // verus!
