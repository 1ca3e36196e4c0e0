//! The one-time code generator: HMAC-SHA1 over the number of the 30-second
//! step, dynamic truncation, and six decimal digits.

use totp_rs::{Algorithm, TOTP};
use vstd::prelude::*;
use vstd::string::*;

verus! {

/// Number of decimal digits of a code.
pub const DIGITS: usize = 6;

/// Steps before and after the current one that would be accepted when a code
/// is checked. Codes are only generated here, for the current step.
pub const SKEW: u8 = 0;

/// Length of a time step, in seconds.
pub const STEP: u64 = 30;

/// Length of an HMAC-SHA1 output, in bytes.
pub const MAC_LEN: usize = 20;

/// One more than the largest number that six digits can show.
pub const CODE_MODULUS: u32 = 1_000_000;

/// The bytes that `totp_rs::TOTP::sign` returns at `time` for a generator
/// that `totp_rs::TOTP::new_unchecked` made from the SHA-1 algorithm and the
/// other four values.
pub uninterp spec fn totp_signature(
    digits: usize,
    skew: u8,
    step: u64,
    secret: Seq<u8>,
    time: u64,
) -> Seq<u8>;

/// Calls `totp_rs::TOTP::new_unchecked` with `Algorithm::SHA1` and then
/// `TOTP::sign`: the HMAC-SHA1, keyed by `secret`, of `time / step` written
/// as eight big-endian bytes.
///
/// Trusted: that the result depends on these arguments alone, and that it is
/// 20 bytes long, the output size of SHA-1. `sign` divides by `step`, so a
/// zero step is left out.
#[verifier::external_body]
fn sign_sha1(digits: usize, skew: u8, step: u64, secret: &[u8], time: u64) -> (mac: Vec<u8>)
    requires
        step != 0,
    ensures
        mac@ == totp_signature(digits, skew, step, secret@, time),
        mac@.len() == 20,
{
    TOTP::new_unchecked(Algorithm::SHA1, digits, skew, step, secret.to_vec()).sign(time)
}

/// The number of the time step that `time`, in seconds since the epoch,
/// falls into.
pub open spec fn counter(time: u64) -> int {
    time as int / STEP as int
}

/// The first second of the time step that `time` falls into.
pub open spec fn window_start(time: u64) -> u64 {
    (counter(time) * STEP as int) as u64
}

/// Where the four bytes to keep start: the low nibble of the last byte.
pub open spec fn truncation_offset(mac: Seq<u8>) -> int {
    (mac[MAC_LEN as int - 1] & 0x0f) as int
}

/// The 31-bit number that dynamic truncation reads from a MAC: four bytes
/// from the offset on, big-endian, without the top bit of the first.
pub open spec fn truncated_value(mac: Seq<u8>) -> int {
    let at = truncation_offset(mac);
    (mac[at] & 0x7f) as int * 0x100_0000 + mac[at + 1] as int * 0x1_0000 + mac[at + 2] as int
        * 0x100 + mac[at + 3] as int
}

/// The character that shows the decimal digit `d`.
pub open spec fn digit_char(d: int) -> char {
    if d == 0 {
        '0'
    } else if d == 1 {
        '1'
    } else if d == 2 {
        '2'
    } else if d == 3 {
        '3'
    } else if d == 4 {
        '4'
    } else if d == 5 {
        '5'
    } else if d == 6 {
        '6'
    } else if d == 7 {
        '7'
    } else if d == 8 {
        '8'
    } else {
        '9'
    }
}

/// Whether `c` is one of the ten decimal digits.
pub open spec fn is_decimal_digit(c: char) -> bool {
    '0' <= c <= '9'
}

/// Whether `code` is exactly six decimal digits.
pub open spec fn is_six_digit_code(code: Seq<char>) -> bool {
    &&& code.len() == DIGITS
    &&& forall|i: int| 0 <= i < code.len() ==> is_decimal_digit(#[trigger] code[i])
}

/// The last six decimal digits of `n`, most significant first, with leading
/// zeros kept.
pub open spec fn six_digits(n: int) -> Seq<char> {
    let m = n % CODE_MODULUS as int;
    seq![
        digit_char(m / 100_000 % 10),
        digit_char(m / 10_000 % 10),
        digit_char(m / 1_000 % 10),
        digit_char(m / 100 % 10),
        digit_char(m / 10 % 10),
        digit_char(m % 10),
    ]
}

/// The code that a 20-byte MAC stands for.
pub open spec fn code_of_mac(mac: Seq<u8>) -> Seq<char> {
    six_digits(truncated_value(mac))
}

/// The code of `secret` at `time`: that of the MAC over the step's number.
/// The MAC is asked for the first second of the step, so that the code is
/// one and the same for every second of it.
pub open spec fn totp_code(secret: Seq<u8>, time: u64) -> Seq<char> {
    code_of_mac(totp_signature(DIGITS, SKEW, STEP, secret, window_start(time)))
}

/// The six digits of any number are six decimal digits.
pub proof fn lemma_six_digits_shape(n: int)
    ensures
        is_six_digit_code(six_digits(n)),
{
}

/// Dynamic truncation reads inside the MAC and gives a number that is not
/// negative and fits in 31 bits.
pub proof fn lemma_truncated_value_range(mac: Seq<u8>)
    requires
        mac.len() == MAC_LEN,
    ensures
        0 <= truncation_offset(mac) <= 15,
        0 <= truncated_value(mac) <= 0x7fff_ffff,
{
    let last: u8 = mac[MAC_LEN as int - 1];
    assert(last & 0x0f <= 15) by (bit_vector);
    let lead: u8 = mac[truncation_offset(mac)];
    assert(lead & 0x7f <= 0x7f) by (bit_vector);
}

/// The one-character string that shows the digit `d`.
fn digit_str(d: u32) -> (s: &'static str)
    requires
        d < 10,
    ensures
        s@ =~= seq![digit_char(d as int)],
{
    proof {
        reveal_strlit("0");
        reveal_strlit("1");
        reveal_strlit("2");
        reveal_strlit("3");
        reveal_strlit("4");
        reveal_strlit("5");
        reveal_strlit("6");
        reveal_strlit("7");
        reveal_strlit("8");
        reveal_strlit("9");
    }
    match d {
        0 => "0",
        1 => "1",
        2 => "2",
        3 => "3",
        4 => "4",
        5 => "5",
        6 => "6",
        7 => "7",
        8 => "8",
        _ => "9",
    }
}

/// Dynamic truncation of a 20-byte MAC to a number below 2^31.
pub fn dynamic_truncate(mac: &[u8]) -> (value: u32)
    requires
        mac@.len() == MAC_LEN,
    ensures
        value as int == truncated_value(mac@),
        value <= 0x7fff_ffff,
{
    proof {
        lemma_truncated_value_range(mac@);
    }
    let at: usize = (mac[MAC_LEN - 1] & 0x0f) as usize;
    let b0: u32 = (mac[at] & 0x7f) as u32;
    let b1: u32 = mac[at + 1] as u32;
    let b2: u32 = mac[at + 2] as u32;
    let b3: u32 = mac[at + 3] as u32;
    b0 * 0x100_0000 + b1 * 0x1_0000 + b2 * 0x100 + b3
}

/// Writes the last six decimal digits of `value`, leading zeros kept.
pub fn six_digit_string(value: u32) -> (code: String)
    ensures
        code@ == six_digits(value as int),
        is_six_digit_code(code@),
{
    let m: u32 = value % CODE_MODULUS;
    let mut code = String::new();
    code.append(digit_str(m / 100_000 % 10));
    code.append(digit_str(m / 10_000 % 10));
    code.append(digit_str(m / 1_000 % 10));
    code.append(digit_str(m / 100 % 10));
    code.append(digit_str(m / 10 % 10));
    code.append(digit_str(m % 10));
    proof {
        assert(code@ =~= six_digits(value as int));
        lemma_six_digits_shape(value as int);
    }
    code
}

/// The code that a 20-byte MAC stands for: dynamic truncation, then the last
/// six decimal digits.
pub fn code_from_mac(mac: &[u8]) -> (code: String)
    requires
        mac@.len() == MAC_LEN,
    ensures
        code@ == code_of_mac(mac@),
        is_six_digit_code(code@),
{
    six_digit_string(dynamic_truncate(mac))
}

/// The one-time code of `secret` at `time`, in seconds since the epoch.
pub fn derive_code(secret: &[u8], time: u64) -> (code: String)
    ensures
        code@ == totp_code(secret@, time),
        is_six_digit_code(code@),
{
    let step_number: u64 = time / STEP;
    let start: u64 = step_number * STEP;
    let mac = sign_sha1(DIGITS, SKEW, STEP, secret, start);
    code_from_mac(mac.as_slice())
}

/// Every code is six decimal digits, leading zeros kept.
pub proof fn lemma_code_shape(secret: Seq<u8>, time: u64)
    ensures
        is_six_digit_code(totp_code(secret, time)),
{
    lemma_six_digits_shape(
        truncated_value(totp_signature(DIGITS, SKEW, STEP, secret, window_start(time))),
    );
}

/// Two instants of one time step give one code.
pub proof fn lemma_same_step_same_code(secret: Seq<u8>, first: u64, second: u64)
    requires
        counter(first) == counter(second),
    ensures
        totp_code(secret, first) == totp_code(secret, second),
{
}

} // verus!
