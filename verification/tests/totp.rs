use totp_rs::{Algorithm, TOTP};
use totp_vault::totp::{
    code_from_mac, derive_code, dynamic_truncate, six_digit_string, CODE_MODULUS, DIGITS, MAC_LEN,
    SKEW, STEP,
};

const RFC_SECRET: &[u8] = b"12345678901234567890";

fn unhex(text: &str) -> Vec<u8> {
    (0..text.len() / 2).map(|i| u8::from_str_radix(&text[2 * i..2 * i + 2], 16).unwrap()).collect()
}

#[test]
fn constants() {
    assert_eq!(DIGITS, 6);
    assert_eq!(SKEW, 0);
    assert_eq!(STEP, 30);
    assert_eq!(MAC_LEN, 20);
    assert_eq!(CODE_MODULUS, 1_000_000);
}

#[test]
fn codes_of_the_standard_secret() {
    assert_eq!(derive_code(RFC_SECRET, 59), "287082");
    assert_eq!(derive_code(RFC_SECRET, 1_111_111_109), "081804");
    assert_eq!(derive_code(RFC_SECRET, 1_111_111_111), "050471");
    assert_eq!(derive_code(RFC_SECRET, 1_234_567_890), "005924");
    assert_eq!(derive_code(RFC_SECRET, 2_000_000_000), "279037");
    assert_eq!(derive_code(RFC_SECRET, 20_000_000_000), "353130");
}

#[test]
fn codes_of_other_secrets() {
    assert_eq!(derive_code(b"TestSecretSuperSecret", 1_700_000_000), "824292");
    assert_eq!(derive_code(b"S1", 1_700_000_000), "736391");
    assert_eq!(derive_code(b"S2", 1_700_000_000), "572886");
    assert_eq!(derive_code(b"S2", u64::MAX), "186976");
}

#[test]
fn code_of_the_empty_secret() {
    assert_eq!(derive_code(b"", 1_700_000_000), "501315");
}

#[test]
fn leading_zeros_are_kept() {
    assert_eq!(derive_code(b"TestSecretSuperSecret", 90), "008020");
    assert_eq!(derive_code(b"TestSecretSuperSecret", 1740), "005801");
    assert_eq!(derive_code(b"TestSecretSuperSecret", 330), "056223");
}

#[test]
fn code_is_six_decimal_digits() {
    for step in 0..500u64 {
        let code = derive_code(b"TestSecretSuperSecret", step * STEP + 7);
        assert_eq!(code.len(), 6);
        assert!(code.chars().all(|c| c.is_ascii_digit()));
    }
}

#[test]
fn one_code_for_every_second_of_a_step() {
    let first = derive_code(RFC_SECRET, 1_111_111_080);
    for second in 0..STEP {
        assert_eq!(derive_code(RFC_SECRET, 1_111_111_080 + second), first);
    }
    assert_eq!(first, "081804");
    assert_eq!(derive_code(RFC_SECRET, 1_111_111_079), derive_code(RFC_SECRET, 1_111_111_050));
    assert_ne!(derive_code(RFC_SECRET, 1_111_111_079), first);
    assert_ne!(derive_code(RFC_SECRET, 1_111_111_110), first);
}

#[test]
fn repeated_calls_agree() {
    let first = derive_code(b"S1", 1_700_000_000);
    let second = derive_code(b"S1", 1_700_000_000);
    assert_eq!(first, second);
    assert_eq!(first, derive_code(b"S1", 1_700_000_009));
}

#[test]
fn agrees_with_the_generator_of_the_totp_crate() {
    let secrets: [&[u8]; 4] = [RFC_SECRET, b"TestSecretSuperSecret", b"S2", b""];
    for secret in secrets {
        let totp = TOTP::new_unchecked(Algorithm::SHA1, DIGITS, SKEW, STEP, secret.to_vec());
        for k in 0..200u64 {
            let time = k * 7919 + k * k * 104_729;
            assert_eq!(derive_code(secret, time), totp.generate(time));
            assert_eq!(code_from_mac(&totp.sign(time)), totp.generate(time));
        }
    }
}

#[test]
fn truncation_reads_four_bytes_at_the_offset() {
    let mac = unhex("1f8698690e02ca16618550ef7f19da8e945b555a");
    assert_eq!(dynamic_truncate(&mac), 0x50ef7f19);
    assert_eq!(dynamic_truncate(&mac), 1_357_872_921);
    assert_eq!(code_from_mac(&mac), "872921");
}

#[test]
fn truncation_clears_the_top_bit() {
    let mac = unhex("cc93cf18508d94934c64b65d8ba7667fb7cde4b0");
    assert_eq!(dynamic_truncate(&mac), 0x4c93cf18);
    assert_eq!(dynamic_truncate(&mac), 1_284_755_224);
    assert_eq!(code_from_mac(&mac), "755224");

    let all_ones = [0xffu8; 20];
    assert_eq!(dynamic_truncate(&all_ones), 0x7fff_ffff);
    assert_eq!(code_from_mac(&all_ones), "483647");
}

#[test]
fn truncation_at_the_first_and_the_last_offset() {
    let mut mac = [0u8; 20];
    mac[0] = 0x01;
    mac[1] = 0x02;
    mac[2] = 0x03;
    mac[3] = 0x04;
    mac[19] = 0xf0;
    assert_eq!(dynamic_truncate(&mac), 0x0102_0304);
    assert_eq!(code_from_mac(&mac), "909060");

    let mut mac = [0u8; 20];
    mac[15] = 0x81;
    mac[16] = 0x00;
    mac[17] = 0x01;
    mac[18] = 0x02;
    mac[19] = 0x0f;
    assert_eq!(dynamic_truncate(&mac), 0x0100_0102);
    assert_eq!(code_from_mac(&mac), "777474");
}

#[test]
fn codes_of_counter_macs() {
    let macs = [
        ("cc93cf18508d94934c64b65d8ba7667fb7cde4b0", "755224"),
        ("75a48a19d4cbe100644e8ac1397eea747a2d33ab", "287082"),
        ("0bacb7fa082fef30782211938bc1c5e70416ff44", "359152"),
        ("66c28227d03a2d5529262ff016a1e6ef76557ece", "969429"),
        ("a904c900a64b35909874b33e61c5938a8e15ed1c", "338314"),
    ];
    for (mac, code) in macs {
        assert_eq!(code_from_mac(&unhex(mac)), code);
    }
}

#[test]
fn six_digits_of_a_number() {
    assert_eq!(six_digit_string(0), "000000");
    assert_eq!(six_digit_string(7), "000007");
    assert_eq!(six_digit_string(123), "000123");
    assert_eq!(six_digit_string(100_000), "100000");
    assert_eq!(six_digit_string(999_999), "999999");
    assert_eq!(six_digit_string(1_000_000), "000000");
    assert_eq!(six_digit_string(1_284_755_224), "755224");
    assert_eq!(six_digit_string(u32::MAX), "967295");
}
