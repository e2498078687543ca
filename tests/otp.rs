use thotp::custom::{otp_custom, verify_hotp_custom, verify_totp_custom, verify_totp_window, Sha1, Sha256, Sha512};
use thotp::decimal::render_decimal;
use thotp::error::ThotpError;
use thotp::truncate::{counter_bytes, dynamic_trunc};

const RFC_SECRET: &[u8] = b"12345678901234567890";

fn totp_pairs() -> Vec<(&'static str, u64)> {
    vec![
        ("94287082", 59),
        ("07081804", 1111111109),
        ("14050471", 1111111111),
        ("89005924", 1234567890),
        ("69279037", 2000000000),
        ("65353130", 20000000000),
    ]
}

#[test]
fn rfc4226_hotp_vectors() {
    let expected = [
        "755224", "287082", "359152", "969429", "338314", "254676", "287922", "162583", "399871",
        "520489",
    ];
    for (counter, code) in expected.iter().enumerate() {
        assert_eq!(otp_custom::<Sha1>(RFC_SECRET, counter as u64, 6).unwrap(), *code);
    }
}

#[test]
fn rfc6238_sha1_generate() {
    for (expected, timestamp) in totp_pairs() {
        assert_eq!(expected, otp_custom::<Sha1>(RFC_SECRET, timestamp / 30, 8).unwrap());
    }
}

#[test]
fn rfc6238_sha1_verify_with_drift_one() {
    for (expected, timestamp) in totp_pairs() {
        let r = verify_totp_custom::<Sha1>(expected, RFC_SECRET, timestamp, 8, 30, 1).unwrap();
        assert_eq!((true, 0), r);
    }
}

#[test]
fn rfc6238_sha256_vectors() {
    let secret = b"12345678901234567890123456789012";
    let pairs = [
        ("46119246", 59u64),
        ("68084774", 1111111109),
        ("67062674", 1111111111),
        ("91819424", 1234567890),
        ("90698825", 2000000000),
        ("77737706", 20000000000),
    ];
    for (expected, timestamp) in pairs {
        assert_eq!(expected, otp_custom::<Sha256>(secret, timestamp / 30, 8).unwrap());
        assert_eq!((true, 0), verify_totp_custom::<Sha256>(expected, secret, timestamp, 8, 30, 1).unwrap());
    }
}

#[test]
fn rfc6238_sha512_vectors() {
    let secret = b"1234567890123456789012345678901234567890123456789012345678901234";
    let pairs = [
        ("90693936", 59u64),
        ("25091201", 1111111109),
        ("99943326", 1111111111),
        ("93441116", 1234567890),
        ("38618901", 2000000000),
        ("47863826", 20000000000),
    ];
    for (expected, timestamp) in pairs {
        assert_eq!(expected, otp_custom::<Sha512>(secret, timestamp / 30, 8).unwrap());
        assert_eq!((true, 0), verify_totp_custom::<Sha512>(expected, secret, timestamp, 8, 30, 1).unwrap());
    }
}

#[test]
fn generate_has_requested_length_and_digits() {
    for digits in 1..=10u8 {
        for counter in [0u64, 1, 7, 1 << 40, u64::MAX] {
            let p = otp_custom::<Sha256>(b"key", counter, digits).unwrap();
            assert_eq!(p.len(), digits as usize);
            assert!(p.chars().all(|c| c.is_ascii_digit()));
        }
    }
}

#[test]
fn generate_is_deterministic() {
    let a = otp_custom::<Sha512>(b"some secret", 42, 7).unwrap();
    let b = otp_custom::<Sha512>(b"some secret", 42, 7).unwrap();
    assert_eq!(a, b);
}

#[test]
fn generate_ten_digits_keeps_full_value() {
    // the truncated value of RFC 4226 counter 0 is 1284755224
    assert_eq!(otp_custom::<Sha1>(RFC_SECRET, 0, 10).unwrap(), "1284755224");
    assert_eq!(otp_custom::<Sha1>(RFC_SECRET, 0, 12).unwrap(), "001284755224");
}

#[test]
fn generate_zero_digits_is_config_error() {
    assert_eq!(otp_custom::<Sha1>(RFC_SECRET, 0, 0), Err(ThotpError::ConfigError));
}

#[test]
fn hotp_accepts_current_counter() {
    let p = otp_custom::<Sha1>(RFC_SECRET, 5, 6).unwrap();
    assert_eq!(verify_hotp_custom::<Sha1>(&p, RFC_SECRET, 5, 0, 6).unwrap(), (true, 6));
    assert_eq!(verify_hotp_custom::<Sha1>(&p, RFC_SECRET, 5, 10, 6).unwrap(), (true, 6));
}

#[test]
fn hotp_accepts_within_lookahead() {
    // counter 7 gives "162583"
    assert_eq!(verify_hotp_custom::<Sha1>("162583", RFC_SECRET, 3, 4, 6).unwrap(), (true, 8));
}

#[test]
fn hotp_rejects_past_lookahead() {
    // counter 8 gives "399871", one past the window 3..=7
    assert_eq!(verify_hotp_custom::<Sha1>("399871", RFC_SECRET, 3, 4, 6).unwrap(), (false, 3));
}

#[test]
fn hotp_rejects_earlier_counter() {
    assert_eq!(verify_hotp_custom::<Sha1>("755224", RFC_SECRET, 1, 20, 6).unwrap(), (false, 1));
}

#[test]
fn hotp_near_counter_limit() {
    let key = b"super secret";
    let password = otp_custom::<Sha256>(key, u64::MAX - 1, 6).unwrap();
    let (result, counter) = verify_hotp_custom::<Sha256>(&password, key, u64::MAX - 18, 20, 6).unwrap();
    assert!(result);
    assert_eq!(counter, u64::MAX);
}

#[test]
fn hotp_wraps_past_counter_limit() {
    let key = b"super secret";
    let at_max = otp_custom::<Sha256>(key, u64::MAX, 6).unwrap();
    assert_eq!(verify_hotp_custom::<Sha256>(&at_max, key, u64::MAX, 0, 6).unwrap(), (true, 0));
    let wrapped = otp_custom::<Sha256>(key, 1, 6).unwrap();
    let r = verify_hotp_custom::<Sha256>(&wrapped, key, u64::MAX - 1, 255, 6).unwrap();
    assert_eq!(r, (true, 2));
}

#[test]
fn hotp_zero_digits_is_config_error() {
    assert_eq!(verify_hotp_custom::<Sha1>("", RFC_SECRET, 0, 3, 0), Err(ThotpError::ConfigError));
}

#[test]
fn totp_no_drift_accepts_current_step() {
    for timestamp in [59u64, 1111111109, 20000000000] {
        let p = otp_custom::<Sha1>(RFC_SECRET, timestamp / 30, 6).unwrap();
        assert_eq!(verify_totp_custom::<Sha1>(&p, RFC_SECRET, timestamp, 6, 30, 0).unwrap(), (true, 0));
    }
}

#[test]
fn totp_reports_offset_from_current_step() {
    let nonce = 1111111109 / 30;
    let ahead = otp_custom::<Sha1>(RFC_SECRET, nonce + 2, 8).unwrap();
    assert_eq!(verify_totp_custom::<Sha1>(&ahead, RFC_SECRET, 1111111109, 8, 30, 3).unwrap(), (true, 2));
    let behind = otp_custom::<Sha1>(RFC_SECRET, nonce - 3, 8).unwrap();
    assert_eq!(verify_totp_custom::<Sha1>(&behind, RFC_SECRET, 1111111109, 8, 30, 3).unwrap(), (true, -3));
    assert_eq!(verify_totp_custom::<Sha1>(&behind, RFC_SECRET, 1111111109, 8, 30, 2).unwrap(), (false, 0));
}

#[test]
fn totp_window_cut_at_epoch() {
    // step 1 at time 59: the window of drift 5 around step 1 starts at step 0
    let p = otp_custom::<Sha1>(RFC_SECRET, 0, 8).unwrap();
    assert_eq!(verify_totp_custom::<Sha1>(&p, RFC_SECRET, 59, 8, 30, 5).unwrap(), (true, -1));
}

#[test]
fn totp_window_cut_at_counter_limit() {
    let p = otp_custom::<Sha1>(RFC_SECRET, u64::MAX, 6).unwrap();
    assert_eq!(verify_totp_window::<Sha1>(&p, RFC_SECRET, u64::MAX - 1, 6, 4).unwrap(), (true, 1));
    let q = otp_custom::<Sha1>(RFC_SECRET, u64::MAX - 9, 6).unwrap();
    assert_eq!(verify_totp_window::<Sha1>(&q, RFC_SECRET, u64::MAX - 1, 6, 4).unwrap().0, false);
}

#[test]
fn totp_zero_step_is_config_error() {
    assert_eq!(verify_totp_custom::<Sha1>("94287082", RFC_SECRET, 59, 8, 0, 1), Err(ThotpError::ConfigError));
}

#[test]
fn totp_zero_timestamp_reads_clock() {
    let now = std::time::SystemTime::now()
        .duration_since(std::time::UNIX_EPOCH)
        .unwrap()
        .as_secs();
    let p = otp_custom::<Sha1>(RFC_SECRET, now / 30, 8).unwrap();
    let (ok, offset) = verify_totp_custom::<Sha1>(&p, RFC_SECRET, 0, 8, 30, 1).unwrap();
    assert!(ok);
    assert!(offset == 0 || offset == -1);
}

#[test]
fn dynamic_trunc_rfc4226_example() {
    let hash = [
        0x1f, 0x86, 0x98, 0x69, 0x0e, 0x02, 0xca, 0x16, 0x61, 0x85, 0x50, 0xef, 0x7f, 0x19, 0xda,
        0x8e, 0x94, 0x5b, 0x55, 0x5a,
    ];
    assert_eq!(dynamic_trunc(&hash), 0x50ef7f19);
}

#[test]
fn dynamic_trunc_clears_top_bit() {
    let mut hash = [0xffu8; 20];
    hash[19] = 0xf0;
    assert_eq!(dynamic_trunc(&hash), 0x7fffffff);
}

#[test]
fn counter_bytes_big_endian() {
    assert_eq!(counter_bytes(0x0102030405060708), vec![1, 2, 3, 4, 5, 6, 7, 8]);
    assert_eq!(counter_bytes(0), vec![0; 8]);
}

#[test]
fn render_decimal_pads_with_zeros() {
    assert_eq!(render_decimal(42, 6), "000042");
    assert_eq!(render_decimal(123456, 6), "123456");
    assert_eq!(render_decimal(0, 1), "0");
    assert_eq!(render_decimal(7, 0), "");
}
