//! Generation of one-time passwords and their verification against a window
//! of counters (HOTP) or of time steps (TOTP), over a chosen keyed hash.
use crate::clock::since_epoch;
use crate::decimal::{lemma_mod_pow10_wide, lemma_pow10_positive, pow10, pow10_u32, render, render_decimal};
use crate::error::ThotpError;
use crate::hash::KeyedHash;
use crate::truncate::{be_bytes, counter_bytes, dynamic_trunc, lemma_truncated_bound, truncated};
use vstd::prelude::*;
use vstd::string::StringExecFns;

pub use crate::hash::{Sha1, Sha256, Sha512};

verus! {

/// The password for `secret` at moving factor `n`: the truncated keyed hash of
/// the factor's eight big-endian bytes, modulo `10^digits`, as `digits`
/// decimal digits.
pub open spec fn otp_spec<H: KeyedHash>(secret: Seq<u8>, n: u64, digits: u8) -> Result<
    Seq<char>,
    ThotpError,
> {
    if digits == 0 {
        Err(ThotpError::ConfigError)
    } else {
        match H::mac_spec(secret, be_bytes(n)) {
            Some(h) => Ok(render(truncated(h) % pow10(digits as nat), digits as nat)),
            None => Err(ThotpError::HashError),
        }
    }
}

/// The view of a generation result.
pub open spec fn view_otp(r: Result<String, ThotpError>) -> Result<Seq<char>, ThotpError> {
    match r {
        Ok(s) => Ok(s@),
        Err(e) => Err(e),
    }
}

/// Generates the one-time password for `secret` at moving factor `nonce`,
/// as `digits` decimal digits.
pub fn otp_custom<H: KeyedHash>(secret: &[u8], nonce: u64, digits: u8) -> (r: Result<
    String,
    ThotpError,
>)
    ensures
        view_otp(r) == otp_spec::<H>(secret@, nonce, digits),
{
    if digits == 0 {
        return Err(ThotpError::ConfigError);
    }
    let msg = counter_bytes(nonce);
    let hash = match H::mac(secret, msg.as_slice()) {
        Ok(h) => h,
        Err(e) => return Err(e),
    };
    let v = dynamic_trunc(hash.as_slice());
    proof {
        lemma_truncated_bound(hash@);
    }
    let code: u32 = if digits < 10 {
        let modulus = pow10_u32(digits);
        proof {
            lemma_pow10_positive(digits as nat);
        }
        v % modulus
    } else {
        proof {
            lemma_mod_pow10_wide(v as nat, digits as nat);
        }
        v
    };
    Ok(render_decimal(code, digits))
}

/// The `k`-th counter of a HOTP window that starts at `counter`, wrapping past `u64::MAX`.
pub open spec fn window_counter(counter: u64, k: nat) -> u64 {
    ((counter as nat + k) % 0x1_0000_0000_0000_0000) as u64
}

/// HOTP verification from the `k`-th counter of the window on: the first
/// counter whose password is `password` gives a match and the counter after it;
/// one whose password cannot be generated gives that error.
pub open spec fn hotp_scan<H: KeyedHash>(
    password: Seq<char>,
    secret: Seq<u8>,
    counter: u64,
    k: nat,
    lookahead: nat,
    digits: u8,
) -> Result<(bool, u64), ThotpError>
    decreases lookahead + 1 - k,
{
    if k > lookahead {
        Ok((false, counter))
    } else {
        match otp_spec::<H>(secret, window_counter(counter, k), digits) {
            Err(e) => Err(e),
            Ok(p) => if p == password {
                Ok((true, window_counter(counter, k + 1)))
            } else {
                hotp_scan::<H>(password, secret, counter, k + 1, lookahead, digits)
            },
        }
    }
}

/// The outcome of HOTP verification over the counters `counter ..= counter + lookahead`.
pub open spec fn hotp_result<H: KeyedHash>(
    password: Seq<char>,
    secret: Seq<u8>,
    counter: u64,
    lookahead: nat,
    digits: u8,
) -> Result<(bool, u64), ThotpError> {
    hotp_scan::<H>(password, secret, counter, 0, lookahead, digits)
}

/// Checks `password` against the counters `counter ..= counter + lookahead`,
/// in ascending order. On a match at counter `c` it returns `(true, c + 1)`,
/// else `(false, counter)`.
pub fn verify_hotp_custom<H: KeyedHash>(
    password: &str,
    secret: &[u8],
    counter: u64,
    lookahead: u8,
    digits: u8,
) -> (r: Result<(bool, u64), ThotpError>)
    ensures
        r == hotp_result::<H>(password@, secret@, counter, lookahead as nat, digits),
{
    let expected = String::from_str(password);
    let mut k: u16 = 0;
    while k <= lookahead as u16
        invariant
            k <= lookahead as nat + 1,
            expected@ == password@,
            hotp_result::<H>(password@, secret@, counter, lookahead as nat, digits)
                == hotp_scan::<H>(password@, secret@, counter, k as nat, lookahead as nat, digits),
        decreases lookahead + 1 - k,
    {
        let current = ((counter as u128 + k as u128) % 0x1_0000_0000_0000_0000u128) as u64;
        let pass = match otp_custom::<H>(secret, current, digits) {
            Ok(p) => p,
            Err(e) => return Err(e),
        };
        if pass == expected {
            let next = ((counter as u128 + k as u128 + 1) % 0x1_0000_0000_0000_0000u128) as u64;
            return Ok((true, next));
        }
        k = k + 1;
    }
    Ok((false, counter))
}

/// The first time step of a TOTP window: `nonce - drift`, or 0 near the epoch.
pub open spec fn window_start(nonce: u64, drift: nat) -> int {
    if nonce >= drift {
        nonce - drift
    } else {
        0
    }
}

/// The last time step of a TOTP window: `nonce + drift`, or `u64::MAX`.
pub open spec fn window_end(nonce: u64, drift: nat) -> int {
    if nonce + drift > u64::MAX {
        u64::MAX as int
    } else {
        nonce + drift
    }
}

/// TOTP verification from time step `n` up to `end`: the first step whose
/// password is `password` gives a match and its offset from `nonce`; one whose
/// password cannot be generated gives that error.
pub open spec fn totp_scan<H: KeyedHash>(
    password: Seq<char>,
    secret: Seq<u8>,
    nonce: u64,
    n: int,
    end: int,
    digits: u8,
) -> Result<(bool, i16), ThotpError>
    decreases end + 1 - n,
{
    if n > end {
        Ok((false, 0))
    } else {
        match otp_spec::<H>(secret, n as u64, digits) {
            Err(e) => Err(e),
            Ok(p) => if p == password {
                Ok((true, (n - nonce) as i16))
            } else {
                totp_scan::<H>(password, secret, nonce, n + 1, end, digits)
            },
        }
    }
}

/// The outcome of TOTP verification over the steps `nonce - drift ..= nonce + drift`.
pub open spec fn totp_result<H: KeyedHash>(
    password: Seq<char>,
    secret: Seq<u8>,
    nonce: u64,
    drift: nat,
    digits: u8,
) -> Result<(bool, i16), ThotpError> {
    totp_scan::<H>(password, secret, nonce, window_start(nonce, drift), window_end(nonce, drift), digits)
}

/// Checks `password` against the time steps `nonce - allowed_drift ..= nonce + allowed_drift`
/// (cut at 0 and at `u64::MAX`), in ascending order. On a match at step `n` it
/// returns `(true, n - nonce)`, else `(false, 0)`.
pub fn verify_totp_window<H: KeyedHash>(
    password: &str,
    secret: &[u8],
    nonce: u64,
    digits: u8,
    allowed_drift: u8,
) -> (r: Result<(bool, i16), ThotpError>)
    ensures
        r == totp_result::<H>(password@, secret@, nonce, allowed_drift as nat, digits),
{
    let expected = String::from_str(password);
    let start = nonce.saturating_sub(allowed_drift as u64);
    let end = nonce.saturating_add(allowed_drift as u64);
    let mut n: u64 = start;
    loop
        invariant
            start <= n <= end,
            start == window_start(nonce, allowed_drift as nat),
            end == window_end(nonce, allowed_drift as nat),
            expected@ == password@,
            totp_result::<H>(password@, secret@, nonce, allowed_drift as nat, digits)
                == totp_scan::<H>(password@, secret@, nonce, n as int, end as int, digits),
        decreases end - n,
    {
        let pass = match otp_custom::<H>(secret, n, digits) {
            Ok(p) => p,
            Err(e) => return Err(e),
        };
        if pass == expected {
            let offset: i16 = if n >= nonce {
                (n - nonce) as i16
            } else {
                -((nonce - n) as i16)
            };
            return Ok((true, offset));
        }
        if n == end {
            assert(totp_scan::<H>(password@, secret@, nonce, n + 1, end as int, digits) == Ok::<
                (bool, i16),
                ThotpError,
            >((false, 0)));
            return Ok((false, 0));
        }
        n = n + 1;
    }
}

/// Verifies `password` for the time `timestamp` (seconds since the epoch; 0
/// reads the system clock), in steps of `step` seconds, against the steps
/// within `allowed_drift` of the current one. Returns whether one matched and
/// its offset in steps from the current one.
pub fn verify_totp_custom<H: KeyedHash>(
    password: &str,
    secret: &[u8],
    timestamp: u64,
    digits: u8,
    step: u8,
    allowed_drift: u8,
) -> (r: Result<(bool, i16), ThotpError>)
    ensures
        step == 0 ==> r == Err::<(bool, i16), ThotpError>(ThotpError::ConfigError),
        step != 0 && timestamp != 0 ==> r == totp_result::<H>(
            password@,
            secret@,
            timestamp / step as u64,
            allowed_drift as nat,
            digits,
        ),
        step != 0 && timestamp == 0 ==> r == Err::<(bool, i16), ThotpError>(ThotpError::ClockError)
            || exists|now: u64|
            r == #[trigger] totp_result::<H>(
                password@,
                secret@,
                now / step as u64,
                allowed_drift as nat,
                digits,
            ),
{
    if step == 0 {
        return Err(ThotpError::ConfigError);
    }
    let time = if timestamp == 0 {
        match since_epoch() {
            Ok(d) => d.as_secs(),
            Err(e) => return Err(e),
        }
    } else {
        timestamp
    };
    verify_totp_window::<H>(password, secret, time / step as u64, digits, allowed_drift)
}

} // verus!
