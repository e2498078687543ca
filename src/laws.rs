//! Properties of generation and verification, stated over the models that the
//! functions' contracts use, and proved.
use crate::custom::{
    hotp_result, hotp_scan, otp_spec, totp_result, totp_scan, window_counter, window_end, window_start,
};
use crate::decimal::{is_digit, lemma_render_digits};
use crate::error::ThotpError;
use crate::hash::KeyedHash;
use crate::truncate::be_bytes;
use vstd::prelude::*;

verus! {

/// The password at moving factor `n` can be generated and differs from `password`.
pub open spec fn yields_other<H: KeyedHash>(
    secret: Seq<u8>,
    n: u64,
    digits: u8,
    password: Seq<char>,
) -> bool {
    match otp_spec::<H>(secret, n, digits) {
        Ok(q) => q != password,
        Err(_) => false,
    }
}

/// A password of `digits` digits, for `digits` from 1 to 10, is generated
/// whenever the keyed hash can be computed, and is exactly `digits` decimal
/// digits long.
pub proof fn law_password_shape<H: KeyedHash>(secret: Seq<u8>, n: u64, digits: u8)
    requires
        1 <= digits <= 10,
    ensures
        H::mac_spec(secret, be_bytes(n)) is Some ==> otp_spec::<H>(secret, n, digits) is Ok,
        otp_spec::<H>(secret, n, digits) matches Ok(p) ==> p.len() == digits && forall|i: int|
            0 <= i < p.len() ==> is_digit(#[trigger] p[i]),
{
    if let Some(h) = H::mac_spec(secret, be_bytes(n)) {
        lemma_render_digits(
            crate::truncate::truncated(h) % crate::decimal::pow10(digits as nat),
            digits as nat,
        );
    }
}

/// Generation is deterministic: equal secrets, moving factors, digit counts
/// and hashes give equal outcomes.
pub proof fn law_generate_deterministic<H: KeyedHash>(
    secret1: Seq<u8>,
    secret2: Seq<u8>,
    n: u64,
    digits: u8,
)
    requires
        secret1 == secret2,
    ensures
        otp_spec::<H>(secret1, n, digits) == otp_spec::<H>(secret2, n, digits),
{
}

/// HOTP verification of the password generated at the stored counter `c`
/// succeeds for every lookahead, and moves the counter to `c + 1`.
pub proof fn law_hotp_accepts_current<H: KeyedHash>(
    secret: Seq<u8>,
    c: u64,
    lookahead: nat,
    digits: u8,
)
    requires
        otp_spec::<H>(secret, c, digits) is Ok,
    ensures
        hotp_result::<H>(otp_spec::<H>(secret, c, digits)->Ok_0, secret, c, lookahead, digits)
            == Ok::<(bool, u64), ThotpError>((true, window_counter(c, 1))),
{
    assert(window_counter(c, 0) == c);
}

proof fn lemma_hotp_scan_finds<H: KeyedHash>(
    password: Seq<char>,
    secret: Seq<u8>,
    counter: u64,
    i: nat,
    k: nat,
    lookahead: nat,
    digits: u8,
)
    requires
        i <= k <= lookahead,
        otp_spec::<H>(secret, window_counter(counter, k), digits) == Ok::<Seq<char>, ThotpError>(
            password,
        ),
        forall|j: nat|
            j < k ==> #[trigger] yields_other::<H>(secret, window_counter(counter, j), digits, password),
    ensures
        hotp_scan::<H>(password, secret, counter, i, lookahead, digits) == Ok::<
            (bool, u64),
            ThotpError,
        >((true, window_counter(counter, k + 1))),
    decreases k - i,
{
    if i < k {
        lemma_hotp_scan_finds::<H>(password, secret, counter, i + 1, k, lookahead, digits);
        assert(yields_other::<H>(secret, window_counter(counter, i), digits, password));
    }
}

/// HOTP verification of the password generated at `counter + k`, with `k`
/// within the lookahead, succeeds and moves the counter to `counter + k + 1`
/// (wrapping past `u64::MAX`), where every earlier counter of the window gives
/// a different password.
pub proof fn law_hotp_accepts_within_window<H: KeyedHash>(
    secret: Seq<u8>,
    counter: u64,
    k: nat,
    lookahead: nat,
    digits: u8,
)
    requires
        k <= lookahead,
        otp_spec::<H>(secret, window_counter(counter, k), digits) is Ok,
        forall|j: nat|
            j < k ==> #[trigger] yields_other::<H>(secret, window_counter(counter, j), digits, otp_spec::<H>(secret, window_counter(counter, k), digits)->Ok_0),
    ensures
        hotp_result::<H>(
            otp_spec::<H>(secret, window_counter(counter, k), digits)->Ok_0,
            secret,
            counter,
            lookahead,
            digits,
        ) == Ok::<(bool, u64), ThotpError>((true, window_counter(counter, k + 1))),
{
    let p = otp_spec::<H>(secret, window_counter(counter, k), digits)->Ok_0;
    lemma_hotp_scan_finds::<H>(p, secret, counter, 0, k, lookahead, digits);
}

proof fn lemma_hotp_scan_misses<H: KeyedHash>(
    password: Seq<char>,
    secret: Seq<u8>,
    counter: u64,
    i: nat,
    lookahead: nat,
    digits: u8,
)
    requires
        i <= lookahead + 1,
        forall|j: nat|
            j <= lookahead ==> #[trigger] yields_other::<H>(secret, window_counter(counter, j), digits, password),
    ensures
        hotp_scan::<H>(password, secret, counter, i, lookahead, digits) == Ok::<
            (bool, u64),
            ThotpError,
        >((false, counter)),
    decreases lookahead + 1 - i,
{
    if i <= lookahead {
        lemma_hotp_scan_misses::<H>(password, secret, counter, i + 1, lookahead, digits);
        assert(yields_other::<H>(secret, window_counter(counter, i), digits, password));
    }
}

/// HOTP verification of the password generated at `counter + lookahead + 1`,
/// just past the window, fails and leaves the counter as it was, where every
/// counter of the window gives a different password.
pub proof fn law_hotp_rejects_past_window<H: KeyedHash>(
    secret: Seq<u8>,
    counter: u64,
    lookahead: nat,
    digits: u8,
)
    requires
        otp_spec::<H>(secret, window_counter(counter, lookahead + 1), digits) is Ok,
        forall|j: nat|
            j <= lookahead ==> #[trigger] yields_other::<H>(secret, window_counter(counter, j), digits, otp_spec::<H>(secret, window_counter(counter, lookahead + 1), digits)->Ok_0),
    ensures
        hotp_result::<H>(
            otp_spec::<H>(secret, window_counter(counter, lookahead + 1), digits)->Ok_0,
            secret,
            counter,
            lookahead,
            digits,
        ) == Ok::<(bool, u64), ThotpError>((false, counter)),
{
    let p = otp_spec::<H>(secret, window_counter(counter, lookahead + 1), digits)->Ok_0;
    lemma_hotp_scan_misses::<H>(p, secret, counter, 0, lookahead, digits);
}

/// TOTP verification with no drift of the password generated at the time
/// step of `timestamp` succeeds with offset 0.
pub proof fn law_totp_accepts_current<H: KeyedHash>(
    secret: Seq<u8>,
    timestamp: u64,
    step: u8,
    digits: u8,
)
    requires
        step > 0,
        otp_spec::<H>(secret, timestamp / step as u64, digits) is Ok,
    ensures
        totp_result::<H>(
            otp_spec::<H>(secret, timestamp / step as u64, digits)->Ok_0,
            secret,
            timestamp / step as u64,
            0,
            digits,
        ) == Ok::<(bool, i16), ThotpError>((true, 0)),
{
    let nonce = timestamp / step as u64;
    assert(window_start(nonce, 0) == nonce);
    assert(window_end(nonce, 0) == nonce);
}

proof fn lemma_hotp_scan_ok<H: KeyedHash>(
    password: Seq<char>,
    secret: Seq<u8>,
    counter: u64,
    i: nat,
    lookahead: nat,
    digits: u8,
)
    requires
        digits >= 1,
        forall|j: nat|
            j <= lookahead ==> (#[trigger] H::mac_spec(
                secret,
                be_bytes(window_counter(counter, j)),
            )) is Some,
    ensures
        hotp_scan::<H>(password, secret, counter, i, lookahead, digits) is Ok,
    decreases lookahead + 1 - i,
{
    if i <= lookahead {
        assert(H::mac_spec(secret, be_bytes(window_counter(counter, i))) is Some);
        lemma_hotp_scan_ok::<H>(password, secret, counter, i + 1, lookahead, digits);
    }
}

/// HOTP verification fails with an error only where a password of its window
/// cannot be generated: with at least one digit, and a keyed hash that gives a
/// tag for every counter of the window, it returns `Ok`.
pub proof fn law_hotp_succeeds<H: KeyedHash>(
    password: Seq<char>,
    secret: Seq<u8>,
    counter: u64,
    lookahead: nat,
    digits: u8,
)
    requires
        digits >= 1,
        forall|j: nat|
            j <= lookahead ==> (#[trigger] H::mac_spec(
                secret,
                be_bytes(window_counter(counter, j)),
            )) is Some,
    ensures
        hotp_result::<H>(password, secret, counter, lookahead, digits) is Ok,
{
    lemma_hotp_scan_ok::<H>(password, secret, counter, 0, lookahead, digits);
}

proof fn lemma_totp_scan_ok<H: KeyedHash>(
    password: Seq<char>,
    secret: Seq<u8>,
    nonce: u64,
    n: int,
    end: int,
    digits: u8,
)
    requires
        digits >= 1,
        0 <= n,
        end <= u64::MAX,
        forall|m: int| n <= m <= end ==> (#[trigger] H::mac_spec(secret, be_bytes(m as u64))) is Some,
    ensures
        totp_scan::<H>(password, secret, nonce, n, end, digits) is Ok,
    decreases end + 1 - n,
{
    if n <= end {
        assert(H::mac_spec(secret, be_bytes(n as u64)) is Some);
        lemma_totp_scan_ok::<H>(password, secret, nonce, n + 1, end, digits);
    }
}

/// TOTP verification fails with an error only where a password of its window
/// cannot be generated: with at least one digit, and a keyed hash that gives a
/// tag for every time step of the window, it returns `Ok`.
pub proof fn law_totp_succeeds<H: KeyedHash>(
    password: Seq<char>,
    secret: Seq<u8>,
    nonce: u64,
    drift: nat,
    digits: u8,
)
    requires
        digits >= 1,
        forall|m: int|
            window_start(nonce, drift) <= m <= window_end(nonce, drift) ==> (#[trigger] H::mac_spec(
                secret,
                be_bytes(m as u64),
            )) is Some,
    ensures
        totp_result::<H>(password, secret, nonce, drift, digits) is Ok,
{
    lemma_totp_scan_ok::<H>(
        password,
        secret,
        nonce,
        window_start(nonce, drift),
        window_end(nonce, drift),
        digits,
    );
}

} // verus!
