//! Zero-padded decimal rendering of a password code.
use vstd::arithmetic::div_mod::{lemma_div_denominator, lemma_small_mod};
use vstd::prelude::*;
use vstd::string::StringExecFns;

verus! {

pub open spec fn pow10(d: nat) -> nat
    decreases d,
{
    if d == 0 {
        1
    } else {
        10 * pow10((d - 1) as nat)
    }
}

/// The character of the decimal digit `d`.
pub open spec fn digit_char(d: nat) -> char {
    seq!['0', '1', '2', '3', '4', '5', '6', '7', '8', '9'][d as int]
}

pub open spec fn is_digit(c: char) -> bool {
    '0' <= c && c <= '9'
}

/// The last `width` decimal digits of `code`, most significant first: for a
/// code below `10^width`, its decimal form left-padded with `'0'`.
pub open spec fn render(code: nat, width: nat) -> Seq<char> {
    Seq::new(width, |i: int| digit_char((code / pow10((width - 1 - i) as nat)) % 10))
}

pub proof fn lemma_pow10_positive(d: nat)
    ensures
        pow10(d) >= 1,
    decreases d,
{
    if d > 0 {
        lemma_pow10_positive((d - 1) as nat);
    }
}

pub proof fn lemma_pow10_monotonic(a: nat, b: nat)
    requires
        a <= b,
    ensures
        pow10(a) <= pow10(b),
    decreases b,
{
    if a < b {
        lemma_pow10_monotonic(a, (b - 1) as nat);
        lemma_pow10_positive((b - 1) as nat);
    }
}

/// Below `10^width` nothing is lost: a code under `10^10` keeps its value
/// modulo `10^width` for every width of at least 10.
pub proof fn lemma_mod_pow10_wide(v: nat, width: nat)
    requires
        v < 10_000_000_000,
        width >= 10,
    ensures
        v % pow10(width) == v,
{
    reveal_with_fuel(pow10, 11);
    assert(pow10(10) == 10_000_000_000);
    lemma_pow10_monotonic(10, width);
    lemma_small_mod(v, pow10(width));
}

/// Every character of a rendering is a decimal digit.
pub proof fn lemma_render_digits(code: nat, width: nat)
    ensures
        render(code, width).len() == width,
        forall|i: int| 0 <= i < width ==> is_digit(#[trigger] render(code, width)[i]),
{
    assert forall|i: int| 0 <= i < width implies is_digit(#[trigger] render(code, width)[i]) by {
        let d = (code / pow10((width - 1 - i) as nat)) % 10;
        assert(0 <= d < 10);
        assert(is_digit(digit_char(d)));
    }
}

/// `10^d` for a small `d`.
pub fn pow10_u32(d: u8) -> (r: u32)
    requires
        d <= 9,
    ensures
        r as nat == pow10(d as nat),
{
    let mut r: u32 = 1;
    let mut i: u8 = 0;
    while i < d
        invariant
            i <= d <= 9,
            r as nat == pow10(i as nat),
            r <= 1_000_000_000,
        decreases d - i,
    {
        proof {
            lemma_pow10_monotonic((i + 1) as nat, 9);
            reveal_with_fuel(pow10, 10);
            assert(pow10(9) == 1_000_000_000);
        }
        r = r * 10;
        i = i + 1;
    }
    r
}

/// The string of one decimal digit.
fn digit_str(d: u8) -> (r: &'static str)
    requires
        d < 10,
    ensures
        r@ == seq![digit_char(d as nat)],
{
    proof {
        reveal_strlit("0");
        reveal_strlit("1");
        reveal_strlit("2");
        reveal_strlit("3");
        reveal_strlit("4");
        reveal_strlit("5");
        reveal_strlit("6");
        reveal_strlit("7");
        reveal_strlit("8");
        reveal_strlit("9");
    }
    let r = match d {
        0 => "0",
        1 => "1",
        2 => "2",
        3 => "3",
        4 => "4",
        5 => "5",
        6 => "6",
        7 => "7",
        8 => "8",
        _ => "9",
    };
    assert(r@ =~= seq![digit_char(d as nat)]);
    r
}

/// Renders `code` as exactly `width` decimal digits, left-padded with `'0'`.
pub fn render_decimal(code: u32, width: u8) -> (r: String)
    ensures
        r@ == render(code as nat, width as nat),
{
    // the digits from the least significant one up
    let mut low_first: Vec<u8> = Vec::new();
    let mut rest: u32 = code;
    let mut j: u8 = 0;
    assert(pow10(0) == 1);
    while j < width
        invariant
            j <= width,
            low_first@.len() == j,
            rest as nat == code as nat / pow10(j as nat),
            forall|t: int|
                0 <= t < j ==> #[trigger] low_first@[t] as nat == (code as nat / pow10(t as nat))
                    % 10,
        decreases width - j,
    {
        proof {
            lemma_pow10_positive(j as nat);
            lemma_div_denominator(code as int, pow10(j as nat) as int, 10);
            assert(pow10((j + 1) as nat) == pow10(j as nat) * 10);
        }
        low_first.push((rest % 10) as u8);
        rest = rest / 10;
        j = j + 1;
    }
    let mut r = String::new();
    let mut i: usize = width as usize;
    while i > 0
        invariant
            i <= width,
            low_first@.len() == width,
            forall|t: int|
                0 <= t < width ==> #[trigger] low_first@[t] as nat == (code as nat / pow10(t as nat))
                    % 10,
            r@ =~= render(code as nat, width as nat).subrange(0, width - i),
        decreases i,
    {
        i = i - 1;
        let d = low_first[i];
        r.append(digit_str(d));
        assert(r@ =~= render(code as nat, width as nat).subrange(0, width - i));
    }
    assert(r@ =~= render(code as nat, width as nat));
    r
}

} // verus!
