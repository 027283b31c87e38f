use rand::Rng;
use vstd::prelude::*;
use vstd::string::*;

verus! {

/// The smallest verification code.
pub const CODE_MIN: u32 = 100000;

/// The largest verification code.
pub const CODE_MAX: u32 = 999999;

pub open spec fn digit_text(d: int) -> Seq<char> {
    if d == 0 {
        "0"@
    } else if d == 1 {
        "1"@
    } else if d == 2 {
        "2"@
    } else if d == 3 {
        "3"@
    } else if d == 4 {
        "4"@
    } else if d == 5 {
        "5"@
    } else if d == 6 {
        "6"@
    } else if d == 7 {
        "7"@
    } else if d == 8 {
        "8"@
    } else {
        "9"@
    }
}

/// The decimal digits of `n` from the place `div` down to the units.
pub open spec fn digits_from(n: int, div: int) -> Seq<char>
    decreases div,
{
    if div <= 0 {
        Seq::empty()
    } else {
        digit_text((n / div) % 10) + digits_from(n, div / 10)
    }
}

/// A verification code as text: six decimal digits.
pub open spec fn code_text(n: int) -> Seq<char> {
    digits_from(n, 100000)
}

fn digit_str(d: u32) -> (r: &'static str)
    requires
        d < 10,
    ensures
        r@ == digit_text(d as int),
{
    if d == 0 {
        "0"
    } else if d == 1 {
        "1"
    } else if d == 2 {
        "2"
    } else if d == 3 {
        "3"
    } else if d == 4 {
        "4"
    } else if d == 5 {
        "5"
    } else if d == 6 {
        "6"
    } else if d == 7 {
        "7"
    } else if d == 8 {
        "8"
    } else {
        "9"
    }
}

/// Writes a code as its six decimal digits.
pub fn format_code(n: u32) -> (r: String)
    ensures
        r@ == code_text(n as int),
{
    let mut s = String::new();
    let mut div: u32 = 100000;
    while div > 0
        invariant
            s@ + digits_from(n as int, div as int) == code_text(n as int),
        decreases div,
    {
        let d = digit_str((n / div) % 10);
        let ghost before = s@;
        s.append(d);
        assert(before + digits_from(n as int, div as int) =~= s@ + digits_from(n as int, (div / 10) as int));
        div = div / 10;
    }
    assert(s@ + digits_from(n as int, 0) =~= s@);
    s
}

/// Relies on `rand::thread_rng` and `Rng::gen_range` over an inclusive
/// range: the value drawn lies in the range.
#[verifier::external_body]
fn random_between(low: u32, high: u32) -> (r: u32)
    requires
        low <= high,
    ensures
        low <= r <= high,
{
    rand::thread_rng().gen_range(low..=high)
}

/// Draws a verification code uniformly from the six-digit range.
pub fn generate_verification_code() -> (r: String)
    ensures
        exists|n: int| CODE_MIN <= n <= CODE_MAX && r@ == code_text(n),
{
    let n = random_between(CODE_MIN, CODE_MAX);
    format_code(n)
}

/// Relies on `uuid::Uuid::new_v4` and its hyphenated text form: a fresh
/// random identifier on every call.
#[verifier::external_body]
pub(crate) fn random_uuid_text() -> String {
    uuid::Uuid::new_v4().to_string()
}

} // verus!
