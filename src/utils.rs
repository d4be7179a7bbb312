//! Random element names, decimal text and wall-clock readings.
use vstd::prelude::*;
use vstd::string::*;

verus! {

/// An ASCII letter or digit, the alphabet of generated names.
pub open spec fn is_alphanumeric(c: char) -> bool {
    ('a' <= c && c <= 'z') || ('A' <= c && c <= 'Z') || ('0' <= c && c <= '9')
}

/// Length of the random part of a generated name.
pub const RANDOM_SUFFIX_LEN: usize = 16;

/// Relies on rand's `Alphanumeric` distribution sampled through
/// `DistString::sample_string` with the thread-local generator: `len`
/// characters, each drawn from `A-Z`, `a-z`, `0-9`.
#[verifier::external_body]
fn random_alphanumeric(len: usize) -> (r: String)
    ensures
        r@.len() == len,
        forall|i: int| 0 <= i < r@.len() ==> is_alphanumeric(#[trigger] r@[i]),
{
    rand::distributions::DistString::sample_string(
        &rand::distributions::Alphanumeric,
        &mut rand::thread_rng(),
        len,
    )
}

/// A fresh name `<prefix>-<16 random letters or digits>`, so that elements of
/// concurrent graphs never collide by name.
pub fn random_string(prefix: &str) -> (r: String)
    ensures
        r@.len() == prefix@.len() + 1 + RANDOM_SUFFIX_LEN,
        r@.subrange(0, prefix@.len() as int) == prefix@,
        r@[prefix@.len() as int] == '-',
        forall|i: int| prefix@.len() < i < r@.len() ==> is_alphanumeric(#[trigger] r@[i]),
{
    let suffix = random_alphanumeric(RANDOM_SUFFIX_LEN);
    let mut out = String::from_str(prefix);
    out.append("-");
    proof {
        reveal_strlit("-");
    }
    out.append(suffix.as_str());
    assert(out@.subrange(0, prefix@.len() as int) =~= prefix@);
    assert forall|i: int| prefix@.len() < i < out@.len() implies is_alphanumeric(#[trigger] out@[i]) by {
        assert(out@[i] == suffix@[i - prefix@.len() - 1]);
    }
    out
}

/// The decimal digit character for `d < 10`.
pub open spec fn digit_char(d: nat) -> char {
    if d == 0 { '0' } else if d == 1 { '1' } else if d == 2 { '2' } else if d == 3 { '3' }
    else if d == 4 { '4' } else if d == 5 { '5' } else if d == 6 { '6' } else if d == 7 { '7' }
    else if d == 8 { '8' } else { '9' }
}

/// Decimal text of a natural number, without leading zeros.
pub open spec fn decimal(n: nat) -> Seq<char>
    decreases n,
{
    if n < 10 {
        seq![digit_char(n)]
    } else {
        decimal(n / 10).push(digit_char(n % 10))
    }
}

/// Decimal text of an integer, with a leading `-` when negative.
pub open spec fn signed_decimal(n: int) -> Seq<char> {
    if n < 0 { seq!['-'] + decimal((-n) as nat) } else { decimal(n as nat) }
}

/// Relies on std's `Display` for `i64` (through `ToString`): plain decimal
/// digits, with `-` in front of a negative value.
#[verifier::external_body]
pub(crate) fn int_text(n: i64) -> (r: String)
    ensures
        r@ == signed_decimal(n as int),
{
    n.to_string()
}

/// Relies on `SystemTime::elapsed` on `UNIX_EPOCH`: the time since the epoch,
/// in nanoseconds, or `None` when the clock stands before the epoch.
#[verifier::external_body]
fn nanos_since_epoch() -> (r: Option<u128>) {
    std::time::UNIX_EPOCH.elapsed().ok().map(|d| d.as_nanos())
}

/// The nanosecond count kept for a reading: its low 64 bits as `i64`, and 0
/// for a clock before the epoch.
pub fn nanos_to_timestamp(reading: Option<u128>) -> (r: i64)
    ensures
        r == match reading {
            Some(n) => n as i64,
            None => 0i64,
        },
{
    match reading {
        Some(n) => n as i64,
        None => 0,
    }
}

/// Wall-clock time in nanoseconds since the Unix epoch, 0 when the clock
/// stands before the epoch.
pub fn system_time_nanos() -> (r: i64) {
    nanos_to_timestamp(nanos_since_epoch())
}

} // verus!
