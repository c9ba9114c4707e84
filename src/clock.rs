use rand::Rng;
use vstd::prelude::*;

verus! {

/// The character of a decimal digit `d < 10`.
pub open spec fn digit_char(d: nat) -> char {
    if d == 0 { '0' } else if d == 1 { '1' } else if d == 2 { '2' } else if d == 3 { '3' }
    else if d == 4 { '4' } else if d == 5 { '5' } else if d == 6 { '6' } else if d == 7 { '7' }
    else if d == 8 { '8' } else { '9' }
}

/// Decimal digits of `n`, most significant first, without leading zeros.
pub open spec fn decimal_digits(n: nat) -> Seq<char>
    decreases n,
{
    if n < 10 {
        seq![digit_char(n)]
    } else {
        decimal_digits(n / 10).push(digit_char(n % 10))
    }
}

/// Decimal form of an integer, with a leading '-' when it is negative.
pub open spec fn decimal(i: int) -> Seq<char> {
    if i < 0 {
        seq!['-'] + decimal_digits((-i) as nat)
    } else {
        decimal_digits(i as nat)
    }
}

/// Name of the temporary file that receives a snapshot whose transfer began at
/// `start_time`, told apart from others of the same second by `nonce`.
pub open spec fn archive_file_name(start_time: int, nonce: int) -> Seq<char> {
    seq!['t', 'x', 'h', 'a', 's', 'h', 's', 'e', 't', '-'] + decimal(start_time) + seq!['-']
        + decimal(nonce) + seq!['.', 'z', 'i', 'p']
}

/// Relies on std's `ToString` through the `Display` of `i64`, which writes
/// an integer in decimal, with a leading '-' when it is negative.
#[verifier::external_body]
fn i64_to_decimal(x: i64) -> (r: String)
    ensures
        r@ == decimal(x as int),
{
    x.to_string()
}

/// Relies on std's `ToString` through the `Display` of `u32`, which writes
/// an integer in decimal.
#[verifier::external_body]
fn u32_to_decimal(x: u32) -> (r: String)
    ensures
        r@ == decimal(x as int),
{
    x.to_string()
}

/// The name of the temporary file for a transfer begun at `start_time`.
pub fn archive_file_name_of(start_time: i64, nonce: u32) -> (r: String)
    ensures
        r@ == archive_file_name(start_time as int, nonce as int),
{
    let mut name = String::from_str("txhashset-");
    let time = i64_to_decimal(start_time);
    name.append(time.as_str());
    name.append("-");
    let n = u32_to_decimal(nonce);
    name.append(n.as_str());
    name.append(".zip");
    proof {
        reveal_strlit("txhashset-");
        reveal_strlit("-");
        reveal_strlit(".zip");
        assert(name@ =~= archive_file_name(start_time as int, nonce as int));
    }
    name
}

/// Relies on chrono's `Utc::now` and `DateTime::timestamp`: the current time,
/// in whole seconds since the Unix epoch. Nothing is known of its value.
#[verifier::external_body]
pub(crate) fn now_timestamp() -> (r: i64) {
    chrono::Utc::now().timestamp()
}

/// Relies on rand's `thread_rng` and `Rng::gen_range`, which draws from the
/// half-open range `[low, high)` and panics when it is empty.
#[verifier::external_body]
pub(crate) fn random_below(high: u32) -> (r: u32)
    requires
        0 < high,
    ensures
        r < high,
{
    rand::thread_rng().gen_range(0, high)
}

} // verus!
