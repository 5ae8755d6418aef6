//! Where a model's files lie: `location/version/filename`.

use vstd::prelude::*;
use vstd::string::StringExecFns;

verus! {

/// The character of a decimal digit.
pub open spec fn digit_char(d: nat) -> char {
    seq!['0', '1', '2', '3', '4', '5', '6', '7', '8', '9'][d as int]
}

/// `n` written in decimal, without leading zeros.
pub open spec fn decimal(n: nat) -> Seq<char>
    decreases n,
{
    if n < 10 {
        seq![digit_char(n)]
    } else {
        decimal(n / 10).push(digit_char(n % 10))
    }
}

/// Relies on `u64::to_string`, which writes an integer in decimal.
#[verifier::external_body]
fn decimal_string(v: u64) -> (r: String)
    ensures
        r@ == decimal(v as nat),
{
    v.to_string()
}

/// The path of `filename` under a model's repository and version.
pub open spec fn path_of(location: Seq<char>, version: u64, filename: Seq<char>) -> Seq<char> {
    location + seq!['/'] + decimal(version as nat) + seq!['/'] + filename
}

/// Joins a model's repository location, its version and a file name.
pub fn model_path(location: &str, version: u64, filename: &str) -> (r: String)
    ensures
        r@ == path_of(location@, version, filename@),
{
    let digits = decimal_string(version);
    let mut path = String::from_str(location);
    path.append("/");
    path.append(digits.as_str());
    path.append("/");
    path.append(filename);
    proof {
        reveal_strlit("/");
    }
    path
}

} // verus!
