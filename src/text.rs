//! Reading the sign off a numeral.
use vstd::prelude::*;
use vstd::string::StrSliceExecFns;

verus! {

/// A leading `-` makes a numeral negative and is taken off; any other text
/// is positive and kept whole.
pub open spec fn sign_split(s: Seq<char>) -> (bool, Seq<char>) {
    if s.len() > 0 && s[0] == '-' {
        (false, s.drop_first())
    } else {
        (true, s)
    }
}

/// Splits a numeral into its sign (`true` for positive) and the digits
/// after it. The empty string is positive and empty.
pub fn split_sign(s: &str) -> (r: (bool, &str))
    ensures
        (r.0, r.1@) == sign_split(s@),
{
    let n = s.unicode_len();
    if n > 0 && s.get_char(0) == '-' {
        (false, s.substring_char(1, n))
    } else {
        (true, s)
    }
}

} // verus!
