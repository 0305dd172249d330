//! Validation of the two enumerated fields of an observation record.
//!
//! A record is accepted only when its `municipality` is one of four fixed
//! names and its `weather` is one of four fixed conditions, both compared
//! case-sensitively.

use vstd::prelude::*;
use vstd::string::StrSliceExecFns;

verus! {

/// The municipalities the service accepts, as a predicate on character
/// sequences.
pub open spec fn valid_municipality(s: Seq<char>) -> bool {
    s == "mixco"@ || s == "guatemala"@ || s == "amatitlan"@ || s == "chinautla"@
}

/// The weather conditions the service accepts, as a predicate on character
/// sequences.
pub open spec fn valid_weather(s: Seq<char>) -> bool {
    s == "sunny"@ || s == "cloudy"@ || s == "rainy"@ || s == "foggy"@
}

/// Character-wise string equality: returns exactly whether the two views are
/// the same sequence of characters.
pub fn str_eq(a: &str, b: &str) -> (r: bool)
    ensures
        r == (a@ == b@),
{
    let alen = a.unicode_len();
    let blen = b.unicode_len();
    if alen != blen {
        return false;
    }
    let mut i: usize = 0;
    while i < alen
        invariant
            alen == a@.len(),
            blen == b@.len(),
            alen == blen,
            i <= alen,
            forall|j: int| 0 <= j < i ==> a@[j] == b@[j],
        decreases alen - i,
    {
        if a.get_char(i) != b.get_char(i) {
            return false;
        }
        i = i + 1;
    }
    proof {
        assert(a@ =~= b@);
    }
    true
}

/// Decides membership in the fixed municipality set, case-sensitively.
pub fn is_valid_municipality(s: &str) -> (r: bool)
    ensures
        r == valid_municipality(s@),
{
    str_eq(s, "mixco") || str_eq(s, "guatemala") || str_eq(s, "amatitlan") || str_eq(
        s,
        "chinautla",
    )
}

/// Decides membership in the fixed weather set, case-sensitively.
pub fn is_valid_weather(s: &str) -> (r: bool)
    ensures
        r == valid_weather(s@),
{
    str_eq(s, "sunny") || str_eq(s, "cloudy") || str_eq(s, "rainy") || str_eq(s, "foggy")
}

} // verus!
