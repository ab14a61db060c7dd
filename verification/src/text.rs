//! Small verified string helpers: equality and label building.

use vstd::prelude::*;
use vstd::string::{StrSliceExecFns, StringExecFns};

verus! {

/// Character-for-character string equality.
pub fn str_eq(a: &str, b: &str) -> (r: bool)
    ensures
        r == (a@ == b@),
{
    let alen = a.unicode_len();
    let blen = b.unicode_len();
    if alen != blen {
        return false;
    }
    let mut i: usize = 0;
    while i < alen
        invariant
            i <= alen,
            alen == a@.len(),
            blen == b@.len(),
            alen == blen,
            forall|j: int| 0 <= j < i ==> a@[j] == b@[j],
        decreases alen - i,
    {
        let ca = a.get_char(i);
        let cb = b.get_char(i);
        if ca != cb {
            assert(a@[i as int] != b@[i as int]);
            return false;
        }
        i = i + 1;
    }
    proof {
        assert(a@ =~= b@);
    }
    true
}

/// The label of a token pair: the monitored symbol, a slash, the reference
/// symbol.
pub open spec fn spec_pair_label(token_symbol: Seq<char>, reference_symbol: Seq<char>) -> Seq<
    char,
> {
    token_symbol + "/"@ + reference_symbol
}

/// Builds the `"<token>/<reference>"` pair label.
pub fn pair_label(token_symbol: &str, reference_symbol: &str) -> (r: String)
    ensures
        r@ == spec_pair_label(token_symbol@, reference_symbol@),
{
    let mut s = String::from_str(token_symbol);
    s.append("/");
    s.append(reference_symbol);
    s
}

} // verus!
