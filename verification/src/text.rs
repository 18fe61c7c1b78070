//! Small verified helpers for building and comparing strings.

use vstd::prelude::*;
use vstd::string::StrSliceExecFns;
use vstd::string::StringExecFns;

verus! {

/// The views of a sequence of strings.
pub open spec fn seq_views(v: Seq<String>) -> Seq<Seq<char>> {
    v.map_values(|s: String| s@)
}

/// Relies on `String::push`: appends exactly one character at the end.
#[verifier::external_body]
pub fn push_char(s: &mut String, c: char)
    ensures
        final(s)@ == old(s)@.push(c),
{
    s.push(c);
}

/// String-slice equality with a contract over the views.
pub fn str_eq(a: &str, b: &str) -> (r: bool)
    ensures
        r == (a@ == b@),
{
    let sa = String::from_str(a);
    let sb = String::from_str(b);
    sa == sb
}

/// `true` / `false`, the way boolean record fields are printed.
pub fn bool_str(b: bool) -> (r: &'static str)
    ensures
        b ==> r@ == "true"@,
        !b ==> r@ == "false"@,
{
    if b {
        "true"
    } else {
        "false"
    }
}

} // verus!
