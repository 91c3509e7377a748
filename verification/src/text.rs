use vstd::prelude::*;

verus! {

/// String-slice equality with a view-level contract, used to dispatch on
/// boundary names (color names, severity names, attachment names).
pub fn str_eq(a: &str, b: &str) -> (r: bool)
    ensures
        r == (a@ == b@),
{
    let sa: String = a.to_owned();
    let sb: String = b.to_owned();
    sa == sb
}

} // verus!
