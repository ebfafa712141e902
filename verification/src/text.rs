use vstd::prelude::*;
use vstd::string::StringExecFns;

verus! {

/// Joins two pieces of text into one owned string, the first followed by
/// the second.
pub fn joined(first: &str, second: &str) -> (s: String)
    ensures
        s@ == first@ + second@,
{
    let mut s = String::from_str(first);
    s.append(second);
    s
}

} // verus!
