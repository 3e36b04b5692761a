//! Building texts from their parts.

use vstd::prelude::*;
use vstd::string::StringExecFns;

verus! {

/// The three texts one after the other.
pub fn join3(first: &str, second: &str, third: &str) -> (joined: String)
    ensures
        joined@ == first@ + second@ + third@,
{
    let mut joined = first.to_owned();
    joined.append(second);
    joined.append(third);
    joined
}

} // verus!
