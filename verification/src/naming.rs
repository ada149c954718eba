//! Detection of unnamed registers from the engine's name lookup.
//!
//! The engine answers a name query with a statically allocated string; a
//! register that does not exist is reported through one sentinel string,
//! not through a numeric range, because register numbering is
//! target-specific.  Comparing against that sentinel is therefore the only
//! valid way to detect an unnamed register.

use vstd::prelude::*;

verus! {

/// The string with which the engine's name lookup answers a query for a
/// register that does not exist.
pub open spec fn unknown_register_sentinel() -> Seq<char> {
    "unknown register"@
}

/// Turns the engine's answer to a register-name query into the query's
/// result: `None` exactly when the engine reported the sentinel string for
/// an unknown register, otherwise the reported name unchanged.
pub fn register_name_lookup<'a>(raw: &'a str) -> (r: Option<&'a str>)
    ensures
        r is None <==> raw@ == unknown_register_sentinel(),
        r matches Some(s) ==> s@ == raw@,
{
    let sentinel: &str = "unknown register";
    let n = raw.unicode_len();
    if n != sentinel.unicode_len() {
        return Some(raw);
    }
    let mut i: usize = 0;
    while i < n
        invariant
            n == raw@.len(),
            n == sentinel@.len(),
            sentinel@ == unknown_register_sentinel(),
            0 <= i <= n,
            forall|j: int| 0 <= j < i ==> raw@[j] == sentinel@[j],
        decreases n - i,
    {
        if raw.get_char(i) != sentinel.get_char(i) {
            return Some(raw);
        }
        i = i + 1;
    }
    proof {
        assert(raw@ =~= unknown_register_sentinel());
    }
    None
}

} // verus!
