//! Validation of the configuration values the bootstrap hands the core:
//! address format and the dispatch timeout.

use vstd::prelude::*;
use vstd::string::StrSliceExecFns;
use vstd::string::StringExecFns;

verus! {

/// An address-like flag must look like HOST:PORT: it is accepted exactly
/// when it contains a colon.
pub fn validate_format(v: String) -> (r: Result<(), String>)
    ensures
        (r is Ok) == v@.contains(':'),
        r matches Err(m) ==> m@ == "Format must be IP:PORT"@,
{
    let s = v.as_str();
    let n = s.unicode_len();
    let mut i: usize = 0;
    while i < n
        invariant
            n == v@.len(),
            s@ == v@,
            0 <= i <= n,
            forall|k: int| 0 <= k < i ==> v@[k] != ':',
        decreases n - i,
    {
        if s.get_char(i) == ':' {
            proof {
                assert(v@.contains(':')) by {
                    assert(v@[i as int] == ':');
                }
            }
            return Ok(());
        }
        i = i + 1;
    }
    proof {
        if v@.contains(':') {
            let k = choose|k: int| 0 <= k < v@.len() && v@[k] == ':';
            assert(v@[k] != ':');
        }
    }
    Err(String::from_str("Format must be IP:PORT"))
}

/// The dispatch timeout in seconds: the configured value, or 60 when the
/// operator gave none.
pub fn timeout_or_default(configured: Option<u32>) -> (t: u32)
    ensures
        configured matches Some(v) ==> t == v,
        configured is None ==> t == 60,
{
    match configured {
        Some(v) => v,
        None => 60,
    }
}

} // verus!
