//! Startup configuration: the advertised identity and the `key=value`
//! properties given on the command line.

use vstd::prelude::*;
use vstd::string::{StrSliceExecFns, StringExecFns};

verus! {

/// The configuration both components share: instance name, service name,
/// requested port (0 means an ephemeral one), and key/value properties.
pub struct Config {
    pub instance_name: String,
    pub service_name: String,
    pub port: u16,
    pub properties: Vec<(String, String)>,
}

/// A property argument that could not be parsed: it holds no `=`.
#[derive(Debug)]
pub struct KeyValError {
    pub input: String,
}

impl KeyValError {
    /// A descriptive rendering of the error, naming the offending input.
    pub fn message(&self) -> (r: String)
        ensures
            r@ == "invalid KEY=value: no `=` found in `"@ + self.input@ + "`"@,
    {
        let mut s = String::from_str("invalid KEY=value: no `=` found in `");
        s.append(self.input.as_str());
        s.append("`");
        s
    }
}

/// Holds when `i` is the position of the first `=` in `s`.
pub open spec fn is_first_eq(s: Seq<char>, i: int) -> bool {
    &&& 0 <= i < s.len()
    &&& s[i] == '='
    &&& forall|j: int| 0 <= j < i ==> s[j] != '='
}

/// Splits a `key=value` argument at its first `=`.
///
/// Returns the text before the first `=` and everything after it; an input
/// without `=` is rejected with an error naming it.
pub fn parse_key_val(s: &str) -> (r: Result<(String, String), KeyValError>)
    ensures
        r matches Ok(kv) ==> exists|i: int|
            is_first_eq(s@, i) && kv.0@ == s@.subrange(0, i) && kv.1@ == s@.subrange(
                i + 1,
                s@.len() as int,
            ),
        r is Ok <==> exists|i: int| 0 <= i < s@.len() && s@[i] == '=',
        r matches Err(e) ==> e.input@ == s@,
{
    let n = s.unicode_len();
    let mut i: usize = 0;
    while i < n
        invariant
            n == s@.len(),
            i <= n,
            forall|j: int| 0 <= j < i ==> s@[j] != '=',
        decreases n - i,
    {
        let c = s.get_char(i);
        if c == '=' {
            let key = String::from_str(s.substring_char(0, i));
            let val = String::from_str(s.substring_char(i + 1, n));
            proof {
                assert(is_first_eq(s@, i as int) && key@ == s@.subrange(0, i as int) && val@
                    == s@.subrange(i as int + 1, s@.len() as int));
            }
            return Ok((key, val));
        }
        i += 1;
    }
    Err(KeyValError { input: String::from_str(s) })
}

} // verus!
