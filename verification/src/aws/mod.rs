//! The cloud resources the service sets up.

use vstd::prelude::*;
use crate::text::chars_of;

verus! {

/// The last `/`-separated segment of a text: what follows its last `/`, or
/// the whole text when it has none.
pub open spec fn last_segment(s: Seq<char>) -> Seq<char> {
    if exists|i: int| 0 <= i < s.len() && s[i] == '/' {
        let i = choose|i: int| 0 <= i < s.len() && s[i] == '/' && forall|j: int| i < j < s.len() ==> s[j] != '/';
        s.subrange(i + 1, s.len() as int)
    } else {
        s
    }
}

/// The name of a queue, from its URL: the URL's last path segment.
pub fn queue_name(url: &str) -> (name: String)
    ensures
        name@ == last_segment(url@),
{
    let cs = chars_of(url);
    let n = cs.len();
    let mut i: usize = n;
    while i > 0
        invariant
            cs@ == url@,
            n == cs@.len(),
            0 <= i <= n,
            forall|j: int| i <= j < n ==> cs@[j] != '/',
        decreases i,
    {
        if cs[i - 1] == '/' {
            let start = i;
            proof {
                let w = (start - 1) as int;
                assert(0 <= w < url@.len() && url@[w] == '/' && forall|j: int| w < j < url@.len() ==> url@[j] != '/');
                let c = choose|c: int|
                    0 <= c < url@.len() && url@[c] == '/' && forall|j: int| c < j < url@.len() ==> url@[j] != '/';
                if c < w {
                    assert(url@[w] != '/');
                }
                if w < c {
                    assert(url@[c] != '/');
                }
            }
            let out = String::from_str(url.substring_char(start, n));
            return out;
        }
        i = i - 1;
    }
    let whole = String::from_str(url);
    whole
}

} // verus!
