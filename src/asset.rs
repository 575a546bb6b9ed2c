//! Content types of the files the browser front end is served.

use vstd::prelude::*;
use vstd::string::*;

verus! {

/// `s` ends with `suffix`.
pub open spec fn has_suffix(s: Seq<char>, suffix: Seq<char>) -> bool {
    s.len() >= suffix.len() && s.subrange(s.len() - suffix.len(), s.len() as int) == suffix
}

/// The content-type header line for a requested path, chosen by its
/// extension: scripts, style sheets and pages have one, anything else none.
pub open spec fn content_type_line(url: Seq<char>) -> Option<Seq<char>> {
    if has_suffix(url, ".js"@) {
        Some("Content-Type: application/javascript; charset=UTF=8"@)
    } else if has_suffix(url, ".css"@) {
        Some("Content-Type: text/css; charset=UTF=8"@)
    } else if has_suffix(url, ".html"@) {
        Some("Content-Type: text/html; charset=UTF=8"@)
    } else {
        None
    }
}

fn ends_with(s: &str, suffix: &str) -> (r: bool)
    ensures
        r == has_suffix(s@, suffix@),
{
    let n = s.unicode_len();
    let k = suffix.unicode_len();
    if n < k {
        return false;
    }
    let mut i: usize = 0;
    while i < k
        invariant
            n == s@.len(),
            k == suffix@.len(),
            k <= n,
            i <= k,
            forall|j: int| 0 <= j < i ==> s@[n - k + j] == suffix@[j],
        decreases k - i,
    {
        if s.get_char(n - k + i) != suffix.get_char(i) {
            assert(s@.subrange(n - k, n as int)[i as int] != suffix@[i as int]);
            return false;
        }
        i = i + 1;
    }
    assert(s@.subrange(n - k, n as int) =~= suffix@);
    true
}

/// The content-type header line for a requested path.
pub fn content_type(url: &str) -> (r: Option<&'static str>)
    ensures
        match r {
            Some(line) => content_type_line(url@) == Some(line@),
            None => content_type_line(url@) is None,
        },
{
    if ends_with(url, ".js") {
        return Some("Content-Type: application/javascript; charset=UTF=8");
    }
    if ends_with(url, ".css") {
        return Some("Content-Type: text/css; charset=UTF=8");
    }
    if ends_with(url, ".html") {
        return Some("Content-Type: text/html; charset=UTF=8");
    }
    None
}

} // verus!
