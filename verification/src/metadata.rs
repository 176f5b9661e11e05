//! Cache-validation metadata of the remote artifact and the rule that decides
//! whether an update is needed.

use vstd::prelude::*;
use vstd::string::StrSliceExecFns;

verus! {

/// Mathematical view of `CoreInfo`: each header value as a sequence of
/// characters, or `None` where the origin did not report it.
pub struct CoreInfoV {
    pub etag: Option<Seq<char>>,
    pub last_modified: Option<Seq<char>>,
}

/// A header value is well formed when it contains no line break; HTTP header
/// values never do, and the record format relies on it.
/// A character sequence is line free when it contains no line break.
pub open spec fn line_free(s: Seq<char>) -> bool {
    forall|i: int| 0 <= i < s.len() ==> #[trigger] s[i] != '\n'
}

pub open spec fn value_wf(v: Option<Seq<char>>) -> bool {
    match v {
        Some(s) => line_free(s),
        None => true,
    }
}

impl CoreInfoV {
    /// Both stored header values are free of line breaks.
    pub open spec fn wf(self) -> bool {
        value_wf(self.etag) && value_wf(self.last_modified)
    }

    /// The metadata of an artifact that was never observed.
    pub open spec fn empty() -> CoreInfoV {
        CoreInfoV { etag: None, last_modified: None }
    }
}

/// View of an optional owned string as an optional character sequence.
pub open spec fn opt_view(v: Option<String>) -> Option<Seq<char>> {
    match v {
        Some(s) => Some(s@),
        None => None,
    }
}

/// Drops a header value that contains a line break; such a value cannot come
/// off the wire, and dropping it only ever forces a fetch.
pub open spec fn spec_sanitized(v: Option<Seq<char>>) -> Option<Seq<char>> {
    match v {
        Some(s) => if value_wf(Some(s)) {
            Some(s)
        } else {
            None
        },
        None => None,
    }
}

/// Two validation tokens match only when both are present and equal; an
/// absent token on either side never counts as a match, so the artifact is
/// fetched rather than silently assumed unchanged.
pub open spec fn tokens_match(a: Option<Seq<char>>, b: Option<Seq<char>>) -> bool {
    match (a, b) {
        (Some(x), Some(y)) => x == y,
        _ => false,
    }
}

/// The fetched artifact must be committed unless the cached and the freshly
/// observed validation tokens match. Only the entity tag participates; the
/// modification timestamp is informational.
pub open spec fn spec_update_needed(cached: CoreInfoV, remote: CoreInfoV) -> bool {
    !tokens_match(cached.etag, remote.etag)
}

/// Cache-validation identity of the remote artifact: the entity tag and the
/// origin-reported modification timestamp, either of which may be absent.
pub struct CoreInfo {
    pub etag: Option<String>,
    pub last_modified: Option<String>,
}

impl View for CoreInfo {
    type V = CoreInfoV;

    open spec fn view(&self) -> CoreInfoV {
        CoreInfoV { etag: opt_view(self.etag), last_modified: opt_view(self.last_modified) }
    }
}

impl CoreInfo {
    /// Metadata of an artifact that was never observed: both fields absent.
    pub fn new() -> (r: Self)
        ensures
            r@ == CoreInfoV::empty(),
    {
        CoreInfo { etag: None, last_modified: None }
    }

    /// Builds metadata from the values of the `ETag` and `Last-Modified`
    /// response headers. A value containing a line break (impossible in a
    /// header that came off the wire) is treated as absent.
    pub fn from_headers(etag: Option<String>, last_modified: Option<String>) -> (r: Self)
        ensures
            r@.etag == spec_sanitized(opt_view(etag)),
            r@.last_modified == spec_sanitized(opt_view(last_modified)),
            r@.wf(),
    {
        CoreInfo { etag: sanitize(etag), last_modified: sanitize(last_modified) }
    }
}

/// Keeps a header value only when it is free of line breaks.
fn sanitize(v: Option<String>) -> (r: Option<String>)
    ensures
        opt_view(r) == spec_sanitized(opt_view(v)),
{
    match v {
        Some(s) => {
            if has_newline(s.as_str()) {
                None
            } else {
                Some(s)
            }
        },
        None => None,
    }
}

/// Reports whether the string contains a line-break character.
fn has_newline(s: &str) -> (b: bool)
    ensures
        b == !value_wf(Some(s@)),
{
    let n = s.unicode_len();
    let mut i: usize = 0;
    while i < n
        invariant
            i <= n,
            n == s@.len(),
            forall|t: int| 0 <= t < i ==> s@[t] != '\n',
        decreases n - i,
    {
        let c = s.get_char(i);
        if c == '\n' {
            proof {
                assert(s@[i as int] == '\n');
                assert(!line_free(s@));
            }
            return true;
        }
        i = i + 1;
    }
    false
}

/// Decides whether the fetched artifact must be committed: true unless the
/// cached and the freshly observed validation tokens are both present and
/// equal.
pub fn update_needed(cached: &CoreInfo, remote: &CoreInfo) -> (r: bool)
    ensures
        r == spec_update_needed(cached@, remote@),
{
    let matched = match (&cached.etag, &remote.etag) {
        (Some(a), Some(b)) => a.eq(b),
        _ => false,
    };
    !matched
}

} // verus!
