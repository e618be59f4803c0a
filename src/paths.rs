//! Mapping a client-supplied cache name to a directory under the cache root.
//!
//! The name is screened before any filesystem access. The filesystem's
//! answers (canonical forms, whether the result is a directory) are gathered
//! by the caller into a [`PathProbe`]; the decision on them is made here.
use vstd::prelude::*;
use crate::error::{McpErrorCode, McpErrorResponse, canonical_message};
use crate::text::{contains_dot_pair, has_dot_pair, starts_with_char};

verus! {

/// Whether a cache name is refused before the filesystem is touched: it
/// holds `..`, or begins with `/` or `\`.
pub open spec fn is_refused_name(name: Seq<char>) -> bool {
    has_dot_pair(name) || (name.len() > 0 && (name[0] == '/' || name[0] == '\\'))
}

/// Screens a cache name; a refused name is reported as a missing cache.
pub fn check_cache_name(name: &str) -> (r: Result<(), McpErrorResponse>)
    ensures
        r is Err <==> is_refused_name(name@),
        r matches Err(e) ==> e.error.code == McpErrorCode::CacheMissing && e.is_canonical(),
{
    if contains_dot_pair(name) || starts_with_char(name, '/') || starts_with_char(name, '\\') {
        Err(McpErrorResponse::canonical(McpErrorCode::CacheMissing))
    } else {
        Ok(())
    }
}

/// The byte of the path separator `/`.
pub const SEPARATOR: u8 = 47;

/// Whether `candidate` lies at or below `root`, both canonical paths as
/// bytes: equal, or `root` followed by a separator is a prefix of it.
pub open spec fn within_root(candidate: Seq<u8>, root: Seq<u8>) -> bool {
    ||| candidate == root
    ||| (root.len() > 0 && root.last() == SEPARATOR && root.is_prefix_of(candidate))
    ||| root.push(SEPARATOR).is_prefix_of(candidate)
}

fn is_prefix(p: &Vec<u8>, s: &Vec<u8>) -> (r: bool)
    ensures
        r == p@.is_prefix_of(s@),
{
    if p.len() > s.len() {
        return false;
    }
    let mut i: usize = 0;
    while i < p.len()
        invariant
            p.len() <= s.len(),
            i <= p.len(),
            forall|j: int| 0 <= j < i ==> p@[j] == s@[j],
        decreases p.len() - i,
    {
        if p[i] != s[i] {
            return false;
        }
        i = i + 1;
    }
    assert(p@ =~= s@.take(p@.len() as int));
    true
}

/// Whether `candidate` lies at or below `root`.
pub fn is_within_root(candidate: &Vec<u8>, root: &Vec<u8>) -> (r: bool)
    ensures
        r == within_root(candidate@, root@),
{
    let c = candidate;
    let mut p = root.clone();
    assert(p@ == root@);
    if c.len() == p.len() && is_prefix(&p, c) {
        assert(c@ =~= p@);
        return true;
    }
    if p.len() > 0 && p[p.len() - 1] == SEPARATOR && is_prefix(&p, c) {
        return true;
    }
    p.push(SEPARATOR);
    let r = is_prefix(&p, c);
    proof {
        if candidate@ == root@ {
            assert(root@.is_prefix_of(candidate@));
        }
    }
    r
}

/// What the filesystem says of a cache name joined to the root.
#[derive(Clone, Debug)]
pub struct PathProbe {
    /// The canonical form of root/name as bytes, none if it could not be
    /// formed.
    pub candidate: Option<Vec<u8>>,
    /// The canonical form of the root as bytes, none if it could not be
    /// formed.
    pub root: Option<Vec<u8>>,
    /// Whether the candidate is an existing directory.
    pub is_dir: bool,
}

/// The directory that a name resolves to, or the kind of the failure.
pub open spec fn spec_resolve(name: Seq<char>, probe: PathProbe) -> Result<Seq<u8>, McpErrorCode> {
    if is_refused_name(name) {
        Err(McpErrorCode::CacheMissing)
    } else {
        match probe.candidate {
            None => Err(McpErrorCode::CacheMissing),
            Some(c) => match probe.root {
                None => Err(McpErrorCode::IoError),
                Some(r) => if !within_root(c@, r@) || !probe.is_dir {
                    Err(McpErrorCode::CacheMissing)
                } else {
                    Ok(c@)
                },
            },
        }
    }
}

/// Whether a result carries the canonical error of the given kind.
pub open spec fn is_canonical_err<T>(r: Result<T, McpErrorResponse>, code: McpErrorCode) -> bool {
    r matches Err(e) && e.error.code == code && e.error.message@ == canonical_message(code)
}

/// Decides where a cache name leads. Every failure that the client can
/// cause is a missing cache; only an unreadable root is an I/O error.
pub fn resolve_cache_path(name: &str, probe: PathProbe) -> (r: Result<Vec<u8>, McpErrorResponse>)
    ensures
        match spec_resolve(name@, probe) {
            Ok(dir) => r matches Ok(d) && d@ == dir,
            Err(code) => is_canonical_err(r, code),
        },
{
    if check_cache_name(name).is_err() {
        return Err(McpErrorResponse::canonical(McpErrorCode::CacheMissing));
    }
    match probe.candidate {
        None => Err(McpErrorResponse::canonical(McpErrorCode::CacheMissing)),
        Some(c) => match probe.root {
            None => Err(McpErrorResponse::canonical(McpErrorCode::IoError)),
            Some(root) => {
                if !is_within_root(&c, &root) || !probe.is_dir {
                    Err(McpErrorResponse::canonical(McpErrorCode::CacheMissing))
                } else {
                    Ok(c)
                }
            },
        },
    }
}

} // verus!
