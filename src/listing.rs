//! The `context.list_caches` tool: the caches directly under the root.
use vstd::prelude::*;
use crate::error::{McpErrorCode, McpErrorResponse, domain_error_text};
use crate::json::{json_quoted, quote};
use crate::paths::is_canonical_err;
use crate::response::{ToolResult, is_single_text};
use crate::text::chars_of;

verus! {

/// What a probe of the manifest file inside a directory found, without
/// following a symbolic link.
#[derive(Clone, Copy, Debug, PartialEq, Eq, Structural)]
pub enum ManifestProbe {
    /// A regular file.
    RegularFile,
    /// Something else: a directory, a symbolic link.
    Other,
    /// Nothing of that name.
    Missing,
    /// The probe itself failed.
    Failed,
}

/// One entry of the cache root, as the filesystem reports it.
#[derive(Clone, Debug)]
pub enum EntryProbe {
    /// The entry or its type could not be read.
    Failed,
    /// A file, a symbolic link, or anything else that is no directory.
    NotDir,
    Dir { name: String, manifest: ManifestProbe },
}

/// One cache in the listing.
#[derive(Clone, Debug)]
pub struct CacheEntry {
    pub path: String,
    pub has_manifest: bool,
}

/// Whether reading an entry failed.
pub open spec fn probe_failed(p: EntryProbe) -> bool {
    match p {
        EntryProbe::Failed => true,
        EntryProbe::Dir { manifest, .. } => manifest == ManifestProbe::Failed,
        EntryProbe::NotDir => false,
    }
}

/// The caches among the entries, in the order given: directories only, with
/// a manifest only where it is a regular file.
pub open spec fn dir_entries(ps: Seq<EntryProbe>) -> Seq<(Seq<char>, bool)>
    decreases ps.len(),
{
    if ps.len() == 0 {
        Seq::empty()
    } else {
        let rest = dir_entries(ps.drop_last());
        match ps.last() {
            EntryProbe::Dir { name, manifest } => rest.push(
                (name@, manifest == ManifestProbe::RegularFile),
            ),
            _ => rest,
        }
    }
}

/// An entry as a name and a flag.
pub open spec fn entry_view(e: CacheEntry) -> (Seq<char>, bool) {
    (e.path@, e.has_manifest)
}

/// Strict lexicographic order on texts, by code point; this is the byte
/// order of their UTF-8 encodings.
pub open spec fn text_lt(a: Seq<char>, b: Seq<char>) -> bool
    decreases a.len(),
{
    if a.len() == 0 {
        b.len() > 0
    } else if b.len() == 0 {
        false
    } else if a[0] != b[0] {
        (a[0] as u32) < (b[0] as u32)
    } else {
        text_lt(a.drop_first(), b.drop_first())
    }
}

/// Whether the entries ascend by name.
pub open spec fn sorted_by_path(es: Seq<CacheEntry>) -> bool {
    forall|i: int| 0 <= i < es.len() - 1 ==> !text_lt(#[trigger] es[i + 1].path@, es[i].path@)
}

proof fn lemma_text_lt_asym(a: Seq<char>, b: Seq<char>)
    ensures
        text_lt(a, b) ==> !text_lt(b, a),
    decreases a.len(),
{
    if a.len() > 0 && b.len() > 0 && a[0] == b[0] {
        lemma_text_lt_asym(a.drop_first(), b.drop_first());
    }
}

fn less_than(a: &Vec<char>, b: &Vec<char>) -> (r: bool)
    ensures
        r == text_lt(a@, b@),
{
    let mut i: usize = 0;
    assert(a@.skip(0) =~= a@ && b@.skip(0) =~= b@);
    while i < a.len() && i < b.len() && a[i] == b[i]
        invariant
            i <= a.len(),
            i <= b.len(),
            text_lt(a@, b@) == text_lt(a@.skip(i as int), b@.skip(i as int)),
        decreases a.len() - i,
    {
        proof {
            assert(a@.skip(i as int).drop_first() =~= a@.skip(i + 1));
            assert(b@.skip(i as int).drop_first() =~= b@.skip(i + 1));
        }
        i = i + 1;
    }
    if i == a.len() {
        i < b.len()
    } else if i == b.len() {
        false
    } else {
        (a[i] as u32) < (b[i] as u32)
    }
}

/// The entries as names and flags.
pub open spec fn views(es: Seq<CacheEntry>) -> Seq<(Seq<char>, bool)> {
    es.map_values(|e: CacheEntry| entry_view(e))
}

proof fn lemma_insert_multiset(s: Seq<(Seq<char>, bool)>, i: int, x: (Seq<char>, bool))
    requires
        0 <= i <= s.len(),
    ensures
        s.insert(i, x).to_multiset() =~= s.to_multiset().insert(x),
{
    broadcast use vstd::seq_lib::group_to_multiset_ensures;

    let t = s.insert(i, x);
    assert(t.remove(i) =~= s);
    assert(t[i] == x);
    assert(t.to_multiset().count(x) > 0);
}

/// Sorts entries by name, keeping the same entries.
fn sort_by_path(v: Vec<CacheEntry>) -> (r: Vec<CacheEntry>)
    ensures
        sorted_by_path(r@),
        views(r@).to_multiset() =~= views(v@).to_multiset(),
{
    let mut out: Vec<CacheEntry> = Vec::new();
    let mut keys: Vec<Vec<char>> = Vec::new();
    let mut k: usize = 0;
    proof {
        broadcast use vstd::seq_lib::group_to_multiset_ensures;

        assert(views(out@) =~= Seq::empty());
        assert(views(v@.take(0)) =~= Seq::empty());
    }
    while k < v.len()
        invariant
            k <= v.len(),
            sorted_by_path(out@),
            keys.len() == out.len(),
            forall|j: int| 0 <= j < keys.len() ==> (#[trigger] keys@[j])@ == out@[j].path@,
            views(out@).to_multiset() =~= views(v@.take(k as int)).to_multiset(),
        decreases v.len() - k,
    {
        let key = chars_of(v[k].path.as_str());
        let mut p: usize = 0;
        let mut found = false;
        while p < out.len() && !found
            invariant
                p <= out.len(),
                keys.len() == out.len(),
                forall|j: int| 0 <= j < keys.len() ==> (#[trigger] keys@[j])@ == out@[j].path@,
                forall|j: int| 0 <= j < p ==> !text_lt(key@, (#[trigger] out@[j]).path@),
                found ==> p < out.len() && text_lt(key@, out@[p as int].path@),
            decreases out.len() - p + (if found { 0int } else { 1int }),
        {
            if less_than(&key, &keys[p]) {
                found = true;
            } else {
                p = p + 1;
            }
        }
        let entry = CacheEntry { path: v[k].path.clone(), has_manifest: v[k].has_manifest };
        assert(entry_view(entry) == entry_view(v@[k as int]));
        assert(key@ == entry.path@);
        let ghost before = out@;
        proof {
            if p < out.len() {
                lemma_text_lt_asym(key@, out@[p as int].path@);
            }
        }
        out.insert(p, entry);
        keys.insert(p, key);
        proof {
            broadcast use vstd::seq_lib::group_to_multiset_ensures;

            assert(views(out@) =~= views(before).insert(p as int, entry_view(entry)));
            lemma_insert_multiset(views(before), p as int, entry_view(entry));
            assert(views(v@.take(k + 1)) =~= views(v@.take(k as int)).push(
                entry_view(v@[k as int]),
            ));
            assert forall|i: int| 0 <= i < out@.len() - 1 implies !text_lt(
                #[trigger] out@[i + 1].path@,
                out@[i].path@,
            ) by {
                if i + 1 < p {
                    assert(out@[i] == before[i] && out@[i + 1] == before[i + 1]);
                } else if i + 1 == p {
                    assert(out@[i] == before[i]);
                    assert(out@[i + 1] == entry);
                    assert(!text_lt(key@, before[i].path@));
                } else if i == p {
                    assert(out@[i] == entry);
                    assert(out@[i + 1] == before[p as int]);
                } else {
                    assert(out@[i] == before[i - 1] && out@[i + 1] == before[i]);
                    assert(!text_lt(before[(i - 1) + 1].path@, before[i - 1].path@));
                }
            }
        }
        k = k + 1;
    }
    assert(v@.take(v@.len() as int) =~= v@);
    out
}

/// Why a listing fails, if it does: a root that is no directory is a
/// missing cache; an unreadable root or entry is an I/O error.
pub open spec fn listing_failure(root_is_dir: bool, listing: Option<Vec<EntryProbe>>) -> Option<
    McpErrorCode,
> {
    if !root_is_dir {
        Some(McpErrorCode::CacheMissing)
    } else {
        match listing {
            None => Some(McpErrorCode::IoError),
            Some(ps) => if exists|i: int| 0 <= i < ps@.len() && probe_failed(#[trigger] ps@[i]) {
                Some(McpErrorCode::IoError)
            } else {
                None
            },
        }
    }
}

/// Whether `es` holds the caches among the probes, sorted by name.
pub open spec fn is_listing_of(es: Seq<CacheEntry>, ps: Seq<EntryProbe>) -> bool {
    sorted_by_path(es) && views(es).to_multiset() =~= dir_entries(ps).to_multiset()
}

/// The caches under the root: the root must be a directory, and every entry
/// must be readable; the caches then come sorted by name.
pub fn list_cache_entries(root_is_dir: bool, listing: Option<Vec<EntryProbe>>) -> (r: Result<
    Vec<CacheEntry>,
    McpErrorResponse,
>)
    ensures
        match listing_failure(root_is_dir, listing) {
            Some(code) => is_canonical_err(r, code),
            None => r matches Ok(es) && is_listing_of(es@, listing->0@),
        },
{
    let ghost input = listing;
    if !root_is_dir {
        return Err(McpErrorResponse::canonical(McpErrorCode::CacheMissing));
    }
    let ps = match listing {
        None => {
            return Err(McpErrorResponse::canonical(McpErrorCode::IoError));
        },
        Some(ps) => ps,
    };
    assert(input == Some(ps));
    let mut found: Vec<CacheEntry> = Vec::new();
    let mut i: usize = 0;
    while i < ps.len()
        invariant
            input == Some(ps),
            input == listing,
            root_is_dir,
            i <= ps.len(),
            forall|j: int| 0 <= j < i ==> !probe_failed(#[trigger] ps@[j]),
            views(found@) =~= dir_entries(ps@.take(i as int)),
        decreases ps.len() - i,
    {
        proof {
            assert(ps@.take(i + 1).drop_last() =~= ps@.take(i as int));
        }
        match &ps[i] {
            EntryProbe::Failed => {
                assert(probe_failed(ps@[i as int]));
                assert(exists|j: int| 0 <= j < ps@.len() && probe_failed(#[trigger] ps@[j]));
                assert(input->0 == ps);
                assert(listing_failure(root_is_dir, input) == Some(McpErrorCode::IoError));
                return Err(McpErrorResponse::canonical(McpErrorCode::IoError));
            },
            EntryProbe::NotDir => {},
            EntryProbe::Dir { name, manifest } => {
                if *manifest == ManifestProbe::Failed {
                    assert(probe_failed(ps@[i as int]));
                assert(exists|j: int| 0 <= j < ps@.len() && probe_failed(#[trigger] ps@[j]));
                assert(input->0 == ps);
                    assert(listing_failure(root_is_dir, input) == Some(McpErrorCode::IoError));
                    return Err(McpErrorResponse::canonical(McpErrorCode::IoError));
                }
                let has_manifest = *manifest == ManifestProbe::RegularFile;
                found.push(CacheEntry { path: name.clone(), has_manifest });
            },
        }
        i = i + 1;
    }
    assert(ps@.take(ps@.len() as int) =~= ps@);
    Ok(sort_by_path(found))
}

/// The wire text of one cache entry.
pub open spec fn entry_text(e: CacheEntry) -> Seq<char> {
    "{\"path\":"@ + json_quoted(e.path@) + ",\"has_manifest\":"@ + if e.has_manifest {
        "true"@
    } else {
        "false"@
    } + "}"@
}

/// The wire text of cache entries, comma-separated.
pub open spec fn entries_text(es: Seq<CacheEntry>) -> Seq<char>
    decreases es.len(),
{
    if es.len() == 0 {
        Seq::empty()
    } else if es.len() == 1 {
        entry_text(es[0])
    } else {
        entries_text(es.drop_last()) + ","@ + entry_text(es.last())
    }
}

/// The wire text of a listing: `{"caches":[...]}`.
pub open spec fn listing_text(es: Seq<CacheEntry>) -> Seq<char> {
    "{\"caches\":["@ + entries_text(es) + "]}"@
}

/// The wire text of a listing.
pub fn listing_json(es: &Vec<CacheEntry>) -> (r: String)
    ensures
        r@ == listing_text(es@),
{
    let mut body = String::new();
    let mut i: usize = 0;
    while i < es.len()
        invariant
            i <= es.len(),
            body@ == entries_text(es@.take(i as int)),
        decreases es.len() - i,
    {
        let e = &es[i];
        let flag = if e.has_manifest {
            "true"
        } else {
            "false"
        };
        let item = String::from_str("{\"path\":")
            .concat(quote(e.path.as_str()).as_str())
            .concat(",\"has_manifest\":")
            .concat(flag)
            .concat("}");
        proof {
            let t = es@.take(i + 1);
            assert(t.drop_last() =~= es@.take(i as int));
            assert(t.last() == es@[i as int]);
        }
        if i == 0 {
            body = item;
        } else {
            body = body.concat(",").concat(item.as_str());
        }
        i = i + 1;
    }
    assert(es@.take(es@.len() as int) =~= es@);
    String::from_str("{\"caches\":[").concat(body.as_str()).concat("]}")
}

/// The tool result of `context.list_caches`: the listing's text, or the
/// domain error as a failed result.
pub fn list_caches_result(root_is_dir: bool, listing: Option<Vec<EntryProbe>>) -> (r: ToolResult)
    ensures
        match listing_failure(root_is_dir, listing) {
            Some(code) => is_single_text(r, domain_error_text(code), true),
            None => exists|es: Seq<CacheEntry>|
                is_listing_of(es, listing->0@) && is_single_text(r, listing_text(es), false),
        },
{
    match list_cache_entries(root_is_dir, listing) {
        Ok(es) => ToolResult::text(listing_json(&es)),
        Err(e) => ToolResult::from_mcp(e),
    }
}

/// Whether a probe is the directory that an entry reports: same name, and a
/// manifest exactly when the probe found a regular file there.
pub open spec fn reports_probe(e: CacheEntry, p: EntryProbe) -> bool {
    match p {
        EntryProbe::Dir { name, manifest } => name@ == e.path@ && (e.has_manifest <==> manifest
            == ManifestProbe::RegularFile),
        _ => false,
    }
}

/// The view that a directory probe contributes to the listing.
pub open spec fn probe_view(p: EntryProbe) -> (Seq<char>, bool) {
    match p {
        EntryProbe::Dir { name, manifest } => (name@, manifest == ManifestProbe::RegularFile),
        _ => (Seq::empty(), false),
    }
}

proof fn lemma_dir_entries_contains(ps: Seq<EntryProbe>, x: (Seq<char>, bool))
    ensures
        dir_entries(ps).contains(x) <==> exists|j: int|
            0 <= j < ps.len() && (#[trigger] ps[j]) is Dir && probe_view(ps[j]) == x,
    decreases ps.len(),
{
    if ps.len() > 0 {
        let rest = ps.drop_last();
        lemma_dir_entries_contains(rest, x);
        let last = ps.len() - 1;
        if dir_entries(ps).contains(x) {
            if ps.last() is Dir && probe_view(ps.last()) == x {
                assert(ps[last] is Dir && probe_view(ps[last]) == x);
            } else {
                let d = dir_entries(ps);
                let k = choose|k: int| 0 <= k < d.len() && d[k] == x;
                if ps.last() is Dir {
                    assert(d == dir_entries(rest).push(probe_view(ps.last())));
                    assert(k < dir_entries(rest).len());
                    assert(dir_entries(rest)[k] == x);
                } else {
                    assert(d == dir_entries(rest));
                }
                assert(dir_entries(rest).contains(x));
                let j = choose|j: int|
                    0 <= j < rest.len() && (#[trigger] rest[j]) is Dir && probe_view(rest[j]) == x;
                assert(ps[j] == rest[j]);
            }
        }
        if exists|j: int| 0 <= j < ps.len() && (#[trigger] ps[j]) is Dir && probe_view(ps[j]) == x {
            let j = choose|j: int|
                0 <= j < ps.len() && (#[trigger] ps[j]) is Dir && probe_view(ps[j]) == x;
            if j == last {
                let d = dir_entries(ps);
                assert(d == dir_entries(rest).push(probe_view(ps.last())));
                assert(d[d.len() - 1] == x);
            } else {
                assert(rest[j] == ps[j]);
                let d0 = dir_entries(rest);
                let k = choose|k: int| 0 <= k < d0.len() && d0[k] == x;
                let d = dir_entries(ps);
                if ps.last() is Dir {
                    assert(d == d0.push(probe_view(ps.last())));
                    assert(d[k] == x);
                } else {
                    assert(d == d0);
                }
            }
        }
    }
}

/// A listing reports exactly the directories among the entries: each
/// listed cache is a directory entry of that name, with a manifest exactly
/// when a no-follow probe found a regular file; and each directory entry is
/// listed. Files, symbolic links and other entries are not.
pub proof fn lemma_listing_reports_directories(es: Seq<CacheEntry>, ps: Seq<EntryProbe>)
    requires
        is_listing_of(es, ps),
    ensures
        forall|i: int|
            0 <= i < es.len() ==> exists|j: int|
                0 <= j < ps.len() && reports_probe(#[trigger] es[i], #[trigger] ps[j]),
        forall|j: int|
            0 <= j < ps.len() && (#[trigger] ps[j]) is Dir ==> exists|i: int|
                0 <= i < es.len() && reports_probe(#[trigger] es[i], ps[j]),
{
    broadcast use vstd::seq_lib::group_to_multiset_ensures;

    assert forall|i: int| 0 <= i < es.len() implies exists|j: int|
        0 <= j < ps.len() && reports_probe(#[trigger] es[i], #[trigger] ps[j]) by {
        let x = entry_view(es[i]);
        assert(views(es)[i] == x);
        assert(views(es).contains(x));
        assert(views(es).to_multiset().count(x) > 0);
        assert(dir_entries(ps).to_multiset().count(x) > 0);
        lemma_dir_entries_contains(ps, x);
        let j = choose|j: int|
            0 <= j < ps.len() && (#[trigger] ps[j]) is Dir && probe_view(ps[j]) == x;
        assert(reports_probe(es[i], ps[j]));
    }
    assert forall|j: int| 0 <= j < ps.len() && (#[trigger] ps[j]) is Dir implies exists|i: int|
        0 <= i < es.len() && reports_probe(#[trigger] es[i], ps[j]) by {
        let x = probe_view(ps[j]);
        lemma_dir_entries_contains(ps, x);
        assert(dir_entries(ps).to_multiset().count(x) > 0);
        assert(views(es).to_multiset().count(x) > 0);
        assert(views(es).contains(x));
        let i = choose|i: int| 0 <= i < views(es).len() && views(es)[i] == x;
        assert(entry_view(es[i]) == x);
        assert(reports_probe(es[i], ps[j]));
    }
}

} // verus!
