//! The `context.inspect_cache` tool: what a cache's manifest says of it.
use vstd::prelude::*;
use vstd::utf8::{valid_utf8, decode_utf8};
use crate::error::{McpErrorCode, McpErrorResponse};
use crate::json::{Json, parse_json, parsed_json, json_quoted, quote, decimal, decimal_text};
use crate::paths::is_canonical_err;
use crate::request::{member, as_text};
use crate::response::{ToolResult, is_single_text};
use crate::text::utf8_text;

verus! {

/// How reading the cache's manifest file went.
#[derive(Debug)]
pub enum ManifestFile {
    /// There is no such file.
    Missing,
    /// Opening or reading the file failed for another reason than its
    /// absence.
    Unreadable,
    Bytes(Vec<u8>),
}

/// What a well-formed manifest states.
#[derive(Clone, Debug)]
pub struct ManifestSummary {
    pub cache_version: String,
    pub document_count: u64,
}

/// The outcome of an inspection.
#[derive(Clone, Debug)]
pub struct InspectReport {
    pub cache_version: String,
    pub document_count: u64,
    pub total_bytes: u64,
    pub valid: bool,
}

/// A non-negative integer value.
pub open spec fn as_u64(j: Option<Json>) -> Option<u64> {
    match j {
        Some(Json::UInt(u)) => Some(u),
        _ => None,
    }
}

/// What manifest bytes state: UTF-8 text of a JSON object with a string
/// `cache_version` and a non-negative integer `document_count`.
pub open spec fn manifest_fields(b: Seq<u8>) -> Option<(Seq<char>, u64)> {
    if !valid_utf8(b) {
        None
    } else {
        match parsed_json(decode_utf8(b)) {
            Some(Json::Object(ms)) => {
                let version = as_text(member(ms@, "cache_version"@));
                let count = as_u64(member(ms@, "document_count"@));
                if version is Some && count is Some {
                    Some((version->0@, count->0))
                } else {
                    None
                }
            },
            _ => None,
        }
    }
}

/// Manifest bytes that are not UTF-8 JSON text state nothing, so an
/// inspection reports the cache as invalid rather than failing.
pub proof fn lemma_malformed_manifest_states_nothing(b: Seq<u8>)
    requires
        !valid_utf8(b) || parsed_json(decode_utf8(b)) is None,
    ensures
        manifest_fields(b) is None,
{
}

fn find_member<'a>(ms: &'a Vec<(String, Json)>, key: &str) -> (r: Option<&'a Json>)
    ensures
        r matches Some(j) ==> member(ms@, key@) == Some(*j),
        r is None ==> member(ms@, key@) is None,
{
    let mut i: usize = 0;
    assert(ms@.skip(0) =~= ms@);
    while i < ms.len()
        invariant
            i <= ms.len(),
            member(ms@, key@) == member(ms@.skip(i as int), key@),
        decreases ms.len() - i,
    {
        proof {
            assert(ms@.skip(i as int).drop_first() =~= ms@.skip(i + 1));
        }
        if crate::text::text_eq(ms[i].0.as_str(), key) {
            return Some(&ms[i].1);
        }
        i = i + 1;
    }
    None
}

/// Reads the manifest. A missing or malformed manifest makes the cache
/// invalid (none); a manifest that cannot be read for another reason than
/// its absence is an I/O error.
pub fn read_manifest(file: ManifestFile) -> (r: Result<Option<ManifestSummary>, McpErrorResponse>)
    ensures
        match file {
            ManifestFile::Unreadable => is_canonical_err(r, McpErrorCode::IoError),
            ManifestFile::Bytes(b) => match manifest_fields(b@) {
                Some(f) => r matches Ok(Some(s)) && s.cache_version@ == f.0 && s.document_count
                    == f.1,
                None => r matches Ok(None),
            },
            ManifestFile::Missing => r matches Ok(None),
        },
{
    match file {
        ManifestFile::Missing => Ok(None),
        ManifestFile::Unreadable => Err(McpErrorResponse::canonical(McpErrorCode::IoError)),
        ManifestFile::Bytes(b) => {
            let text = match utf8_text(b.as_slice()) {
                Some(t) => t,
                None => {
                    return Ok(None);
                },
            };
            let ms = match parse_json(text) {
                Some(Json::Object(ms)) => ms,
                _ => {
                    return Ok(None);
                },
            };
            let version = match find_member(&ms, "cache_version") {
                Some(Json::Str(v)) => v.clone(),
                _ => {
                    return Ok(None);
                },
            };
            let count = match find_member(&ms, "document_count") {
                Some(Json::UInt(u)) => *u,
                _ => {
                    return Ok(None);
                },
            };
            Ok(Some(ManifestSummary { cache_version: version, document_count: count }))
        },
    }
}

/// What the filesystem says of one entry directly inside a cache.
#[derive(Clone, Copy, Debug, PartialEq, Eq, Structural)]
pub enum SizeProbe {
    /// The entry, its type or its size could not be read.
    Failed,
    /// A symbolic link, whatever it points to.
    Symlink,
    /// A regular file of the given size in bytes.
    Regular(u64),
    /// A directory or another kind of entry.
    Other,
}

/// The sum of the sizes of the regular files among the entries.
pub open spec fn regular_total(ps: Seq<SizeProbe>) -> nat
    decreases ps.len(),
{
    if ps.len() == 0 {
        0
    } else {
        regular_total(ps.drop_last()) + match ps.last() {
            SizeProbe::Regular(n) => n as nat,
            _ => 0,
        }
    }
}

/// The total size of the regular files directly inside a cache, skipping
/// symbolic links; none when the listing or an entry could not be read.
pub open spec fn size_total(entries: Option<Vec<SizeProbe>>) -> Option<nat> {
    match entries {
        None => None,
        Some(v) => if exists|i: int| 0 <= i < v@.len() && v@[i] == SizeProbe::Failed {
            None
        } else {
            Some(regular_total(v@))
        },
    }
}

fn checked_total(entries: &Vec<SizeProbe>) -> (r: Option<u64>)
    ensures
        r matches Some(t) ==> size_total(Some(*entries)) == Some(t as nat),
        r is None ==> (size_total(Some(*entries)) matches Some(t) ==> t > u64::MAX),
{
    let mut sum: u64 = 0;
    let mut i: usize = 0;
    while i < entries.len()
        invariant
            i <= entries.len(),
            sum as nat == regular_total(entries@.take(i as int)),
            forall|j: int| 0 <= j < i ==> entries@[j] != SizeProbe::Failed,
        decreases entries.len() - i,
    {
        proof {
            assert(entries@.take(i + 1).drop_last() =~= entries@.take(i as int));
            lemma_total_grows(entries@, i as int + 1);
        }
        match entries[i] {
            SizeProbe::Failed => {
                assert(entries@[i as int] == SizeProbe::Failed);
                return None;
            },
            SizeProbe::Regular(n) => {
                if sum > u64::MAX - n {
                    return None;
                }
                sum = sum + n;
            },
            _ => {},
        }
        i = i + 1;
    }
    assert(entries@.take(entries@.len() as int) =~= entries@);
    Some(sum)
}

proof fn lemma_total_grows(s: Seq<SizeProbe>, k: int)
    requires
        0 <= k <= s.len(),
    ensures
        regular_total(s.take(k)) <= regular_total(s),
    decreases s.len(),
{
    if k < s.len() {
        assert(s.drop_last().take(k) =~= s.take(k));
        lemma_total_grows(s.drop_last(), k);
    } else {
        assert(s.take(k) =~= s);
    }
}

/// Whether a report is the invalid one: empty and zero throughout.
pub open spec fn is_zeroed_invalid(r: InspectReport) -> bool {
    &&& !r.valid
    &&& r.cache_version@.len() == 0
    &&& r.document_count == 0
    &&& r.total_bytes == 0
}

/// Whether a report is the one for the given manifest summary and entries
/// of the cache directory.
pub open spec fn is_report_of(
    r: InspectReport,
    summary: Option<ManifestSummary>,
    entries: Option<Vec<SizeProbe>>,
) -> bool {
    match summary {
        None => is_zeroed_invalid(r),
        Some(s) => {
            &&& r.cache_version@ == s.cache_version@
            &&& r.document_count == s.document_count
            &&& match size_total(entries) {
                Some(t) => if t <= u64::MAX {
                    r.valid && r.total_bytes as nat == t
                } else {
                    !r.valid && r.total_bytes == 0
                },
                None => !r.valid && r.total_bytes == 0,
            }
        },
    }
}

/// The report for a cache. A malformed manifest gives the invalid report
/// with every field zeroed. Otherwise the manifest's fields are reported,
/// and the cache is valid when the sizes of the regular files directly
/// inside it were read and sum within `u64`; when not, it is invalid with
/// a total of zero.
pub fn inspect_report(summary: Option<ManifestSummary>, entries: Option<Vec<SizeProbe>>) -> (r:
    InspectReport)
    ensures
        is_report_of(r, summary, entries),
{
    match summary {
        None => InspectReport {
            cache_version: String::new(),
            document_count: 0,
            total_bytes: 0,
            valid: false,
        },
        Some(s) => {
            let total = match &entries {
                Some(v) => checked_total(v),
                None => None,
            };
            match total {
                Some(t) => InspectReport {
                    cache_version: s.cache_version,
                    document_count: s.document_count,
                    total_bytes: t,
                    valid: true,
                },
                None => InspectReport {
                    cache_version: s.cache_version,
                    document_count: s.document_count,
                    total_bytes: 0,
                    valid: false,
                },
            }
        },
    }
}

/// The wire text of a report, members in declaration order.
pub open spec fn report_text(r: InspectReport) -> Seq<char> {
    "{\"cache_version\":"@ + json_quoted(r.cache_version@) + ",\"document_count\":"@ + decimal(
        r.document_count as nat,
    ) + ",\"total_bytes\":"@ + decimal(r.total_bytes as nat) + ",\"valid\":"@ + if r.valid {
        "true"@
    } else {
        "false"@
    } + "}"@
}

impl InspectReport {
    /// The wire text of the report.
    pub fn to_json(&self) -> (r: String)
        ensures
            r@ == report_text(*self),
    {
        let flag = if self.valid {
            "true"
        } else {
            "false"
        };
        String::from_str("{\"cache_version\":")
            .concat(quote(self.cache_version.as_str()).as_str())
            .concat(",\"document_count\":")
            .concat(decimal_text(self.document_count).as_str())
            .concat(",\"total_bytes\":")
            .concat(decimal_text(self.total_bytes).as_str())
            .concat(",\"valid\":")
            .concat(flag)
            .concat("}")
    }
}

/// The tool result of `context.inspect_cache` once the manifest was read:
/// the report's text, or the domain error as a failed result.
pub fn inspect_cache_result(
    manifest: Result<Option<ManifestSummary>, McpErrorResponse>,
    entries: Option<Vec<SizeProbe>>,
) -> (r: ToolResult)
    ensures
        match manifest {
            Ok(summary) => exists|rep: InspectReport|
                is_single_text(r, report_text(rep), false) && is_report_of(rep, summary, entries),
            Err(e) => is_single_text(r, e.spec_json() + "\n"@, true),
        },
{
    match manifest {
        Ok(summary) => {
            let report = inspect_report(summary, entries);
            ToolResult::text(report.to_json())
        },
        Err(e) => ToolResult::from_mcp(e),
    }
}

} // verus!
