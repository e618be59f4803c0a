//! JSON-RPC request envelopes and tool parameters, decoded from JSON values.
use vstd::prelude::*;
use crate::json::Json;
use crate::text::text_eq;

verus! {

/// A request id: a number or a string.
#[derive(Clone, Debug, PartialEq, Eq)]
pub enum RpcId {
    Number(i64),
    Str(String),
}

/// A JSON-RPC 2.0 request envelope. No id marks a notification.
#[derive(Debug)]
pub struct JsonRpcRequest {
    pub jsonrpc: String,
    pub id: Option<RpcId>,
    pub method: String,
    pub params: Option<Json>,
}

/// Parameters of the `context.resolve` tool.
#[derive(Clone, Debug)]
pub struct ResolveContextParams {
    pub cache: String,
    pub query: String,
    /// Signed, so that a negative budget is seen and refused.
    pub budget: i64,
}

/// Parameters of the `context.list_caches` tool.
#[derive(Clone, Debug)]
pub struct ListCachesParams {
    pub root: String,
}

/// Parameters of the `context.inspect_cache` tool.
#[derive(Clone, Debug)]
pub struct InspectCacheParams {
    pub cache: String,
}

/// Parameters of `initialize`.
#[derive(Clone, Debug)]
pub struct InitializeParams {
    pub protocol_version: Option<String>,
    pub client_info: Option<ClientInfo>,
}

/// The client's description of itself in `initialize`.
#[derive(Clone, Debug)]
pub struct ClientInfo {
    pub name: Option<String>,
    pub version: Option<String>,
}

/// Parameters of `tools/call`.
#[derive(Debug)]
pub struct ToolCallParams {
    pub name: String,
    pub arguments: Option<Json>,
}

/// The value of the first member named `key`.
pub open spec fn member(ms: Seq<(String, Json)>, key: Seq<char>) -> Option<Json>
    decreases ms.len(),
{
    if ms.len() == 0 {
        None
    } else if ms[0].0@ == key {
        Some(ms[0].1)
    } else {
        member(ms.drop_first(), key)
    }
}

/// A string value.
pub open spec fn as_text(j: Option<Json>) -> Option<String> {
    match j {
        Some(Json::Str(s)) => Some(s),
        _ => None,
    }
}

/// An optional value: absent and `null` both give none.
pub open spec fn optional(j: Option<Json>) -> Option<Json> {
    match j {
        Some(Json::Null) => None,
        _ => j,
    }
}

/// An integer value in the range of `i64`.
pub open spec fn as_i64(j: Option<Json>) -> Option<i64> {
    match j {
        Some(Json::UInt(u)) => if u <= i64::MAX {
            Some(u as i64)
        } else {
            None
        },
        Some(Json::NegInt(i)) => Some(i),
        _ => None,
    }
}

/// An optional request id; the outer none marks a value that is no id.
pub open spec fn as_rpc_id(j: Option<Json>) -> Option<Option<RpcId>> {
    match j {
        None => Some(None),
        Some(Json::Null) => Some(None),
        Some(Json::Str(s)) => Some(Some(RpcId::Str(s))),
        _ => match as_i64(j) {
            Some(n) => Some(Some(RpcId::Number(n))),
            None => None,
        },
    }
}

/// The request envelope that a JSON value denotes, if any.
pub open spec fn spec_request(j: Json) -> Option<JsonRpcRequest> {
    match j {
        Json::Object(ms) => {
            let jsonrpc = as_text(member(ms@, "jsonrpc"@));
            let id = as_rpc_id(member(ms@, "id"@));
            let method = as_text(member(ms@, "method"@));
            if jsonrpc is Some && id is Some && method is Some {
                Some(
                    JsonRpcRequest {
                        jsonrpc: jsonrpc->0,
                        id: id->0,
                        method: method->0,
                        params: optional(member(ms@, "params"@)),
                    },
                )
            } else {
                None
            }
        },
        _ => None,
    }
}

/// Why a member does not hold the expected value: it is missing, or it
/// has another type.
pub open spec fn field_problem(j: Option<Json>, field: Seq<char>) -> Seq<char> {
    match j {
        None => "missing field `"@ + field + "`"@,
        Some(_) => "invalid type for field `"@ + field + "`"@,
    }
}

/// Why a value that should hold parameters holds none at all.
pub open spec fn not_an_object() -> Seq<char> {
    "expected an object"@
}

/// The `tools/call` parameters that a JSON value denotes, or why it
/// denotes none.
pub open spec fn spec_tool_call(j: Json) -> Result<ToolCallParams, Seq<char>> {
    match j {
        Json::Object(ms) => match as_text(member(ms@, "name"@)) {
            Some(name) => Ok(
                ToolCallParams { name, arguments: optional(member(ms@, "arguments"@)) },
            ),
            None => Err(field_problem(member(ms@, "name"@), "name"@)),
        },
        _ => Err(not_an_object()),
    }
}

/// The `context.resolve` parameters that a JSON value denotes, or why it
/// denotes none; the fields are looked at in the order cache, query, budget.
pub open spec fn spec_resolve_params(j: Json) -> Result<ResolveContextParams, Seq<char>> {
    match j {
        Json::Object(ms) => {
            let cache = member(ms@, "cache"@);
            let query = member(ms@, "query"@);
            let budget = member(ms@, "budget"@);
            if as_text(cache) is None {
                Err(field_problem(cache, "cache"@))
            } else if as_text(query) is None {
                Err(field_problem(query, "query"@))
            } else if as_i64(budget) is None {
                Err(field_problem(budget, "budget"@))
            } else {
                Ok(
                    ResolveContextParams {
                        cache: as_text(cache)->0,
                        query: as_text(query)->0,
                        budget: as_i64(budget)->0,
                    },
                )
            }
        },
        _ => Err(not_an_object()),
    }
}

/// The `context.inspect_cache` parameters that a JSON value denotes, or why
/// it denotes none.
pub open spec fn spec_inspect_params(j: Json) -> Result<InspectCacheParams, Seq<char>> {
    match j {
        Json::Object(ms) => match as_text(member(ms@, "cache"@)) {
            Some(cache) => Ok(InspectCacheParams { cache }),
            None => Err(field_problem(member(ms@, "cache"@), "cache"@)),
        },
        _ => Err(not_an_object()),
    }
}

proof fn lemma_member_remove(ms: Seq<(String, Json)>, i: int, key: Seq<char>)
    requires
        0 <= i < ms.len(),
        ms[i].0@ != key,
    ensures
        member(ms.remove(i), key) == member(ms, key),
    decreases i,
{
    if i == 0 {
        assert(ms.remove(0) =~= ms.drop_first());
    } else {
        assert(ms.remove(i)[0] == ms[0]);
        assert(ms.remove(i).drop_first() =~= ms.drop_first().remove(i - 1));
        lemma_member_remove(ms.drop_first(), i - 1, key);
    }
}

proof fn lemma_member_at(ms: Seq<(String, Json)>, i: int, key: Seq<char>)
    requires
        0 <= i <= ms.len(),
        forall|j: int| 0 <= j < i ==> (#[trigger] ms[j]).0@ != key,
    ensures
        i < ms.len() && ms[i].0@ == key ==> member(ms, key) == Some(ms[i].1),
        i == ms.len() ==> member(ms, key) is None,
    decreases i,
{
    if i > 0 {
        assert(ms[0].0@ != key);
        lemma_member_at(ms.drop_first(), i - 1, key);
    } else if ms.len() > 0 && i == ms.len() {
    }
}

/// Removes the first member named `key` and returns its value.
fn take_member(ms: &mut Vec<(String, Json)>, key: &str) -> (r: Option<Json>)
    ensures
        r == member(old(ms)@, key@),
        forall|k: Seq<char>| k != key@ ==> member(final(ms)@, k) == member(old(ms)@, k),
{
    let mut i: usize = 0;
    while i < ms.len()
        invariant
            ms@ == old(ms)@,
            i <= ms.len(),
            forall|j: int| 0 <= j < i ==> (#[trigger] ms@[j]).0@ != key@,
        decreases ms.len() - i,
    {
        if text_eq(ms[i].0.as_str(), key) {
            proof {
                lemma_member_at(ms@, i as int, key@);
            }
            let ghost before = ms@;
            let entry = ms.remove(i);
            proof {
                assert forall|k: Seq<char>| k != key@ implies member(ms@, k) == member(
                    before,
                    k,
                ) by {
                    lemma_member_remove(before, i as int, k);
                }
            }
            return Some(entry.1);
        }
        i = i + 1;
    }
    proof {
        lemma_member_at(ms@, i as int, key@);
    }
    None
}

fn take_text(j: Option<Json>) -> (r: Option<String>)
    ensures
        r == as_text(j),
{
    match j {
        Some(Json::Str(s)) => Some(s),
        _ => None,
    }
}

fn problem_text(j: &Option<Json>, field: &str) -> (r: String)
    ensures
        r@ == field_problem(*j, field@),
{
    match j {
        None => String::from_str("missing field `").concat(field).concat("`"),
        Some(_) => String::from_str("invalid type for field `").concat(field).concat("`"),
    }
}

fn text_field(j: Option<Json>, field: &str) -> (r: Result<String, String>)
    ensures
        match as_text(j) {
            Some(s) => r == Ok::<String, String>(s),
            None => r matches Err(e) && e@ == field_problem(j, field@),
        },
{
    match j {
        Some(Json::Str(s)) => Ok(s),
        _ => Err(problem_text(&j, field)),
    }
}

fn i64_field(j: Option<Json>, field: &str) -> (r: Result<i64, String>)
    ensures
        match as_i64(j) {
            Some(n) => r == Ok::<i64, String>(n),
            None => r matches Err(e) && e@ == field_problem(j, field@),
        },
{
    let problem = problem_text(&j, field);
    match take_i64(j) {
        Some(n) => Ok(n),
        None => Err(problem),
    }
}

fn object_expected() -> (r: String)
    ensures
        r@ == not_an_object(),
{
    String::from_str("expected an object")
}

fn take_optional(j: Option<Json>) -> (r: Option<Json>)
    ensures
        r == optional(j),
{
    match j {
        Some(Json::Null) => None,
        _ => j,
    }
}

fn take_i64(j: Option<Json>) -> (r: Option<i64>)
    ensures
        r == as_i64(j),
{
    match j {
        Some(Json::UInt(u)) => if u <= i64::MAX as u64 {
            Some(u as i64)
        } else {
            None
        },
        Some(Json::NegInt(i)) => Some(i),
        _ => None,
    }
}

fn take_rpc_id(j: Option<Json>) -> (r: Option<Option<RpcId>>)
    ensures
        r == as_rpc_id(j),
{
    match j {
        None => Some(None),
        Some(Json::Null) => Some(None),
        Some(Json::Str(s)) => Some(Some(RpcId::Str(s))),
        _ => match take_i64(j) {
            Some(n) => Some(Some(RpcId::Number(n))),
            None => None,
        },
    }
}

impl JsonRpcRequest {
    /// Reads a request envelope out of a JSON value: `jsonrpc` and `method`
    /// must be strings, `id` a number in the range of `i64`, a string, null
    /// or absent; `params` is kept as it is unless null or absent.
    pub fn from_json(j: Json) -> (r: Option<Self>)
        ensures
            r == spec_request(j),
    {
        match j {
            Json::Object(ms) => {
                let mut ms = ms;
                let ghost m0 = ms@;
                let jsonrpc = take_text(take_member(&mut ms, "jsonrpc"));
                let ghost m1 = ms@;
                let id = take_rpc_id(take_member(&mut ms, "id"));
                let ghost m2 = ms@;
                let method = take_text(take_member(&mut ms, "method"));
                let ghost m3 = ms@;
                let params = take_optional(take_member(&mut ms, "params"));
                proof {
                    reveal_strlit("jsonrpc");
                    reveal_strlit("id");
                    reveal_strlit("method");
                    reveal_strlit("params");
                    assert("id"@[0] != "jsonrpc"@[0]);
                    assert("method"@[0] != "jsonrpc"@[0]);
                    assert("method"@[0] != "id"@[0]);
                    assert("params"@[0] != "jsonrpc"@[0]);
                    assert("params"@[0] != "id"@[0]);
                    assert("params"@[0] != "method"@[0]);
                    assert(member(m1, "id"@) == member(m0, "id"@));
                    assert(member(m2, "method"@) == member(m1, "method"@));
                    assert(member(m1, "method"@) == member(m0, "method"@));
                    assert(member(m3, "params"@) == member(m2, "params"@));
                    assert(member(m2, "params"@) == member(m1, "params"@));
                    assert(member(m1, "params"@) == member(m0, "params"@));
                }
                match (jsonrpc, id, method) {
                    (Some(jsonrpc), Some(id), Some(method)) => Some(
                        JsonRpcRequest { jsonrpc, id, method, params },
                    ),
                    _ => None,
                }
            },
            _ => None,
        }
    }
}

impl ToolCallParams {
    /// Reads `{name, arguments}`: `name` must be a string.
    pub fn from_json(j: Json) -> (r: Result<Self, String>)
        ensures
            match spec_tool_call(j) {
                Ok(p) => r matches Ok(q) && q == p,
                Err(why) => r matches Err(e) && e@ == why,
            },
    {
        match j {
            Json::Object(ms) => {
                let mut ms = ms;
                let ghost m0 = ms@;
                let name = text_field(take_member(&mut ms, "name"), "name");
                let ghost m1 = ms@;
                let arguments = take_optional(take_member(&mut ms, "arguments"));
                proof {
                    reveal_strlit("name");
                    reveal_strlit("arguments");
                    assert("arguments"@[0] != "name"@[0]);
                    assert(member(m1, "arguments"@) == member(m0, "arguments"@));
                }
                match name {
                    Ok(name) => Ok(ToolCallParams { name, arguments }),
                    Err(e) => Err(e),
                }
            },
            _ => Err(object_expected()),
        }
    }
}

impl ResolveContextParams {
    /// Reads `{cache, query, budget}`: two strings and an integer in the
    /// range of `i64`.
    pub fn from_json(j: Json) -> (r: Result<Self, String>)
        ensures
            match spec_resolve_params(j) {
                Ok(p) => r matches Ok(q) && q == p,
                Err(why) => r matches Err(e) && e@ == why,
            },
    {
        match j {
            Json::Object(ms) => {
                let mut ms = ms;
                let ghost m0 = ms@;
                let cache = text_field(take_member(&mut ms, "cache"), "cache");
                let ghost m1 = ms@;
                let query = text_field(take_member(&mut ms, "query"), "query");
                let ghost m2 = ms@;
                let budget = i64_field(take_member(&mut ms, "budget"), "budget");
                proof {
                    reveal_strlit("cache");
                    reveal_strlit("query");
                    reveal_strlit("budget");
                    assert("query"@[0] != "cache"@[0]);
                    assert("budget"@[0] != "cache"@[0]);
                    assert("budget"@[0] != "query"@[0]);
                    assert(member(m1, "query"@) == member(m0, "query"@));
                    assert(member(m2, "budget"@) == member(m1, "budget"@));
                    assert(member(m1, "budget"@) == member(m0, "budget"@));
                }
                let cache = match cache {
                    Ok(c) => c,
                    Err(e) => {
                        return Err(e);
                    },
                };
                let query = match query {
                    Ok(q) => q,
                    Err(e) => {
                        return Err(e);
                    },
                };
                match budget {
                    Ok(budget) => Ok(ResolveContextParams { cache, query, budget }),
                    Err(e) => Err(e),
                }
            },
            _ => Err(object_expected()),
        }
    }
}

impl InspectCacheParams {
    /// Reads `{cache}`: a string.
    pub fn from_json(j: Json) -> (r: Result<Self, String>)
        ensures
            match spec_inspect_params(j) {
                Ok(p) => r matches Ok(q) && q == p,
                Err(why) => r matches Err(e) && e@ == why,
            },
    {
        match j {
            Json::Object(ms) => {
                let mut ms = ms;
                match text_field(take_member(&mut ms, "cache"), "cache") {
                    Ok(cache) => Ok(InspectCacheParams { cache }),
                    Err(e) => Err(e),
                }
            },
            _ => Err(object_expected()),
        }
    }
}

} // verus!
