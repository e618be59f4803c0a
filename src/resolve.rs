//! The `context.resolve` tool: the checks made before any filesystem access
//! and the reading of the selection's outcome.
use vstd::prelude::*;
use crate::error::{McpErrorCode, McpErrorResponse, domain_error_text};
use crate::paths::is_canonical_err;
use crate::response::{ToolResult, is_single_text};

verus! {

/// Checks a budget: a negative one is refused.
pub fn check_budget(budget: i64) -> (r: Result<u64, McpErrorResponse>)
    ensures
        budget < 0 ==> is_canonical_err(r, McpErrorCode::InvalidBudget),
        budget >= 0 ==> r == Ok::<u64, McpErrorResponse>(budget as u64),
{
    if budget < 0 {
        Err(McpErrorResponse::canonical(McpErrorCode::InvalidBudget))
    } else {
        Ok(budget as u64)
    }
}

/// How loading a cache and selecting from it ended.
#[derive(Debug)]
pub enum SelectionOutcome {
    /// The resolved directory holds no manifest.
    ManifestMissing,
    /// The manifest could not be opened for another reason.
    ManifestUnreadable,
    /// The manifest is not a valid cache manifest.
    ManifestInvalid,
    /// The selection engine reported a failure, or its result could not be
    /// serialized.
    SelectionFailed,
    /// The selection did not finish in time.
    TimedOut,
    /// The worker that ran the selection ended abnormally.
    WorkerFailed,
    /// The selection's serialized result.
    Selected(String),
}

/// The kind of error that an outcome is reported as, none on success.
pub open spec fn outcome_error(o: SelectionOutcome) -> Option<McpErrorCode> {
    match o {
        SelectionOutcome::ManifestMissing => Some(McpErrorCode::CacheInvalid),
        SelectionOutcome::ManifestUnreadable => Some(McpErrorCode::IoError),
        SelectionOutcome::ManifestInvalid => Some(McpErrorCode::CacheInvalid),
        SelectionOutcome::Selected(_) => None,
        _ => Some(McpErrorCode::InternalError),
    }
}

/// The tool result of `context.resolve` for an outcome: the selection's
/// text with one line end added, or the domain error as a failed result.
pub fn resolve_result(o: SelectionOutcome) -> (r: ToolResult)
    ensures
        match o {
            SelectionOutcome::Selected(t) => is_single_text(r, t@ + "\n"@, false),
            _ => is_single_text(r, domain_error_text(outcome_error(o)->0), true),
        },
{
    let code = match o {
        SelectionOutcome::Selected(t) => {
            return ToolResult::text(t.concat("\n"));
        },
        SelectionOutcome::ManifestMissing => McpErrorCode::CacheInvalid,
        SelectionOutcome::ManifestUnreadable => McpErrorCode::IoError,
        SelectionOutcome::ManifestInvalid => McpErrorCode::CacheInvalid,
        SelectionOutcome::SelectionFailed => McpErrorCode::InternalError,
        SelectionOutcome::TimedOut => McpErrorCode::InternalError,
        SelectionOutcome::WorkerFailed => McpErrorCode::InternalError,
    };
    ToolResult::from_mcp(McpErrorResponse::canonical(code))
}

} // verus!
