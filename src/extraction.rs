//! What one extraction command came to, decoded once from the response.

use vstd::prelude::*;
use crate::json::{present_at, i64_at, u64_at};

verus! {

/// The error code with which the game service signals a cooldown.
pub const COOLDOWN_ERROR_CODE: i64 = 4000;

/// The outcome of one extraction command.
#[derive(Debug, PartialEq, Eq, Structural, Clone, Copy)]
pub enum ExtractionOutcome {
    /// Ore was extracted.
    Extracted,
    /// The ship is cooling down; retry after `seconds`.
    Throttled { seconds: u64 },
    /// Any other error, with its code where the response gave one.
    Failed { code: Option<i64> },
}

/// The outcome named by a response: no error means success; the cooldown
/// code means throttling, for the remaining seconds reported or zero where
/// none could be read; any other error is a failure.
pub open spec fn outcome_of(
    error_present: bool,
    code: Option<i64>,
    remaining: Option<u64>,
) -> ExtractionOutcome {
    if !error_present {
        ExtractionOutcome::Extracted
    } else if code == Some(COOLDOWN_ERROR_CODE) {
        ExtractionOutcome::Throttled {
            seconds: match remaining {
                Some(s) => s,
                None => 0,
            },
        }
    } else {
        ExtractionOutcome::Failed { code }
    }
}

/// Decodes an extraction response from the three things it is read for:
/// whether it holds an error, the error's code, and the reported remaining
/// cooldown in seconds.
pub fn classify_extraction(
    error_present: bool,
    code: Option<i64>,
    remaining: Option<u64>,
) -> (r: ExtractionOutcome)
    ensures
        r == outcome_of(error_present, code, remaining),
{
    if !error_present {
        ExtractionOutcome::Extracted
    } else if code == Some(COOLDOWN_ERROR_CODE) {
        ExtractionOutcome::Throttled { seconds: remaining.unwrap_or(0) }
    } else {
        ExtractionOutcome::Failed { code }
    }
}

/// Whether the response holds an error (`/error`, present and not null).
pub open spec fn error_present_of(body: serde_json::Value) -> bool {
    present_at(body, "/error"@)
}

/// The response's error code (`/error/code`).
pub open spec fn code_of(body: serde_json::Value) -> Option<i64> {
    i64_at(body, "/error/code"@)
}

/// The remaining cooldown the response reports
/// (`/error/data/cooldown/remainingSeconds`).
pub open spec fn remaining_of(body: serde_json::Value) -> Option<u64> {
    u64_at(body, "/error/data/cooldown/remainingSeconds"@)
}

/// Decodes the JSON body of an extraction response: an `error` member that
/// is absent or `null` means success, its `code` and its
/// `data.cooldown.remainingSeconds` decide the rest.
pub fn outcome_from_response(body: &serde_json::Value) -> (r: ExtractionOutcome)
    ensures
        r == outcome_of(error_present_of(*body), code_of(*body), remaining_of(*body)),
{
    let error_present = match body.pointer("/error") {
        Some(e) => !e.is_null(),
        None => false,
    };
    let code = match body.pointer("/error/code") {
        Some(c) => c.as_i64(),
        None => None,
    };
    let remaining = match body.pointer("/error/data/cooldown/remainingSeconds") {
        Some(s) => s.as_u64(),
        None => None,
    };
    classify_extraction(error_present, code, remaining)
}

} // verus!
