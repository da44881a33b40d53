//! The unit's timestamps, rewritten in day-first form by chrono.

use vstd::prelude::*;

verus! {

/// chrono's reading of a log timestamp such as `Apr 22, 2025 00:16:44.123`
/// (format `%b %d, %Y %H:%M:%S%.f`), written back as `%d/%m/%Y %H:%M:%S`;
/// `None` where chrono does not accept the text.
pub uninterp spec fn chrono_day_first(input: Seq<char>) -> Option<Seq<char>>;

/// Calls `chrono::NaiveDateTime::parse_from_str` with the log's timestamp
/// format and, on success, `NaiveDateTime::format` with the day-first
/// format. The contract only names the result: it depends on the text alone.
#[verifier::external_body]
pub(crate) fn chrono_reformat(input: &str) -> (r: Option<String>)
    ensures
        match r {
            Some(s) => chrono_day_first(input@) == Some(s@),
            None => chrono_day_first(input@) is None,
        },
{
    match chrono::NaiveDateTime::parse_from_str(input, "%b %d, %Y %H:%M:%S%.f") {
        Ok(dt) => Some(dt.format("%d/%m/%Y %H:%M:%S").to_string()),
        Err(_) => None,
    }
}

} // verus!
