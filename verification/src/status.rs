//! Interpretation of the running-state probe: the init system's per-service
//! status command is run elsewhere, and its exit code and captured output are
//! read here. Exit code zero means active, confirmed by a pattern match on
//! the output; exit code three is the init systems' clean "not running"
//! answer; every other code leaves the state indeterminate.

use vstd::prelude::*;
use crate::DaemonError;

verus! {

/// Whether `pattern` compiles as a regular expression under the regex
/// crate's default configuration; a property of the pattern text alone.
pub uninterp spec fn regex_pattern_valid(pattern: Seq<char>) -> bool;

/// Whether the regular expression `pattern` matches anywhere in `text`; a
/// property of the two texts alone.
pub uninterp spec fn regex_match_of(pattern: Seq<char>, text: Seq<char>) -> bool;

/// Relies on `regex::Regex::new`, which fails exactly on pattern text that is
/// not valid regular-expression syntax or whose compiled form exceeds the
/// default size limit — a property of the pattern alone — and on
/// `regex::Regex::is_match`, which reports whether the compiled pattern
/// matches anywhere in the haystack, a pure function of pattern and haystack.
#[verifier::external_body]
fn regex_is_match(pattern: &str, text: &str) -> (r: Option<bool>)
    ensures
        r is Some <==> regex_pattern_valid(pattern@),
        r matches Some(b) ==> b == regex_match_of(pattern@, text@),
{
    match regex::Regex::new(pattern) {
        Ok(re) => Some(re.is_match(text)),
        Err(_) => None,
    }
}

/// What a status probe's exit code and captured output say of the service.
/// Exit code 0 reports the service active only if the backend's pattern also
/// matches the output; exit code 3 is a clean "not running"; any other code,
/// or a missing one, leaves the service dead or its state unknown.
pub open spec fn probe_outcome(pattern: Seq<char>, exit_code: Option<i32>, stdout: Seq<char>) -> Result<bool, DaemonError> {
    match exit_code {
        Some(code) => {
            if code == 0 {
                if regex_pattern_valid(pattern) {
                    Ok(regex_match_of(pattern, stdout))
                } else {
                    Err(DaemonError::InvalidPattern)
                }
            } else if code == 3 {
                Ok(false)
            } else {
                Err(DaemonError::Stopped)
            }
        },
        None => Err(DaemonError::Stopped),
    }
}

/// Decides whether the service is running from the status probe's exit code
/// and captured output, matched against the backend's activity pattern.
pub fn is_running_from_probe(pattern: &str, exit_code: Option<i32>, stdout: &str) -> (r: Result<bool, DaemonError>)
    ensures
        r == probe_outcome(pattern@, exit_code, stdout@),
{
    match exit_code {
        Some(code) => {
            if code == 0 {
                match regex_is_match(pattern, stdout) {
                    Some(matched) => Ok(matched),
                    None => Err(DaemonError::InvalidPattern),
                }
            } else if code == 3 {
                Ok(false)
            } else {
                Err(DaemonError::Stopped)
            }
        },
        None => Err(DaemonError::Stopped),
    }
}

} // verus!
