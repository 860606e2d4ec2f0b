//! Outcome mapping for one-shot platform queries.
//!
//! The platform's clipboard and filesystem entry points signal failure with
//! an empty or null result; the recovery is to fetch the platform's
//! last-error diagnostic and surface it.  The foreign calls live in an
//! unverified shell; it hands the raw result and the diagnostic to the
//! functions here, which decide success or failure.

use vstd::prelude::*;

verus! {

/// The diagnostic used when the platform's own last-error text is empty, so
/// that an error never surfaces without a message.
pub open spec fn fallback_diagnostic() -> Seq<char> {
    "platform query failed"@
}

/// The message an error built from `diagnostic` carries: the diagnostic
/// itself when it has text, the fallback otherwise.
pub open spec fn error_message(diagnostic: Seq<char>) -> Seq<char> {
    if diagnostic.len() == 0 {
        fallback_diagnostic()
    } else {
        diagnostic
    }
}

/// A one-shot platform query signalled failure.  Carries the platform's
/// last-error diagnostic, never empty.
pub struct PlatformQueryError {
    message: String,
}

impl PlatformQueryError {
    /// The diagnostic text.
    pub closed spec fn message_spec(self) -> Seq<char> {
        self.message@
    }

    /// Builds the error from the platform's last-error text, substituting the
    /// fallback when that text is empty.
    pub fn from_diagnostic(diagnostic: String) -> (e: PlatformQueryError)
        ensures
            e.message_spec() == error_message(diagnostic@),
            e.message_spec().len() > 0,
    {
        if diagnostic.as_str().unicode_len() == 0 {
            let message = String::from_str("platform query failed");
            proof {
                reveal_strlit("platform query failed");
            }
            PlatformQueryError { message }
        } else {
            PlatformQueryError { message: diagnostic }
        }
    }

    /// The diagnostic text, for display by the caller.
    pub fn message(&self) -> (m: &str)
        ensures
            m@ == self.message_spec(),
    {
        self.message.as_str()
    }
}

/// Maps a text-returning query (clipboard text, base path, preference path)
/// onto a result: an empty string is the platform's failure signal and maps
/// to an error carrying the diagnostic; anything else is returned unchanged.
/// Success is therefore never empty.
pub fn text_query_outcome(raw: String, diagnostic: String) -> (r: Result<
    String,
    PlatformQueryError,
>)
    ensures
        raw@.len() > 0 <==> r is Ok,
        r matches Ok(s) ==> s == raw && s@.len() > 0,
        r matches Err(e) ==> e.message_spec() == error_message(diagnostic@)
            && e.message_spec().len() > 0,
{
    if raw.as_str().unicode_len() == 0 {
        Err(PlatformQueryError::from_diagnostic(diagnostic))
    } else {
        Ok(raw)
    }
}

/// Maps a status-returning call (setting the clipboard text) onto a result:
/// a status of zero is the platform's failure signal and maps to an error
/// carrying the diagnostic; any other status is success.
pub fn status_query_outcome(status: i32, diagnostic: String) -> (r: Result<
    (),
    PlatformQueryError,
>)
    ensures
        status != 0 <==> r is Ok,
        r matches Err(e) ==> e.message_spec() == error_message(diagnostic@)
            && e.message_spec().len() > 0,
{
    if status == 0 {
        Err(PlatformQueryError::from_diagnostic(diagnostic))
    } else {
        Ok(())
    }
}

/// Reads a boolean platform answer (whether the clipboard holds text): the
/// platform's true value is exactly one.
pub fn flag_query_outcome(status: i32) -> (r: bool)
    ensures
        r <==> status == 1,
{
    status == 1
}

} // verus!
