//! Error type shared by the whole library.

use vstd::prelude::*;

use crate::text::push_i64;
use crate::text::spec_signed_digits;

verus! {

/// An error body returned by the remote API: a numeric code, a message,
/// and a status word.
#[derive(Debug, Clone)]
pub struct Error {
    pub code: i32,
    pub message: String,
    pub status: String,
}

/// The mathematical value of an [`Error`].
#[verifier::ext_equal]
pub ghost struct ErrorView {
    pub code: i32,
    pub message: Seq<char>,
    pub status: Seq<char>,
}

impl View for Error {
    type V = ErrorView;

    open spec fn view(&self) -> ErrorView {
        ErrorView { code: self.code, message: self.message@, status: self.status@ }
    }
}

/// An API error in words: its code, message and status.
pub open spec fn spec_error_text(e: ErrorView) -> Seq<char> {
    "Error "@ + spec_signed_digits(e.code as int) + ": "@ + e.message + " ("@ + e.status + ")"@
}

impl Error {
    /// Renders the error in words.
    pub fn to_string(&self) -> (r: String)
        ensures
            r@ == spec_error_text(self@),
    {
        let mut r = String::from_str("Error ");
        push_i64(self.code as i64, &mut r);
        r.append(": ");
        r.append(self.message.as_str());
        r.append(" (");
        r.append(self.status.as_str());
        r.append(")");
        proof {
            assert(r@ =~= spec_error_text(self@));
        }
        r
    }
}

/// Everything that can go wrong while talking to the remote API.
///
/// Transport-level failures carry the text of the underlying error;
/// `ResponseError` also carries the HTTP status code.
#[derive(Debug, Clone)]
pub enum GemError {
    /// The HTTP request could not be sent or completed.
    ConnectionError(String),
    /// The response body could not be read; carries the HTTP status code.
    ResponseError(String, u16),
    /// The response body was not valid JSON of the expected shape.
    ParsingError(String),
    /// The remote API answered with an error body.
    GeminiAPIError(Error),
    /// The response held no candidates, or a candidate had no text.
    EmptyApiResponse,
    /// Every candidate was blocked and the prompt feedback names a reason.
    FeedbackError(String),
    /// Every candidate was blocked and no reason was given.
    AllCandidatesBlocked,
    /// A streaming request failed; carries the response text and status.
    StreamError(String),
    /// A file upload, lookup or deletion failed.
    FileError(String),
}

} // verus!
