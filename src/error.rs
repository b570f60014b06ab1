use vstd::prelude::*;
use vstd::string::*;

verus! {

/// The HTTP client's error, carried through unread.
#[verifier::external_type_specification]
#[verifier::external_body]
pub struct ExHttpError(reqwest::Error);

/// A failure of one request. It ends that request only, never the batch.
pub enum ErrorWrapper {
    /// Sending the request or reading the response body failed.
    HttpRequestError { error: reqwest::Error },
    /// The address built for the request is not a URL.
    InvalidUrl { text: String },
}

/// The result of one request.
pub type ResultWithError<T> = Result<T, ErrorWrapper>;

/// The debug form of a transport error, as the HTTP client renders it.
///
/// Relies on `<reqwest::Error as Debug>::fmt`; nothing is assumed of the text.
#[verifier::external_body]
fn http_error_debug(error: &reqwest::Error) -> (r: String) {
    format!("{:?}", error)
}

impl From<reqwest::Error> for ErrorWrapper {
    fn from(error: reqwest::Error) -> (r: Self)
        ensures
            r == (ErrorWrapper::HttpRequestError { error }),
    {
        ErrorWrapper::HttpRequestError { error }
    }
}

impl vstd::std_specs::convert::FromSpecImpl<reqwest::Error> for ErrorWrapper {
    open spec fn obeys_from_spec() -> bool {
        true
    }

    open spec fn from_spec(error: reqwest::Error) -> Self {
        ErrorWrapper::HttpRequestError { error }
    }
}

/// What a failure line says of an invalid address.
pub open spec fn invalid_url_text(text: Seq<char>) -> Seq<char> {
    "invalid URL: "@ + text
}

/// The shape of a transport error's description around the client's own text.
pub open spec fn http_error_text(inner: Seq<char>) -> Seq<char> {
    "HttpRequestError { error: "@ + inner + " }"@
}

impl ErrorWrapper {
    /// Whether `d` is a text that a failure line may carry for this error.
    pub open spec fn describes(&self, d: Seq<char>) -> bool {
        match self {
            ErrorWrapper::HttpRequestError { .. } => exists|inner: Seq<char>| d == http_error_text(inner),
            ErrorWrapper::InvalidUrl { text } => d == invalid_url_text(text@),
        }
    }

    /// The text that a failure line carries for this error.
    pub fn description(&self) -> (r: String)
        ensures
            self.describes(r@),
    {
        match self {
            ErrorWrapper::HttpRequestError { error } => {
                let inner = http_error_debug(error);
                let mut out = String::from_str("HttpRequestError { error: ");
                out.append(inner.as_str());
                out.append(" }");
                proof {
                    reveal_strlit("HttpRequestError { error: ");
                    reveal_strlit(" }");
                }
                assert(out@ =~= http_error_text(inner@));
                out
            },
            ErrorWrapper::InvalidUrl { text } => {
                let mut out = String::from_str("invalid URL: ");
                out.append(text.as_str());
                proof {
                    reveal_strlit("invalid URL: ");
                }
                assert(out@ =~= invalid_url_text(text@));
                out
            },
        }
    }
}

} // verus!
