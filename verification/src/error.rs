//! The errors of the library and the context that each of them carries.

use vstd::prelude::*;
use vstd::std_specs::convert::FromSpecImpl;
use vstd::string::StringExecFns;
use vstd::utf8::decode_utf8;
use vstd::utf8::valid_utf8;

verus! {

/// What is known about a failure: a readable message, the address that was
/// asked, an excerpt of the payload, and a detail that depends on the kind of
/// error (the HTTP status of a failed request).
#[derive(Clone, Debug)]
pub struct ErrorContext<T: Clone> {
    pub message: String,
    pub url: Option<String>,
    pub value: Option<String>,
    pub extra: Option<T>,
}

/// The mathematical value of an [`ErrorContext`].
pub struct ErrorContextView<T> {
    pub message: Seq<char>,
    pub url: Option<Seq<char>>,
    pub value: Option<Seq<char>>,
    pub extra: Option<T>,
}

/// The characters of an optional string.
pub open spec fn optional_text(text: Option<String>) -> Option<Seq<char>> {
    match text {
        Some(t) => Some(t@),
        None => None,
    }
}

impl<T: Clone> View for ErrorContext<T> {
    type V = ErrorContextView<T>;

    open spec fn view(&self) -> ErrorContextView<T> {
        ErrorContextView {
            message: self.message@,
            url: optional_text(self.url),
            value: optional_text(self.value),
            extra: self.extra,
        }
    }
}

/// The text that `String::from_utf8_lossy` makes of a byte buffer.
pub uninterp spec fn lossy_text(bytes: Seq<u8>) -> Seq<char>;

/// Calls `String::from_utf8_lossy`. The text depends on the bytes alone, and
/// bytes that are valid UTF-8 come back as the characters they encode; what
/// stands in for an invalid run is left to the name.
#[verifier::external_body]
fn utf8_lossy(bytes: &[u8]) -> (r: String)
    ensures
        r@ == lossy_text(bytes@),
        valid_utf8(bytes@) ==> r@ == decode_utf8(bytes@),
{
    String::from_utf8_lossy(bytes).into_owned()
}

/// The excerpt that a context keeps of a payload: the payload as text.
pub open spec fn excerpt(payload: Seq<u8>) -> Seq<char> {
    lossy_text(payload)
}

/// One line for a context: the message, then the address in parentheses,
/// then the excerpt after a colon, each only where it is known.
pub open spec fn rendered<T>(context: ErrorContextView<T>) -> Seq<char> {
    context.message + (match context.url {
        Some(url) => " ("@ + url + ")"@,
        None => Seq::empty(),
    }) + (match context.value {
        Some(value) => ": "@ + value,
        None => Seq::empty(),
    })
}

impl<T: Clone> ErrorContext<T> {
    /// A context that holds a message and nothing else.
    pub fn new(message: &str) -> (r: Self)
        ensures
            r@ == (ErrorContextView::<T> {
                message: message@,
                url: None,
                value: None,
                extra: None,
            }),
    {
        ErrorContext { message: String::from_str(message), url: None, value: None, extra: None }
    }

    /// The same context with the address that was asked.
    pub fn with_url(self, url: &str) -> (r: Self)
        ensures
            r@ == (ErrorContextView { url: Some(url@), ..self@ }),
    {
        ErrorContext {
            message: self.message,
            url: Some(String::from_str(url)),
            value: self.value,
            extra: self.extra,
        }
    }

    /// The same context with the payload as its excerpt. A payload that is
    /// valid UTF-8 is kept character by character.
    pub fn with_value(self, value: &[u8]) -> (r: Self)
        ensures
            r@ == (ErrorContextView { value: Some(excerpt(value@)), ..self@ }),
            valid_utf8(value@) ==> r@.value == Some(decode_utf8(value@)),
    {
        let text = utf8_lossy(value);
        ErrorContext { message: self.message, url: self.url, value: Some(text), extra: self.extra }
    }

    /// The same context with the detail of its kind.
    pub fn with_extra(self, extra: T) -> (r: Self)
        ensures
            r@ == (ErrorContextView { extra: Some(extra), ..self@ }),
    {
        ErrorContext {
            message: self.message,
            url: self.url,
            value: self.value,
            extra: Some(extra),
        }
    }

    /// The context of another kind of error: message, address and excerpt are
    /// kept, the detail is dropped.
    pub fn into_other_context<T1: Clone>(self) -> (r: ErrorContext<T1>)
        ensures
            r@ == (ErrorContextView::<T1> {
                message: self@.message,
                url: self@.url,
                value: self@.value,
                extra: None,
            }),
    {
        ErrorContext { message: self.message, url: self.url, value: self.value, extra: None }
    }

    /// The context on one line.
    pub fn to_string(&self) -> (r: String)
        ensures
            r@ == rendered(self@),
    {
        let mut line = self.message.clone();
        match &self.url {
            Some(url) => {
                line.append(" (");
                line.append(url.as_str());
                line.append(")");
            },
            None => {},
        }
        match &self.value {
            Some(value) => {
                line.append(": ");
                line.append(value.as_str());
            },
            None => {},
        }
        assert(line@ =~= rendered(self@));
        line
    }
}

impl<T: Clone> From<String> for ErrorContext<T> {
    /// A context that holds the given message and nothing else.
    fn from(string: String) -> (r: Self) {
        ErrorContext { message: string, url: None, value: None, extra: None }
    }
}

impl<T: Clone> FromSpecImpl<String> for ErrorContext<T> {
    open spec fn obeys_from_spec() -> bool {
        true
    }

    open spec fn from_spec(string: String) -> Self {
        ErrorContext { message: string, url: None, value: None, extra: None }
    }
}

impl<'a, T: Clone> From<&'a str> for ErrorContext<T> {
    /// A context that holds the given message and nothing else.
    fn from(str: &'a str) -> (r: Self)
        ensures
            r@ == (ErrorContextView::<T> { message: str@, url: None, value: None, extra: None }),
    {
        ErrorContext::new(str)
    }
}

impl<'a, T: Clone> FromSpecImpl<&'a str> for ErrorContext<T> {
    /// What the conversion gives is stated by its own `ensures`, over the
    /// view: no value of a context can be written down from a string slice.
    open spec fn obeys_from_spec() -> bool {
        false
    }

    open spec fn from_spec(str: &'a str) -> Self {
        arbitrary()
    }
}

/// The errors of the library. Each failure is exactly one of these.
#[derive(Clone, Debug)]
pub enum Error {
    /// Something inside the library went wrong, or the service changed in a
    /// way that the library does not know.
    Internal(ErrorContext<()>),
    /// The request itself failed; the detail is the HTTP status.
    Request(ErrorContext<u16>),
    /// The body of a response could not be decoded.
    Decode(ErrorContext<()>),
    /// Logging in failed.
    Authentication(ErrorContext<()>),
    /// The caller's input was malformed.
    Input(ErrorContext<()>),
    /// The request was blocked by bot protection.
    Block(ErrorContext<()>),
}

/// The mathematical value of an [`Error`].
pub enum ErrorView {
    Internal(ErrorContextView<()>),
    Request(ErrorContextView<u16>),
    Decode(ErrorContextView<()>),
    Authentication(ErrorContextView<()>),
    Input(ErrorContextView<()>),
    Block(ErrorContextView<()>),
}

impl View for Error {
    type V = ErrorView;

    open spec fn view(&self) -> ErrorView {
        match self {
            Error::Internal(context) => ErrorView::Internal(context@),
            Error::Request(context) => ErrorView::Request(context@),
            Error::Decode(context) => ErrorView::Decode(context@),
            Error::Authentication(context) => ErrorView::Authentication(context@),
            Error::Input(context) => ErrorView::Input(context@),
            Error::Block(context) => ErrorView::Block(context@),
        }
    }
}

impl ErrorView {
    /// The message of the error, whatever its kind.
    pub open spec fn message(self) -> Seq<char> {
        match self {
            ErrorView::Internal(context) => context.message,
            ErrorView::Request(context) => context.message,
            ErrorView::Decode(context) => context.message,
            ErrorView::Authentication(context) => context.message,
            ErrorView::Input(context) => context.message,
            ErrorView::Block(context) => context.message,
        }
    }

    /// The error on one line.
    pub open spec fn line(self) -> Seq<char> {
        match self {
            ErrorView::Internal(context) => rendered(context),
            ErrorView::Request(context) => rendered(context),
            ErrorView::Decode(context) => rendered(context),
            ErrorView::Authentication(context) => rendered(context),
            ErrorView::Input(context) => rendered(context),
            ErrorView::Block(context) => rendered(context),
        }
    }
}

/// What a transport layer reports of a request that it could not carry out:
/// its own description, the address and status where it knows them, and the
/// stages at which it says the failure arose.
#[derive(Clone, Debug)]
pub struct TransportFailure {
    pub message: String,
    pub url: Option<String>,
    pub status: Option<u16>,
    pub is_request: bool,
    pub is_redirect: bool,
    pub is_timeout: bool,
    pub is_connect: bool,
    pub is_body: bool,
    pub is_status: bool,
    pub is_decode: bool,
    pub is_builder: bool,
}

/// The mathematical value of a [`TransportFailure`].
pub struct TransportFailureView {
    pub message: Seq<char>,
    pub url: Option<Seq<char>>,
    pub status: Option<u16>,
    pub is_request: bool,
    pub is_redirect: bool,
    pub is_timeout: bool,
    pub is_connect: bool,
    pub is_body: bool,
    pub is_status: bool,
    pub is_decode: bool,
    pub is_builder: bool,
}

impl View for TransportFailure {
    type V = TransportFailureView;

    open spec fn view(&self) -> TransportFailureView {
        TransportFailureView {
            message: self.message@,
            url: optional_text(self.url),
            status: self.status,
            is_request: self.is_request,
            is_redirect: self.is_redirect,
            is_timeout: self.is_timeout,
            is_connect: self.is_connect,
            is_body: self.is_body,
            is_status: self.is_status,
            is_decode: self.is_decode,
            is_builder: self.is_builder,
        }
    }
}

impl TransportFailureView {
    /// The failure arose while the request was sent or its answer received.
    pub open spec fn concerns_request(self) -> bool {
        self.is_request || self.is_redirect || self.is_timeout || self.is_connect || self.is_body
            || self.is_status
    }
}

/// The error that stands for a transport failure: a request error with the
/// status where the exchange itself failed, else a decode error, else an
/// internal one; a failure of no known stage is internal and says so.
pub open spec fn transport_error(failure: TransportFailureView) -> ErrorView {
    if failure.concerns_request() {
        ErrorView::Request(
            ErrorContextView {
                message: failure.message,
                url: failure.url,
                value: None,
                extra: failure.status,
            },
        )
    } else if failure.is_decode {
        ErrorView::Decode(
            ErrorContextView { message: failure.message, url: failure.url, value: None, extra: None },
        )
    } else if failure.is_builder {
        ErrorView::Internal(
            ErrorContextView { message: failure.message, url: failure.url, value: None, extra: None },
        )
    } else {
        ErrorView::Internal(
            ErrorContextView {
                message: "Could not determine request error type - "@ + failure.message,
                url: None,
                value: None,
                extra: None,
            },
        )
    }
}

impl Error {
    /// The error on one line.
    pub fn to_string(&self) -> (r: String)
        ensures
            r@ == self@.line(),
    {
        match self {
            Error::Internal(context) => context.to_string(),
            Error::Request(context) => context.to_string(),
            Error::Decode(context) => context.to_string(),
            Error::Authentication(context) => context.to_string(),
            Error::Input(context) => context.to_string(),
            Error::Block(context) => context.to_string(),
        }
    }

    /// The decode error for a document that did not parse: its message is the
    /// parser's.
    pub fn from_parse_failure(failure: crate::json::ParseFailure) -> (r: Error)
        ensures
            r@ == ErrorView::Decode(
                ErrorContextView {
                    message: failure@.message,
                    url: None,
                    value: None,
                    extra: None,
                },
            ),
    {
        Error::Decode(
            ErrorContext { message: failure.message, url: None, value: None, extra: None },
        )
    }

    /// The error for a request that the transport layer could not carry out.
    pub fn from_transport(failure: TransportFailure) -> (r: Error)
        ensures
            r@ == transport_error(failure@),
    {
        let concerns_request = failure.is_request || failure.is_redirect || failure.is_timeout
            || failure.is_connect || failure.is_body || failure.is_status;
        if concerns_request {
            Error::Request(
                ErrorContext {
                    message: failure.message,
                    url: failure.url,
                    value: None,
                    extra: failure.status,
                },
            )
        } else if failure.is_decode {
            Error::Decode(
                ErrorContext { message: failure.message, url: failure.url, value: None, extra: None },
            )
        } else if failure.is_builder {
            Error::Internal(
                ErrorContext { message: failure.message, url: failure.url, value: None, extra: None },
            )
        } else {
            let message = String::from_str("Could not determine request error type - ").concat(
                failure.message.as_str(),
            );
            Error::Internal(ErrorContext { message, url: None, value: None, extra: None })
        }
    }
}

} // verus!
