//! The failures a call can end in.
//!
//! A [`KuzzleError`] is reported by the server inside a response. An
//! [`SdkError`] is raised by the client when an argument is refused, before
//! anything is sent. A [`ProtocolError`] is raised by a transport that could
//! not turn a request into a response. [`QueryError`] is any one of the three.
use crate::text::{decimal, push_decimal};
use vstd::prelude::*;
use vstd::string::*;

verus! {

/// The view of an optional text.
pub open spec fn text_of(text: Option<String>) -> Option<Seq<char>> {
    match text {
        Some(t) => Some(t@),
        None => None,
    }
}

/// An error of the Kuzzle backend, as found in a response to a request that
/// failed.
#[derive(Debug, PartialEq)]
pub struct KuzzleError {
    status: Option<u16>,
    message: String,
    stack: Option<String>,
}

/// What a [`KuzzleError`] holds.
pub struct KuzzleErrorView {
    pub status: Option<u16>,
    pub message: Seq<char>,
    pub stack: Option<Seq<char>>,
}

impl View for KuzzleError {
    type V = KuzzleErrorView;

    closed spec fn view(&self) -> KuzzleErrorView {
        KuzzleErrorView {
            status: self.status,
            message: self.message@,
            stack: text_of(self.stack),
        }
    }
}

/// The name under which the backend files an error of this status.
pub open spec fn description_of(status: Option<u16>) -> Seq<char> {
    match status {
        None => "UnidentifiedError"@,
        Some(code) => if code == 206 {
            "PartialError"@
        } else if code == 400 {
            "BadRequestError"@
        } else if code == 401 {
            "UnauthorizedError"@
        } else if code == 403 {
            "ForbiddenError"@
        } else if code == 404 {
            "NotFoundError"@
        } else if code == 412 {
            "PreconditionError"@
        } else if code == 413 {
            "SizeLimitError"@
        } else if code == 500 {
            "InternalError"@
        } else if code == 503 {
            "ServiceUnavailableError"@
        } else if code == 504 {
            "GatewayTimeoutError"@
        } else {
            "CustomError"@
        },
    }
}

/// How a status is written between the brackets that open a description:
/// in decimal, and as `null` where there is none.
pub open spec fn status_text(status: Option<u16>) -> Seq<char> {
    match status {
        Some(code) => decimal(code as nat),
        None => "null"@,
    }
}

/// The description of a backend error: its status and stack where it has a
/// stack, else its status, its name and its message.
pub open spec fn kuzzle_error_text(error: KuzzleErrorView) -> Seq<char> {
    match error.stack {
        Some(stack) => "["@ + status_text(error.status) + "] "@ + stack,
        None => "["@ + status_text(error.status) + "] "@ + description_of(error.status) + " : "@
            + error.message,
    }
}

impl KuzzleError {
    /// A backend error with the given status and message, and no stack.
    pub fn new(status: Option<u16>, message: &str) -> (r: KuzzleError)
        ensures
            r@ == (KuzzleErrorView { status, message: message@, stack: None }),
    {
        KuzzleError { status, message: message.to_owned(), stack: None }
    }

    /// A backend error with every field given.
    pub fn with_stack(status: Option<u16>, message: String, stack: Option<String>) -> (r:
        KuzzleError)
        ensures
            r@ == (KuzzleErrorView { status, message: message@, stack: text_of(stack) }),
    {
        KuzzleError { status, message, stack }
    }

    pub fn status(&self) -> (r: Option<u16>)
        ensures
            r == self@.status,
    {
        self.status
    }

    pub fn message(&self) -> (r: &String)
        ensures
            r@ == self@.message,
    {
        &self.message
    }

    pub fn stack(&self) -> (r: &Option<String>)
        ensures
            text_of(*r) == self@.stack,
    {
        &self.stack
    }

    /// The name under which the backend files an error of this status.
    pub fn description(&self) -> (r: &'static str)
        ensures
            r@ == description_of(self@.status),
    {
        match self.status {
            None => "UnidentifiedError",
            Some(code) => if code == 206 {
                "PartialError"
            } else if code == 400 {
                "BadRequestError"
            } else if code == 401 {
                "UnauthorizedError"
            } else if code == 403 {
                "ForbiddenError"
            } else if code == 404 {
                "NotFoundError"
            } else if code == 412 {
                "PreconditionError"
            } else if code == 413 {
                "SizeLimitError"
            } else if code == 500 {
                "InternalError"
            } else if code == 503 {
                "ServiceUnavailableError"
            } else if code == 504 {
                "GatewayTimeoutError"
            } else {
                "CustomError"
            },
        }
    }

    /// The description of the error, for display.
    pub fn to_string(&self) -> (r: String)
        ensures
            r@ == kuzzle_error_text(self@),
    {
        let mut out = String::new();
        out.append("[");
        match self.status {
            Some(code) => push_decimal(&mut out, code as u64),
            None => out.append("null"),
        }
        out.append("] ");
        match &self.stack {
            Some(stack) => {
                out.append(stack.as_str());
            },
            None => {
                out.append(self.description());
                out.append(" : ");
                out.append(self.message.as_str());
            },
        }
        assert(out@ =~= kuzzle_error_text(self@));
        out
    }
}

impl Clone for KuzzleError {
    fn clone(&self) -> (r: KuzzleError)
        ensures
            r@ == self@,
    {
        let stack = match &self.stack {
            Some(text) => Some(text.clone()),
            None => None,
        };
        KuzzleError { status: self.status, message: self.message.clone(), stack }
    }
}

/// An error of the client itself: an argument that a function refused.
#[derive(Debug, PartialEq)]
pub struct SdkError {
    cause: String,
    message: String,
}

/// What an [`SdkError`] holds.
pub struct SdkErrorView {
    pub cause: Seq<char>,
    pub message: Seq<char>,
}

impl View for SdkError {
    type V = SdkErrorView;

    closed spec fn view(&self) -> SdkErrorView {
        SdkErrorView { cause: self.cause@, message: self.message@ }
    }
}

/// The description of a client error: its cause in brackets, then its
/// message.
pub open spec fn sdk_error_text(error: SdkErrorView) -> Seq<char> {
    "["@ + error.cause + "] "@ + error.message
}

impl SdkError {
    /// A client error raised by `cause`, the name of a function, with the
    /// given message.
    pub fn new(cause: &str, message: &str) -> (r: SdkError)
        ensures
            r@ == (SdkErrorView { cause: cause@, message: message@ }),
    {
        SdkError { cause: cause.to_owned(), message: message.to_owned() }
    }

    pub fn cause(&self) -> (r: &String)
        ensures
            r@ == self@.cause,
    {
        &self.cause
    }

    pub fn message(&self) -> (r: &String)
        ensures
            r@ == self@.message,
    {
        &self.message
    }

    /// The description of the error, for display.
    pub fn to_string(&self) -> (r: String)
        ensures
            r@ == sdk_error_text(self@),
    {
        let mut out = String::new();
        out.append("[");
        out.append(self.cause.as_str());
        out.append("] ");
        out.append(self.message.as_str());
        assert(out@ =~= sdk_error_text(self@));
        out
    }
}

impl Clone for SdkError {
    fn clone(&self) -> (r: SdkError)
        ensures
            r@ == self@,
    {
        SdkError { cause: self.cause.clone(), message: self.message.clone() }
    }
}

/// A failure of a transport: why a request did not become a response.
#[derive(Debug, PartialEq)]
pub enum ProtocolError {
    /// The route table has no entry for the controller and action.
    UnknownRoute { controller: String, action: String },
    /// The endpoint built for the call is not a URL.
    InvalidUrl { url: String },
    /// The verb of the route is not an HTTP method.
    InvalidVerb { verb: String },
    /// The call was not carried out, or its reply could not be read.
    Network { message: String },
    /// The reply is not a response.
    MalformedReply { message: String },
    /// The transport does not offer the operation.
    Unsupported { operation: String },
    /// The routing document is not a route table.
    InvalidRoutes { message: String },
}

/// What a [`ProtocolError`] holds.
pub enum ProtocolErrorView {
    UnknownRoute { controller: Seq<char>, action: Seq<char> },
    InvalidUrl { url: Seq<char> },
    InvalidVerb { verb: Seq<char> },
    Network { message: Seq<char> },
    MalformedReply { message: Seq<char> },
    Unsupported { operation: Seq<char> },
    InvalidRoutes { message: Seq<char> },
}

impl View for ProtocolError {
    type V = ProtocolErrorView;

    open spec fn view(&self) -> ProtocolErrorView {
        match *self {
            ProtocolError::UnknownRoute { controller, action } => ProtocolErrorView::UnknownRoute {
                controller: controller@,
                action: action@,
            },
            ProtocolError::InvalidUrl { url } => ProtocolErrorView::InvalidUrl { url: url@ },
            ProtocolError::InvalidVerb { verb } => ProtocolErrorView::InvalidVerb { verb: verb@ },
            ProtocolError::Network { message } => ProtocolErrorView::Network { message: message@ },
            ProtocolError::MalformedReply { message } => ProtocolErrorView::MalformedReply {
                message: message@,
            },
            ProtocolError::Unsupported { operation } => ProtocolErrorView::Unsupported {
                operation: operation@,
            },
            ProtocolError::InvalidRoutes { message } => ProtocolErrorView::InvalidRoutes {
                message: message@,
            },
        }
    }
}

/// The description of a transport failure.
pub open spec fn protocol_error_text(error: ProtocolErrorView) -> Seq<char> {
    match error {
        ProtocolErrorView::UnknownRoute { controller, action } => "[UnknownRoute] "@ + controller
            + ":"@ + action,
        ProtocolErrorView::InvalidUrl { url } => "[InvalidUrl] "@ + url,
        ProtocolErrorView::InvalidVerb { verb } => "[InvalidVerb] "@ + verb,
        ProtocolErrorView::Network { message } => "[Network] "@ + message,
        ProtocolErrorView::MalformedReply { message } => "[MalformedReply] "@ + message,
        ProtocolErrorView::Unsupported { operation } => "[Unsupported] "@ + operation,
        ProtocolErrorView::InvalidRoutes { message } => "[InvalidRoutes] "@ + message,
    }
}

impl ProtocolError {
    /// The description of the failure, for display: its kind in brackets,
    /// then what it is about.
    pub fn to_string(&self) -> (r: String)
        ensures
            r@ == protocol_error_text(self@),
    {
        let mut out = String::new();
        match self {
            ProtocolError::UnknownRoute { controller, action } => {
                out.append("[UnknownRoute] ");
                out.append(controller.as_str());
                out.append(":");
                out.append(action.as_str());
            },
            ProtocolError::InvalidUrl { url } => {
                out.append("[InvalidUrl] ");
                out.append(url.as_str());
            },
            ProtocolError::InvalidVerb { verb } => {
                out.append("[InvalidVerb] ");
                out.append(verb.as_str());
            },
            ProtocolError::Network { message } => {
                out.append("[Network] ");
                out.append(message.as_str());
            },
            ProtocolError::MalformedReply { message } => {
                out.append("[MalformedReply] ");
                out.append(message.as_str());
            },
            ProtocolError::Unsupported { operation } => {
                out.append("[Unsupported] ");
                out.append(operation.as_str());
            },
            ProtocolError::InvalidRoutes { message } => {
                out.append("[InvalidRoutes] ");
                out.append(message.as_str());
            },
        }
        assert(out@ =~= protocol_error_text(self@));
        out
    }
}

/// Any failure of a call made through a controller.
#[derive(Debug, PartialEq)]
pub enum QueryError {
    /// An argument was refused; nothing was sent.
    Sdk(SdkError),
    /// The server answered with an error.
    Kuzzle(KuzzleError),
    /// The transport failed.
    Protocol(ProtocolError),
}

/// What a [`QueryError`] holds.
pub enum QueryErrorView {
    Sdk(SdkErrorView),
    Kuzzle(KuzzleErrorView),
    Protocol(ProtocolErrorView),
}

impl View for QueryError {
    type V = QueryErrorView;

    open spec fn view(&self) -> QueryErrorView {
        match *self {
            QueryError::Sdk(e) => QueryErrorView::Sdk(e@),
            QueryError::Kuzzle(e) => QueryErrorView::Kuzzle(e@),
            QueryError::Protocol(e) => QueryErrorView::Protocol(e@),
        }
    }
}

/// The description of a failure: that of the error it holds.
pub open spec fn query_error_text(error: QueryErrorView) -> Seq<char> {
    match error {
        QueryErrorView::Sdk(e) => sdk_error_text(e),
        QueryErrorView::Kuzzle(e) => kuzzle_error_text(e),
        QueryErrorView::Protocol(e) => protocol_error_text(e),
    }
}

impl QueryError {
    /// The description of the failure, for display.
    pub fn to_string(&self) -> (r: String)
        ensures
            r@ == query_error_text(self@),
    {
        match self {
            QueryError::Sdk(e) => e.to_string(),
            QueryError::Kuzzle(e) => e.to_string(),
            QueryError::Protocol(e) => e.to_string(),
        }
    }
}

} // verus!
