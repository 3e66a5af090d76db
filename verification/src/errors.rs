//! The structured error model.
//!
//! Every fallible path of the gateway yields a [`TextError`]: an optional
//! internal cause for the local logs, an optional context payload, and the
//! message that the client is shown. Only the public message ever reaches the
//! wire.

use vstd::prelude::*;
use vstd::std_specs::convert::FromSpecImpl;
use vstd::string::StringExecFns;

verus! {

/// The classes of failure that a session can meet.
#[derive(Clone, Copy, Debug, PartialEq, Eq, Structural)]
pub enum ErrorKind {
    /// Bad quoting or a line outside the command grammar.
    Parse,
    /// An unknown or invalid login token.
    Auth,
    /// Input that fails a registration check.
    Validation,
    /// A failed write or close on the connection.
    Transport,
    /// The credential store is unavailable or inconsistent.
    Store,
}

impl ErrorKind {
    /// Whether the connection carries on after an error of this kind.
    pub open spec fn recoverable(self) -> bool {
        self != ErrorKind::Transport
    }

    /// Whether the cause of an error of this kind is written to the local log
    /// in full.
    pub open spec fn logged(self) -> bool {
        self == ErrorKind::Transport || self == ErrorKind::Store
    }

    /// Tells whether the session survives the error: every kind but a
    /// transport failure is recovered at the session boundary.
    pub fn is_recoverable(self) -> (r: bool)
        ensures
            r == self.recoverable(),
    {
        match self {
            ErrorKind::Transport => false,
            _ => true,
        }
    }

    /// Tells whether the cause is to be logged with full detail.
    pub fn is_logged(self) -> (r: bool)
        ensures
            r == self.logged(),
    {
        match self {
            ErrorKind::Transport | ErrorKind::Store => true,
            _ => false,
        }
    }
}

/// The internal cause of a failure: its class and a diagnostic note.
///
/// A cause is for the local logs. No rendering of an error reads it.
#[derive(Debug, PartialEq, Eq)]
pub struct ErrorCause {
    pub kind: ErrorKind,
    pub detail: String,
}

/// The mathematical value of an [`ErrorCause`].
pub struct ErrorCauseView {
    pub kind: ErrorKind,
    pub detail: Seq<char>,
}

impl View for ErrorCause {
    type V = ErrorCauseView;

    open spec fn view(&self) -> ErrorCauseView {
        ErrorCauseView { kind: self.kind, detail: self.detail@ }
    }
}

impl ErrorCause {
    /// A cause of the given class with a diagnostic note.
    pub fn new(kind: ErrorKind, detail: &str) -> (r: ErrorCause)
        ensures
            r@ == (ErrorCauseView { kind, detail: detail@ }),
    {
        ErrorCause { kind, detail: String::from_str(detail) }
    }
}

/// The message shown when an error carries no public message of its own.
pub open spec fn generic_message() -> Seq<char> {
    "AN INTERNAL ERROR OCCURRED! PLEASE CONTACT m1nt_"@
}

/// What precedes the public message in the standard rendering.
pub open spec fn error_prefix() -> Seq<char> {
    "error: "@
}

/// What ends every rendering.
pub open spec fn error_suffix() -> Seq<char> {
    "\n\n"@
}

/// The mathematical value of a [`TextError`].
pub struct TextErrorView<S> {
    /// The internal cause, if one was recorded.
    pub error: Option<ErrorCauseView>,
    /// The context payload, if one was attached.
    pub extra_data: Option<S>,
    /// The public message, if one was set.
    pub public_error_message: Option<Seq<char>>,
    /// Whether the rendering leaves out the standard prefix.
    pub omit_prefix: bool,
}

impl<S> TextErrorView<S> {
    /// The error with nothing set.
    pub open spec fn empty() -> TextErrorView<S> {
        TextErrorView {
            error: None,
            extra_data: None,
            public_error_message: None,
            omit_prefix: false,
        }
    }

    /// The class of the failure, known where a cause was recorded.
    pub open spec fn kind(self) -> Option<ErrorKind> {
        match self.error {
            Some(cause) => Some(cause.kind),
            None => None,
        }
    }

    /// The message that the client is shown.
    pub open spec fn public_message(self) -> Seq<char> {
        match self.public_error_message {
            Some(message) => message,
            None => generic_message(),
        }
    }

    /// The text that goes on the wire.
    pub open spec fn rendering(self) -> Seq<char> {
        if self.omit_prefix {
            self.public_message() + error_suffix()
        } else {
            error_prefix() + self.public_message() + error_suffix()
        }
    }
}

impl TextErrorView<()> {
    /// An error with a cause of class `kind` that shows the client `message`.
    pub open spec fn failure(kind: ErrorKind, detail: Seq<char>, message: Seq<char>) -> Self {
        TextErrorView {
            error: Some(ErrorCauseView { kind, detail }),
            extra_data: None,
            public_error_message: Some(message),
            omit_prefix: false,
        }
    }

    /// An error with a cause of class `kind` that shows the client the
    /// generic phrase.
    pub open spec fn fault(kind: ErrorKind, detail: Seq<char>) -> Self {
        TextErrorView {
            error: Some(ErrorCauseView { kind, detail }),
            extra_data: None,
            public_error_message: None,
            omit_prefix: false,
        }
    }
}

/// An error of the gateway.
///
/// `S` is the type of the context payload.
#[derive(Debug)]
pub struct TextError<S = ()> {
    error: Option<ErrorCause>,
    extra_data: Option<Box<S>>,
    public_error_message: Option<String>,
    omit_prefix: bool,
}

impl<S> View for TextError<S> {
    type V = TextErrorView<S>;

    closed spec fn view(&self) -> TextErrorView<S> {
        TextErrorView {
            error: match self.error {
                Some(cause) => Some(cause@),
                None => None,
            },
            extra_data: match self.extra_data {
                Some(data) => Some(*data),
                None => None,
            },
            public_error_message: match self.public_error_message {
                Some(message) => Some(message@),
                None => None,
            },
            omit_prefix: self.omit_prefix,
        }
    }
}

impl<S> TextError<S> {
    /// Records the internal cause, for the local logs only.
    pub fn set_error(self, error: ErrorCause) -> (r: Self)
        ensures
            r@ == (TextErrorView { error: Some(error@), ..self@ }),
    {
        Self { error: Some(error), ..self }
    }

    /// Attaches a context payload, replacing the one that was there.
    pub fn set_error_data<NewS>(self, extra_data: NewS) -> (r: TextError<NewS>)
        ensures
            r@ == (TextErrorView {
                error: self@.error,
                extra_data: Some(extra_data),
                public_error_message: self@.public_error_message,
                omit_prefix: self@.omit_prefix,
            }),
    {
        TextError {
            extra_data: Some(Box::new(extra_data)),
            error: self.error,
            public_error_message: self.public_error_message,
            omit_prefix: self.omit_prefix,
        }
    }

    /// Sets the message that the client is shown.
    pub fn set_public_error_message(self, public_error_message: &str) -> (r: Self)
        ensures
            r@ == (TextErrorView {
                public_error_message: Some(public_error_message@),
                ..self@
            }),
    {
        Self { public_error_message: Some(String::from_str(public_error_message)), ..self }
    }

    /// Chooses whether the rendering leaves out the standard prefix, for a
    /// message that is a self-contained block already.
    pub fn set_omit_prefix(self, omit_prefix: bool) -> (r: Self)
        ensures
            r@ == (TextErrorView { omit_prefix, ..self@ }),
    {
        Self { omit_prefix, ..self }
    }

    /// The message that the client is shown: the one that was set, or else the
    /// generic phrase.
    pub fn public_error_message(&self) -> (r: &str)
        ensures
            r@ == self@.public_message(),
    {
        match &self.public_error_message {
            Some(public_error_message) => public_error_message.as_str(),
            None => "AN INTERNAL ERROR OCCURRED! PLEASE CONTACT m1nt_",
        }
    }

    /// The internal cause, if one was recorded.
    pub fn error(&self) -> (r: Option<&ErrorCause>)
        ensures
            match r {
                Some(cause) => self@.error == Some(cause@),
                None => self@.error.is_none(),
            },
    {
        self.error.as_ref()
    }

    /// The class of the failure, known where a cause was recorded.
    pub fn kind(&self) -> (r: Option<ErrorKind>)
        ensures
            r == self@.kind(),
    {
        match &self.error {
            Some(cause) => Some(cause.kind),
            None => None,
        }
    }

    /// The context payload, if one was attached.
    pub fn extra_data(&self) -> (r: Option<&S>)
        ensures
            match r {
                Some(data) => self@.extra_data == Some(*data),
                None => self@.extra_data.is_none(),
            },
    {
        match &self.extra_data {
            Some(data) => Some(&**data),
            None => None,
        }
    }

    /// Whether the rendering leaves out the standard prefix.
    pub fn omits_prefix(&self) -> (r: bool)
        ensures
            r == self@.omit_prefix,
    {
        self.omit_prefix
    }

    /// Renders the error for the wire: the prefix unless it is left out, the
    /// public message, and a blank line.
    pub fn to_string(&self) -> (r: String)
        ensures
            r@ == self@.rendering(),
    {
        let mut text = if self.omit_prefix {
            String::new()
        } else {
            String::from_str("error: ")
        };
        text.append(self.public_error_message());
        text.append("\n\n");
        text
    }
}

impl TextError<()> {
    /// An error with a cause of class `kind` that shows the client `message`.
    pub fn failure(kind: ErrorKind, detail: &str, message: &str) -> (e: Self)
        ensures
            e@ == TextErrorView::failure(kind, detail@, message@),
    {
        TextError::from(ErrorCause::new(kind, detail)).set_public_error_message(message)
    }

    /// An error with a cause of class `kind` that shows the client the
    /// generic phrase. This is how a fault of the transport or of the
    /// credential store is reported: its detail stays in the local log.
    pub fn fault(kind: ErrorKind, detail: &str) -> (e: Self)
        ensures
            e@ == TextErrorView::fault(kind, detail@),
    {
        TextError::from(ErrorCause::new(kind, detail))
    }
}

impl<S> Default for TextError<S> {
    /// The error with nothing set: it renders as the generic phrase.
    fn default() -> (r: Self)
        ensures
            r@ == TextErrorView::<S>::empty(),
    {
        Self { error: None, extra_data: None, public_error_message: None, omit_prefix: false }
    }
}

impl<S> From<ErrorCause> for TextError<S> {
    /// An error that records `error` as its cause and shows the client the
    /// generic phrase.
    fn from(error: ErrorCause) -> (r: Self)
        ensures
            r@ == (TextErrorView { error: Some(error@), ..TextErrorView::<S>::empty() }),
    {
        Self { error: Some(error), ..Self::default() }
    }
}

impl<S> FromSpecImpl<ErrorCause> for TextError<S> {
    open spec fn obeys_from_spec() -> bool {
        true
    }

    closed spec fn from_spec(error: ErrorCause) -> Self {
        TextError {
            error: Some(error),
            extra_data: None,
            public_error_message: None,
            omit_prefix: false,
        }
    }
}

/// Turns a failure into a [`TextError`] with a public message.
pub trait IntoTextError<T>: Sized {
    /// The value carried on success.
    spec fn success(self) -> Option<T>;

    /// The cause carried on failure.
    spec fn failure(self) -> Option<ErrorCauseView>;

    /// Hands a success through. A failure becomes an error that records the
    /// cause and shows the client `message`.
    fn text_error(self, message: &str) -> (r: core::result::Result<T, TextError>)
        ensures
            match r {
                Ok(value) => self.success() == Some(value),
                Err(error) => self.success().is_none() && error@ == (TextErrorView::<()> {
                    error: self.failure(),
                    extra_data: None,
                    public_error_message: Some(message@),
                    omit_prefix: false,
                }),
            },
    ;
}

impl<T> IntoTextError<T> for Result<T, ErrorCause> {
    open spec fn success(self) -> Option<T> {
        match self {
            Ok(value) => Some(value),
            Err(_) => None,
        }
    }

    open spec fn failure(self) -> Option<ErrorCauseView> {
        match self {
            Ok(_) => None,
            Err(cause) => Some(cause@),
        }
    }

    fn text_error(self, message: &str) -> (r: core::result::Result<T, TextError>) {
        match self {
            Ok(value) => Ok(value),
            Err(cause) => Err(TextError::from(cause).set_public_error_message(message)),
        }
    }
}

/// The rendering shows the public message and nothing else: two errors that
/// agree on the public message and on the prefix flag render alike, whatever
/// their causes and payloads.
pub proof fn rendering_hides_cause<S, R>(a: TextErrorView<S>, b: TextErrorView<R>)
    requires
        a.public_error_message == b.public_error_message,
        a.omit_prefix == b.omit_prefix,
    ensures
        a.rendering() == b.rendering(),
{
}

} // verus!
