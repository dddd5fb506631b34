//! The errors of the system.

use futures::sync::mpsc;
use vstd::prelude::*;

pub use crate::exception::{FromPendingJsapiException, JsException};

use crate::exception::{
    converted, CResult, ConversionResult, FromJSValConvertible, JsExceptionView, ThrownValue,
    ThrownValueView,
};

verus! {

/// The error of a send on a channel whose receiver is gone; its contents are
/// not looked at.
#[verifier::external_type_specification]
#[verifier::external_body]
#[verifier::reject_recursive_types(T)]
pub struct ExSendError<T>(mpsc::SendError<T>);

/// Calls `to_string` on a [`mpsc::SendError`], whose `Display` writes one
/// fixed sentence.
#[verifier::external_body]
fn send_error_to_string(e: &mpsc::SendError<()>) -> (s: String)
    ensures
        s@ == "send failed because receiver is gone"@,
{
    e.to_string()
}

/// Calls `description` on a [`mpsc::SendError`], which returns one fixed
/// sentence.
#[allow(deprecated)]
#[verifier::external_body]
fn send_error_description(e: &mpsc::SendError<()>) -> (s: &str)
    ensures
        s@ == "send failed because receiver is gone"@,
{
    std::error::Error::description(e)
}

/// An error of the operating system or of its input and output, by the texts
/// that describe it.
#[derive(Debug)]
pub struct IoError {
    /// A short description.
    pub description: String,
    /// The full text.
    pub message: String,
}

/// The mathematical value of an [`IoError`].
pub struct IoErrorView {
    pub description: Seq<char>,
    pub message: Seq<char>,
}

impl View for IoError {
    type V = IoErrorView;

    open spec fn view(&self) -> IoErrorView {
        IoErrorView { description: self.description@, message: self.message@ }
    }
}

/// The kind of error that occurred.
#[derive(Debug)]
pub enum ErrorKind {
    /// Some other kind of miscellaneous error, described in the given string.
    Msg(String),
    /// An IO error.
    Io(IoError),
    /// Tried to send a value on a channel when the receiving half was already
    /// dropped.
    SendError(mpsc::SendError<()>),
    /// Could not create a JavaScript runtime.
    CouldNotCreateJavaScriptRuntime,
    /// Could not read a value from a channel.
    CouldNotReadValueFromChannel,
    /// There was an exception in JavaScript code.
    JavaScriptException(JsException),
    /// There was an unhandled, rejected JavaScript promise.
    JavaScriptUnhandledRejectedPromise,
    /// The JavaScript `Promise` that was going to settle this future was
    /// reclaimed by the garbage collector without having been resolved or
    /// rejected.
    JavaScriptPromiseCollectedWithoutSettling,
}

/// The mathematical value of an [`ErrorKind`].
pub enum ErrorKindView {
    Msg(Seq<char>),
    Io(IoErrorView),
    SendError,
    CouldNotCreateJavaScriptRuntime,
    CouldNotReadValueFromChannel,
    JavaScriptException(JsExceptionView),
    JavaScriptUnhandledRejectedPromise,
    JavaScriptPromiseCollectedWithoutSettling,
}

impl View for ErrorKind {
    type V = ErrorKindView;

    open spec fn view(&self) -> ErrorKindView {
        match *self {
            ErrorKind::Msg(s) => ErrorKindView::Msg(s@),
            ErrorKind::Io(e) => ErrorKindView::Io(e@),
            ErrorKind::SendError(_) => ErrorKindView::SendError,
            ErrorKind::CouldNotCreateJavaScriptRuntime => {
                ErrorKindView::CouldNotCreateJavaScriptRuntime
            },
            ErrorKind::CouldNotReadValueFromChannel => ErrorKindView::CouldNotReadValueFromChannel,
            ErrorKind::JavaScriptException(e) => ErrorKindView::JavaScriptException(e@),
            ErrorKind::JavaScriptUnhandledRejectedPromise => {
                ErrorKindView::JavaScriptUnhandledRejectedPromise
            },
            ErrorKind::JavaScriptPromiseCollectedWithoutSettling => {
                ErrorKindView::JavaScriptPromiseCollectedWithoutSettling
            },
        }
    }
}

impl ErrorKindView {
    /// The text shown for an error of this kind.
    pub open spec fn text(self) -> Seq<char> {
        match self {
            ErrorKindView::Msg(s) => s,
            ErrorKindView::Io(e) => e.message,
            ErrorKindView::JavaScriptException(e) => e.text(),
            _ => self.description(),
        }
    }

    /// The short description of an error of this kind.
    pub open spec fn description(self) -> Seq<char> {
        match self {
            ErrorKindView::Msg(s) => s,
            ErrorKindView::Io(e) => e.description,
            ErrorKindView::SendError => "send failed because receiver is gone"@,
            ErrorKindView::CouldNotCreateJavaScriptRuntime => {
                "Could not create a JavaScript Runtime"@
            },
            ErrorKindView::CouldNotReadValueFromChannel => "Could not read a value from a channel"@,
            ErrorKindView::JavaScriptException(_) => "JavaScript exception"@,
            ErrorKindView::JavaScriptUnhandledRejectedPromise => {
                "Unhandled, rejected JavaScript promise"@
            },
            ErrorKindView::JavaScriptPromiseCollectedWithoutSettling => {
                "JavaScript Promise collected without settling"@
            },
        }
    }

    /// The message that keeps of an error its text alone.
    pub open spec fn as_message(self) -> ErrorKindView {
        ErrorKindView::Msg(self.text())
    }
}

impl ErrorKind {
    /// The text shown for an error of this kind.
    pub fn to_string(&self) -> (s: String)
        ensures
            s@ == self@.text(),
    {
        match self {
            ErrorKind::Io(e) => e.message.clone(),
            ErrorKind::SendError(e) => send_error_to_string(e),
            ErrorKind::JavaScriptException(e) => e.to_string(),
            _ => self.description().to_owned(),
        }
    }

    /// A short description of an error of this kind.
    pub fn description(&self) -> (s: &str)
        ensures
            s@ == self@.description(),
    {
        match self {
            ErrorKind::Msg(s) => s.as_str(),
            ErrorKind::Io(e) => e.description.as_str(),
            ErrorKind::SendError(e) => send_error_description(e),
            ErrorKind::CouldNotCreateJavaScriptRuntime => "Could not create a JavaScript Runtime",
            ErrorKind::CouldNotReadValueFromChannel => "Could not read a value from a channel",
            ErrorKind::JavaScriptException(_) => "JavaScript exception",
            ErrorKind::JavaScriptUnhandledRejectedPromise => {
                "Unhandled, rejected JavaScript promise"
            },
            ErrorKind::JavaScriptPromiseCollectedWithoutSettling => {
                "JavaScript Promise collected without settling"
            },
        }
    }
}

/// An error, known by its kind.
#[derive(Debug)]
pub struct Error(pub ErrorKind);

impl View for Error {
    type V = ErrorKindView;

    open spec fn view(&self) -> ErrorKindView {
        self.0@
    }
}

impl Error {
    /// The error of the given kind.
    pub fn from_kind(kind: ErrorKind) -> (e: Error)
        ensures
            e == Error(kind),
    {
        Error(kind)
    }

    /// The kind of the error.
    pub fn kind(&self) -> (kind: &ErrorKind)
        ensures
            *kind == self.0,
    {
        &self.0
    }

    /// The text shown for the error.
    pub fn to_string(&self) -> (s: String)
        ensures
            s@ == self@.text(),
    {
        self.0.to_string()
    }

    /// A short description of the error.
    pub fn description(&self) -> (s: &str)
        ensures
            s@ == self@.description(),
    {
        self.0.description()
    }
}

impl Clone for Error {
    /// Errors of the system and of channels cannot be copied, so what is
    /// cloned is the text of the error.
    fn clone(&self) -> (c: Error)
        ensures
            c@ == self@.as_message(),
    {
        Error::from(self.to_string())
    }
}

impl From<ErrorKind> for Error {
    fn from(kind: ErrorKind) -> (e: Error) {
        Error(kind)
    }
}

impl vstd::std_specs::convert::FromSpecImpl<ErrorKind> for Error {
    open spec fn obeys_from_spec() -> bool {
        true
    }

    open spec fn from_spec(kind: ErrorKind) -> Error {
        Error(kind)
    }
}

impl From<String> for Error {
    fn from(text: String) -> (e: Error) {
        Error(ErrorKind::Msg(text))
    }
}

impl vstd::std_specs::convert::FromSpecImpl<String> for Error {
    open spec fn obeys_from_spec() -> bool {
        true
    }

    open spec fn from_spec(text: String) -> Error {
        Error(ErrorKind::Msg(text))
    }
}

impl From<IoError> for Error {
    fn from(io: IoError) -> (e: Error) {
        Error(ErrorKind::Io(io))
    }
}

impl vstd::std_specs::convert::FromSpecImpl<IoError> for Error {
    open spec fn obeys_from_spec() -> bool {
        true
    }

    open spec fn from_spec(io: IoError) -> Error {
        Error(ErrorKind::Io(io))
    }
}

impl From<mpsc::SendError<()>> for Error {
    fn from(send: mpsc::SendError<()>) -> (e: Error) {
        Error(ErrorKind::SendError(send))
    }
}

impl vstd::std_specs::convert::FromSpecImpl<mpsc::SendError<()>> for Error {
    open spec fn obeys_from_spec() -> bool {
        true
    }

    open spec fn from_spec(send: mpsc::SendError<()>) -> Error {
        Error(ErrorKind::SendError(send))
    }
}

impl From<&str> for Error {
    fn from(text: &str) -> (e: Error)
        ensures
            e@ == ErrorKindView::Msg(text@),
    {
        Error(ErrorKind::Msg(text.to_owned()))
    }
}

/// The text alone does not single out one `String`, so what `from` returns is
/// said by its own clause.
impl vstd::std_specs::convert::FromSpecImpl<&str> for Error {
    open spec fn obeys_from_spec() -> bool {
        false
    }

    open spec fn from_spec(text: &str) -> Error {
        choose|e: Error| e@ == ErrorKindView::Msg(text@)
    }
}

impl FromJSValConvertible for ErrorKind {
    open spec fn converts(val: ThrownValueView, r: CResult<ErrorKind>) -> bool {
        &&& r matches Ok(ConversionResult::Success(kind)) && kind@
            == ErrorKindView::JavaScriptException(val.exception())
        &&& val.report_is_read_faithfully()
    }

    fn from_jsval(val: ThrownValue) -> (r: CResult<ErrorKind>) {
        Ok(ConversionResult::Success(ErrorKind::JavaScriptException(JsException::from_thrown(val))))
    }
}

impl FromPendingJsapiException for ErrorKind {
    open spec fn can_build(val: ThrownValueView) -> bool {
        true
    }

    open spec fn builds(val: ThrownValueView, e: ErrorKind) -> bool {
        &&& e@ == ErrorKindView::JavaScriptException(val.exception())
        &&& val.report_is_read_faithfully()
    }

    fn infallible_from_jsval(val: ThrownValue) -> (e: ErrorKind) {
        converted(val)
    }
}

impl FromJSValConvertible for Error {
    open spec fn converts(val: ThrownValueView, r: CResult<Error>) -> bool {
        &&& r matches Ok(ConversionResult::Success(e)) && e@ == ErrorKindView::JavaScriptException(
            val.exception(),
        )
        &&& val.report_is_read_faithfully()
    }

    fn from_jsval(val: ThrownValue) -> (r: CResult<Error>) {
        let kind = ErrorKind::JavaScriptException(JsException::from_thrown(val));
        Ok(ConversionResult::Success(Error::from_kind(kind)))
    }
}

impl FromPendingJsapiException for Error {
    open spec fn can_build(val: ThrownValueView) -> bool {
        true
    }

    open spec fn builds(val: ThrownValueView, e: Error) -> bool {
        &&& e@ == ErrorKindView::JavaScriptException(val.exception())
        &&& val.report_is_read_faithfully()
    }

    fn infallible_from_jsval(val: ThrownValue) -> (e: Error) {
        converted(val)
    }
}

/// Cloning an error keeps its text, and turns every error into a message; a
/// message is kept as it is.
pub proof fn law_clone_keeps_text(e: ErrorKindView)
    ensures
        e.as_message().text() == e.text(),
        e.as_message().description() == e.text(),
        e.as_message() is Msg,
        e is Msg ==> e.as_message() == e,
{
}

/// What is constructed from a value is what converting it gives.
pub proof fn law_construction_agrees_with_conversion(
    val: ThrownValueView,
    exception: JsException,
    kind: ErrorKind,
    error: Error,
)
    ensures
        JsException::builds(val, exception) <==> JsException::converts(
            val,
            Ok(ConversionResult::Success(exception)),
        ),
        ErrorKind::builds(val, kind) <==> ErrorKind::converts(
            val,
            Ok(ConversionResult::Success(kind)),
        ),
        Error::builds(val, error) <==> Error::converts(val, Ok(ConversionResult::Success(error))),
{
}

/// A clone of a clone is the same as the clone.
pub proof fn law_clone_is_idempotent(e: ErrorKindView)
    ensures
        e.as_message().as_message() == e.as_message(),
{
}

/// Every thrown value converts to an exception, to an error kind and to an
/// error, so that none of them can fail to be built from a pending exception.
/// The three show the same text.
pub proof fn law_thrown_values_always_convert(
    val: ThrownValueView,
    exception: CResult<JsException>,
    kind: CResult<ErrorKind>,
    error: CResult<Error>,
)
    requires
        JsException::converts(val, exception),
        ErrorKind::converts(val, kind),
        Error::converts(val, error),
    ensures
        exception matches Ok(ConversionResult::Success(x)) && x@.text() == val.exception().text(),
        kind matches Ok(ConversionResult::Success(k)) && k@.text() == val.exception().text(),
        error matches Ok(ConversionResult::Success(e)) && e@.text() == val.exception().text(),
        JsException::can_build(val),
        ErrorKind::can_build(val),
        Error::can_build(val),
{
}

} // verus!
