//! JavaScript exceptions and what can be read from a thrown value.

use vstd::prelude::*;

use crate::text::{push_decimal, string_from_utf8_lossy};

verus! {

/// An exception that was thrown in JavaScript, or a promise was rejected with.
#[derive(Debug)]
pub enum JsException {
    /// The value thrown or rejected was not an `Error` object, so we
    /// stringified it into this value.
    Stringified(String),
    /// The value thrown or rejected was an `Error` object.
    Error {
        /// The error message.
        message: String,
        /// The JavaScript filename, if any.
        filename: Option<String>,
        /// The line number the error originated on.
        line: u32,
        /// The column number the error originated on.
        column: u32,
        /// The JavaScript stack when the error was created, if any.
        stack: Option<String>,
    },
}

/// The mathematical value of a [`JsException`].
pub enum JsExceptionView {
    Stringified(Seq<char>),
    Error {
        message: Seq<char>,
        filename: Option<Seq<char>>,
        line: nat,
        column: nat,
        stack: Option<Seq<char>>,
    },
}

/// The text in `s`, if any.
pub open spec fn text_in(s: Option<String>) -> Option<Seq<char>> {
    match s {
        Some(t) => Some(t@),
        None => None,
    }
}

/// A copy of `s`.
fn copy_of(s: &Option<String>) -> (c: Option<String>)
    ensures
        c == *s,
{
    match s {
        Some(t) => Some(t.clone()),
        None => None,
    }
}

impl Clone for JsException {
    fn clone(&self) -> (c: JsException)
        ensures
            c == *self,
    {
        match self {
            JsException::Stringified(s) => JsException::Stringified(s.clone()),
            JsException::Error { message, filename, line, column, stack } => JsException::Error {
                message: message.clone(),
                filename: copy_of(filename),
                line: *line,
                column: *column,
                stack: copy_of(stack),
            },
        }
    }
}

impl View for JsException {
    type V = JsExceptionView;

    open spec fn view(&self) -> JsExceptionView {
        match *self {
            JsException::Stringified(s) => JsExceptionView::Stringified(s@),
            JsException::Error { message, filename, line, column, stack } => JsExceptionView::Error {
                message: message@,
                filename: text_in(filename),
                line: line as nat,
                column: column as nat,
                stack: text_in(stack),
            },
        }
    }
}

impl JsExceptionView {
    /// The text shown for the exception.
    ///
    /// A stringified value is shown as it is. An `Error` object is shown as
    /// `filename:line:column: message`, followed after an empty line by its
    /// stack; a filename or a stack that is not known is left out together
    /// with what sets it apart.
    pub open spec fn text(self) -> Seq<char> {
        match self {
            JsExceptionView::Stringified(s) => s,
            JsExceptionView::Error { message, filename, line, column, stack } => {
                let place = match filename {
                    Some(f) => f + ":"@,
                    None => Seq::empty(),
                };
                let trace = match stack {
                    Some(t) => "\n\nStack:\n"@ + t,
                    None => Seq::empty(),
                };
                place + crate::text::decimal(line) + ":"@ + crate::text::decimal(column) + ": "@
                    + message + trace
            },
        }
    }
}

impl JsException {
    /// The text shown for the exception.
    pub fn to_string(&self) -> (s: String)
        ensures
            s@ == self@.text(),
    {
        let mut out = String::new();
        match self {
            JsException::Stringified(s) => {
                out.append(s.as_str());
            },
            JsException::Error { message, filename, line, column, stack } => {
                if let Some(filename) = filename {
                    out.append(filename.as_str());
                    out.append(":");
                }
                push_decimal(&mut out, *line);
                out.append(":");
                push_decimal(&mut out, *column);
                out.append(": ");
                out.append(message.as_str());
                if let Some(stack) = stack {
                    out.append("\n\nStack:\n");
                    out.append(stack.as_str());
                }
            },
        }
        assert(out@ =~= self@.text());
        out
    }
}

/// What converting a JavaScript value to a value of type `T` gave.
#[derive(Debug)]
pub enum ConversionResult<T> {
    /// The value could be converted.
    Success(T),
    /// The value cannot be converted, for the reason given.
    Failure(String),
}

/// What converting a JavaScript value gave, or `Err` where the conversion
/// itself raised an exception.
pub type CResult<T> = Result<ConversionResult<T>, ()>;

/// The mathematical value of a conversion to a string.
pub enum StringConversion {
    Success(Seq<char>),
    Failure(Seq<char>),
    Raised,
}

/// The mathematical value of `c`.
pub open spec fn conversion_view(c: CResult<String>) -> StringConversion {
    match c {
        Ok(ConversionResult::Success(s)) => StringConversion::Success(s@),
        Ok(ConversionResult::Failure(why)) => StringConversion::Failure(why@),
        Err(_) => StringConversion::Raised,
    }
}

impl StringConversion {
    /// The text that stands for a thrown value which is no `Error` object:
    /// its string form, or a remark in angle brackets where it has none.
    pub open spec fn or_remark(self) -> Seq<char> {
        match self {
            StringConversion::Success(s) => s,
            StringConversion::Failure(why) => "<could not convert error value to string: "@ + why
                + ">"@,
            StringConversion::Raised => "<could not convert error value to string>"@,
        }
    }

    /// The text, if the conversion succeeded.
    pub open spec fn success(self) -> Option<Seq<char>> {
        match self {
            StringConversion::Success(s) => Some(s),
            _ => None,
        }
    }
}

/// What the JavaScript engine recorded about an `Error` object. The engine
/// keeps texts as bytes, which need not be well-formed UTF-8.
#[derive(Debug)]
pub struct ErrorReport {
    /// The error message.
    pub message: Vec<u8>,
    /// The JavaScript filename, if any.
    pub filename: Option<Vec<u8>>,
    /// The line number the error originated on.
    pub line: u32,
    /// The column number the error originated on.
    pub column: u32,
}

/// The mathematical value of an [`ErrorReport`].
pub struct ErrorReportView {
    pub message: Seq<u8>,
    pub filename: Option<Seq<u8>>,
    pub line: nat,
    pub column: nat,
}

impl View for ErrorReport {
    type V = ErrorReportView;

    open spec fn view(&self) -> ErrorReportView {
        ErrorReportView {
            message: self.message@,
            filename: match self.filename {
                Some(f) => Some(f@),
                None => None,
            },
            line: self.line as nat,
            column: self.column as nat,
        }
    }
}

/// What the JavaScript engine had to say about a thrown value.
#[derive(Debug)]
pub enum ThrownValue {
    /// The engine keeps no report for the value, so it was converted to a
    /// string.
    Plain(CResult<String>),
    /// The value is an `Error` object.
    ErrorObject {
        /// The report that the engine keeps for it.
        report: ErrorReport,
        /// Its stack, converted to a string, if it has one.
        stack: Option<CResult<String>>,
    },
}

/// The mathematical value of a [`ThrownValue`].
pub enum ThrownValueView {
    Plain(StringConversion),
    ErrorObject { report: ErrorReportView, stack: Option<StringConversion> },
}

/// The mathematical value of `stack`.
pub open spec fn stack_view(stack: Option<CResult<String>>) -> Option<StringConversion> {
    match stack {
        Some(c) => Some(conversion_view(c)),
        None => None,
    }
}

impl View for ThrownValue {
    type V = ThrownValueView;

    open spec fn view(&self) -> ThrownValueView {
        match *self {
            ThrownValue::Plain(c) => ThrownValueView::Plain(conversion_view(c)),
            ThrownValue::ErrorObject { report, stack } => ThrownValueView::ErrorObject {
                report: report@,
                stack: stack_view(stack),
            },
        }
    }
}

impl ThrownValueView {
    /// The exception that a thrown value amounts to.
    pub open spec fn exception(self) -> JsExceptionView {
        match self {
            ThrownValueView::Plain(c) => JsExceptionView::Stringified(c.or_remark()),
            ThrownValueView::ErrorObject { report, stack } => JsExceptionView::Error {
                message: crate::text::utf8_lossy(report.message),
                filename: match report.filename {
                    Some(f) => Some(crate::text::utf8_lossy(f)),
                    None => None,
                },
                line: report.line,
                column: report.column,
                stack: match stack {
                    Some(c) => c.success(),
                    None => None,
                },
            },
        }
    }
}

/// Whether `bytes` are read as they are if they are well-formed UTF-8.
pub open spec fn is_read_faithfully(bytes: Seq<u8>) -> bool {
    vstd::utf8::valid_utf8(bytes) ==> crate::text::utf8_lossy(bytes) == vstd::utf8::decode_utf8(
        bytes,
    )
}

impl ThrownValueView {
    /// Whether the texts of the value's report, if it has one, are read as
    /// they are wherever they are well-formed UTF-8.
    pub open spec fn report_is_read_faithfully(self) -> bool {
        self matches ThrownValueView::ErrorObject { report, .. } ==> {
            &&& is_read_faithfully(report.message)
            &&& report.filename matches Some(f) ==> is_read_faithfully(f)
        }
    }
}

impl ThrownValueView {
    /// Whether a conversion raised an exception while the value was read.
    pub open spec fn raised(self) -> bool {
        match self {
            ThrownValueView::Plain(c) => c is Raised,
            ThrownValueView::ErrorObject { stack, .. } => stack == Some(StringConversion::Raised),
        }
    }
}

impl ThrownValue {
    /// Whether a conversion raised an exception while the value was read.
    pub fn raised(&self) -> (b: bool)
        ensures
            b == self@.raised(),
    {
        match self {
            ThrownValue::Plain(Err(())) => true,
            ThrownValue::ErrorObject { stack: Some(Err(())), .. } => true,
            _ => false,
        }
    }
}

/// Types that a thrown JavaScript value can be converted to.
pub trait FromJSValConvertible: Sized {
    /// Whether `r` is what converting `val` gives.
    spec fn converts(val: ThrownValueView, r: CResult<Self>) -> bool;

    /// Converts `val`.
    fn from_jsval(val: ThrownValue) -> (r: CResult<Self>)
        ensures
            Self::converts(val@, r),
    ;
}

/// Converts a value whose conversion cannot fail. This is how such a type is
/// constructed from a pending exception.
pub fn converted<T: FromJSValConvertible>(val: ThrownValue) -> (v: T)
    requires
        forall|r: CResult<T>| #[trigger]
            T::converts(val@, r) ==> r is Ok && r->Ok_0 is Success,
    ensures
        T::converts(val@, Ok(ConversionResult::Success(v))),
{
    match T::from_jsval(val) {
        Ok(ConversionResult::Success(v)) => v,
        _ => vstd::pervasive::unreached(),
    }
}

/// A trait for structured error types that can be constructed from a pending
/// exception.
pub trait FromPendingJsapiException: FromJSValConvertible {
    /// Whether `Self` can be constructed from `val`.
    spec fn can_build(val: ThrownValueView) -> bool;

    /// Whether `e` is what is constructed from `val`.
    spec fn builds(val: ThrownValueView, e: Self) -> bool;

    /// Constructs `Self` from the given JavaScript value.
    ///
    /// Where the conversion to `Self` cannot fail, this gives what it gives,
    /// as [`converted`] does. Where it can, this has to find a value of `Self`
    /// all the same.
    fn infallible_from_jsval(val: ThrownValue) -> (e: Self)
        requires
            Self::can_build(val@),
        ensures
            Self::builds(val@, e),
            (forall|r: CResult<Self>| #[trigger]
                Self::converts(val@, r) ==> r is Ok && r->Ok_0 is Success) ==> Self::converts(
                val@,
                Ok(ConversionResult::Success(e)),
            ),
    ;

    /// If an exception is pending, constructs `Self` from it. Otherwise,
    /// returns `None`.
    fn take_pending(pending: Option<ThrownValue>) -> (e: Option<Self>)
        requires
            pending matches Some(val) ==> Self::can_build(val@),
        ensures
            match pending {
                Some(val) => e matches Some(e) && Self::builds(val@, e) && ((forall|
                    r: CResult<Self>,
                | #[trigger]
                    Self::converts(val@, r) ==> r is Ok && r->Ok_0 is Success) ==> Self::converts(
                    val@,
                    Ok(ConversionResult::Success(e)),
                )),
                None => e is None,
            },
    {
        match pending {
            Some(val) => Some(Self::infallible_from_jsval(val)),
            None => None,
        }
    }
}

impl JsException {
    /// The exception for a thrown value that is no `Error` object, given its
    /// conversion to a string.
    pub fn from_string_conversion(conversion: CResult<String>) -> (e: JsException)
        ensures
            e@ == JsExceptionView::Stringified(conversion_view(conversion).or_remark()),
    {
        let stringified = match conversion {
            Ok(ConversionResult::Success(s)) => s,
            Ok(ConversionResult::Failure(why)) => {
                let mut remark = "<could not convert error value to string: ".to_owned();
                remark.append(why.as_str());
                remark.append(">");
                remark
            },
            Err(()) => "<could not convert error value to string>".to_owned(),
        };
        JsException::Stringified(stringified)
    }

    /// The exception for an `Error` object, given the texts of its report and
    /// the conversion of its stack to a string. A stack that could not be
    /// converted is left out.
    pub fn from_report_texts(
        message: String,
        filename: Option<String>,
        line: u32,
        column: u32,
        stack: Option<CResult<String>>,
    ) -> (e: JsException)
        ensures
            e@ == (JsExceptionView::Error {
                message: message@,
                filename: text_in(filename),
                line: line as nat,
                column: column as nat,
                stack: match stack_view(stack) {
                    Some(c) => c.success(),
                    None => None,
                },
            }),
    {
        let stack = match stack {
            Some(Ok(ConversionResult::Success(s))) => Some(s),
            _ => None,
        };
        JsException::Error { message, filename, line, column, stack }
    }
}

impl JsException {
    /// The exception that a thrown value amounts to.
    pub fn from_thrown(val: ThrownValue) -> (e: JsException)
        ensures
            e@ == val@.exception(),
            val@.report_is_read_faithfully(),
    {
        match val {
            ThrownValue::Plain(conversion) => JsException::from_string_conversion(conversion),
            ThrownValue::ErrorObject { report, stack } => {
                let filename = match &report.filename {
                    Some(f) => Some(string_from_utf8_lossy(f.as_slice())),
                    None => None,
                };
                let message = string_from_utf8_lossy(report.message.as_slice());
                JsException::from_report_texts(message, filename, report.line, report.column, stack)
            },
        }
    }
}

impl FromJSValConvertible for JsException {
    open spec fn converts(val: ThrownValueView, r: CResult<JsException>) -> bool {
        &&& r matches Ok(ConversionResult::Success(e)) && e@ == val.exception()
        &&& val.report_is_read_faithfully()
    }

    fn from_jsval(val: ThrownValue) -> (r: CResult<JsException>) {
        Ok(ConversionResult::Success(JsException::from_thrown(val)))
    }
}

impl FromPendingJsapiException for JsException {
    open spec fn can_build(val: ThrownValueView) -> bool {
        true
    }

    open spec fn builds(val: ThrownValueView, e: JsException) -> bool {
        &&& e@ == val.exception()
        &&& val.report_is_read_faithfully()
    }

    fn infallible_from_jsval(val: ThrownValue) -> (e: JsException) {
        converted(val)
    }
}

} // verus!
