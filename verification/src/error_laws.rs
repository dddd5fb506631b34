//! What the operations on texts, exceptions and errors are for, said of the
//! values that go into a call and of those that come out of it.

use futures::sync::mpsc;
use vstd::prelude::*;

use crate::error::{Error, ErrorKind, IoError};
use crate::exception::{
    CResult, ConversionResult, ErrorReport, FromJSValConvertible, FromPendingJsapiException,
    JsException, ThrownValue,
};

verus! {

/// The number that a text of decimal digits stands for.
pub open spec fn number(digits: Seq<char>) -> int
    decreases digits.len(),
{
    if digits.len() == 0 {
        0
    } else {
        10 * number(digits.drop_last()) + (digits.last() as int - '0' as int)
    }
}

/// The decimal notation of a number consists of digits, stands for that number,
/// and does not begin with a zero, unless it is the digit zero alone.
pub proof fn law_decimal_stands_for_its_number(n: nat)
    ensures
        number(crate::text::decimal(n)) == n,
        crate::text::decimal(n).len() > 0,
        forall|i: int|
            0 <= i < crate::text::decimal(n).len() ==> '0' <= #[trigger] crate::text::decimal(n)[i]
                <= '9',
        crate::text::decimal(n)[0] == '0' ==> n == 0 && crate::text::decimal(n).len() == 1,
    decreases n,
{
    let text = crate::text::decimal(n);
    reveal_with_fuel(number, 2);
    if n < 10 {
        assert(text.drop_last() =~= Seq::empty());
    } else {
        law_decimal_stands_for_its_number(n / 10);
        assert(text.drop_last() =~= crate::text::decimal(n / 10));
    }
}

/// A stringified value is shown as it is.
pub proof fn law_stringified_value_is_shown_as_it_is(s: String, shown: String)
    requires
        call_ensures(JsException::to_string, (&JsException::Stringified(s),), shown),
    ensures
        shown@ == s@,
{
}

/// An `Error` object is shown as its filename and a colon, if it has a
/// filename, its line, a colon, its column, a colon and a blank, its message,
/// and its stack under a heading, if it has a stack.
pub proof fn law_error_object_is_shown_with_its_place(
    message: String,
    filename: Option<String>,
    line: u32,
    column: u32,
    stack: Option<String>,
    shown: String,
)
    requires
        call_ensures(
            JsException::to_string,
            (&(JsException::Error { message, filename, line, column, stack }),),
            shown,
        ),
    ensures
        filename is None && stack is None ==> shown@ == crate::text::decimal(line as nat) + ":"@
            + crate::text::decimal(column as nat) + ": "@ + message@,
        filename is Some && stack is None ==> shown@ == filename->0@ + ":"@ + crate::text::decimal(
            line as nat,
        ) + ":"@ + crate::text::decimal(column as nat) + ": "@ + message@,
        filename is None && stack is Some ==> shown@ == crate::text::decimal(line as nat) + ":"@
            + crate::text::decimal(column as nat) + ": "@ + message@ + "\n\nStack:\n"@
            + stack->0@,
        filename is Some && stack is Some ==> shown@ == filename->0@ + ":"@ + crate::text::decimal(
            line as nat,
        ) + ":"@ + crate::text::decimal(column as nat) + ": "@ + message@ + "\n\nStack:\n"@
            + stack->0@,
{
    let l = crate::text::decimal(line as nat);
    let c = crate::text::decimal(column as nat);
    if filename is None && stack is None {
        assert(shown@ =~= l + ":"@ + c + ": "@ + message@);
    } else if stack is None {
        assert(shown@ =~= filename->0@ + ":"@ + l + ":"@ + c + ": "@ + message@);
    } else if filename is None {
        assert(shown@ =~= l + ":"@ + c + ": "@ + message@ + "\n\nStack:\n"@ + stack->0@);
    } else {
        assert(shown@ =~= filename->0@ + ":"@ + l + ":"@ + c + ": "@ + message@ + "\n\nStack:\n"@
            + stack->0@);
    }
}

/// A copy of an exception is that exception.
pub proof fn law_exceptions_are_copied_whole(e: JsException, c: JsException)
    requires
        call_ensures(<JsException as Clone>::clone, (&e,), c),
    ensures
        c == e,
{
}

/// A value that is no `Error` object becomes its string form. Where it has
/// none, a remark in angle brackets says so, with the reason if there is one.
pub proof fn law_plain_values_become_their_string(
    conversion: CResult<String>,
    from_conversion: JsException,
    from_value: JsException,
)
    requires
        call_ensures(JsException::from_string_conversion, (conversion,), from_conversion),
        call_ensures(JsException::from_thrown, (ThrownValue::Plain(conversion),), from_value),
    ensures
        from_conversion matches JsException::Stringified(s) && from_value
            matches JsException::Stringified(t) && s@ == t@ && match conversion {
            Ok(ConversionResult::Success(text)) => s@ == text@,
            Ok(ConversionResult::Failure(why)) => s@
                == "<could not convert error value to string: "@ + why@ + ">"@,
            Err(_) => s@ == "<could not convert error value to string>"@,
        },
{
}

/// An exception made from the texts of a report has each of them in its place.
/// Its stack is the text that the conversion gave, if it gave one.
pub proof fn law_report_texts_are_kept_in_place(
    message: String,
    filename: Option<String>,
    line: u32,
    column: u32,
    stack: Option<CResult<String>>,
    e: JsException,
)
    requires
        call_ensures(
            JsException::from_report_texts,
            (message, filename, line, column, stack),
            e,
        ),
    ensures
        e matches JsException::Error { message: m, filename: f, line: l, column: c, stack: s } && {
            &&& m@ == message@
            &&& f is Some <==> filename is Some
            &&& filename is Some ==> f->0@ == filename->0@
            &&& l == line
            &&& c == column
            &&& match stack {
                Some(Ok(ConversionResult::Success(text))) => s is Some && s->0@ == text@,
                _ => s is None,
            }
        },
{
}

/// The exception made from an `Error` object has the line of its report as its
/// line and the column as its column. Its message and filename are those of
/// the report, decoded; where the bytes are well-formed UTF-8, that is what
/// they encode. Its stack is the text that the conversion gave, if it gave
/// one.
pub proof fn law_error_objects_become_their_report(
    report: ErrorReport,
    stack: Option<CResult<String>>,
    e: JsException,
)
    requires
        call_ensures(JsException::from_thrown, (ThrownValue::ErrorObject { report, stack },), e),
    ensures
        e matches JsException::Error { message: m, filename: f, line: l, column: c, stack: s } && {
            &&& l == report.line
            &&& c == report.column
            &&& m@ == crate::text::utf8_lossy(report.message@)
            &&& vstd::utf8::valid_utf8(report.message@) ==> m@ == vstd::utf8::decode_utf8(
                report.message@,
            )
            &&& f is Some <==> report.filename is Some
            &&& report.filename matches Some(bytes) ==> {
                &&& f->0@ == crate::text::utf8_lossy(bytes@)
                &&& vstd::utf8::valid_utf8(bytes@) ==> f->0@ == vstd::utf8::decode_utf8(bytes@)
            }
            &&& match stack {
                Some(Ok(ConversionResult::Success(text))) => s is Some && s->0@ == text@,
                _ => s is None,
            }
        },
{
    let val = ThrownValue::ErrorObject { report, stack };
    assert(val@.report_is_read_faithfully());
    if let Some(bytes) = report.filename {
        assert(crate::exception::is_read_faithfully(bytes@));
    }
}

/// Whether two exceptions say the same.
pub open spec fn same_exception(a: JsException, b: JsException) -> bool {
    match (a, b) {
        (JsException::Stringified(s), JsException::Stringified(t)) => s@ == t@,
        (
            JsException::Error { message: m, filename: f, line: l, column: c, stack: s },
            JsException::Error { message: n, filename: g, line: k, column: d, stack: t },
        ) => {
            &&& m@ == n@
            &&& f is Some <==> g is Some
            &&& f is Some ==> f->0@ == g->0@
            &&& l == k
            &&& c == d
            &&& s is Some <==> t is Some
            &&& s is Some ==> s->0@ == t->0@
        },
        _ => false,
    }
}

/// Two exceptions with the same mathematical value say the same.
proof fn lemma_same_exception(a: JsException, b: JsException)
    requires
        a@ == b@,
    ensures
        same_exception(a, b),
{
}

/// Whether two errors are of the same kind and say the same.
pub open spec fn same_error(a: Error, b: Error) -> bool {
    match (a.0, b.0) {
        (ErrorKind::Msg(s), ErrorKind::Msg(t)) => s@ == t@,
        (ErrorKind::Io(e), ErrorKind::Io(f)) => {
            &&& e.description@ == f.description@
            &&& e.message@ == f.message@
        },
        (ErrorKind::SendError(_), ErrorKind::SendError(_)) => true,
        (
            ErrorKind::CouldNotCreateJavaScriptRuntime,
            ErrorKind::CouldNotCreateJavaScriptRuntime,
        ) => true,
        (ErrorKind::CouldNotReadValueFromChannel, ErrorKind::CouldNotReadValueFromChannel) => true,
        (ErrorKind::JavaScriptException(e), ErrorKind::JavaScriptException(f)) => same_exception(
            e,
            f,
        ),
        (
            ErrorKind::JavaScriptUnhandledRejectedPromise,
            ErrorKind::JavaScriptUnhandledRejectedPromise,
        ) => true,
        (
            ErrorKind::JavaScriptPromiseCollectedWithoutSettling,
            ErrorKind::JavaScriptPromiseCollectedWithoutSettling,
        ) => true,
        _ => false,
    }
}

/// Two errors with the same mathematical value say the same.
pub(crate) proof fn lemma_same_error(a: Error, b: Error)
    requires
        a@ == b@,
    ensures
        same_error(a, b),
{
}

/// Whichever way an exception is made from a thrown value, it says the same,
/// and it can always be made.
pub proof fn law_exceptions_are_made_in_one_way(
    val: ThrownValue,
    e: JsException,
    converted: CResult<JsException>,
    infallible: JsException,
    taken: Option<JsException>,
)
    requires
        call_ensures(JsException::from_thrown, (val,), e),
        call_ensures(<JsException as FromJSValConvertible>::from_jsval, (val,), converted),
        call_ensures(
            <JsException as FromPendingJsapiException>::infallible_from_jsval,
            (val,),
            infallible,
        ),
        call_ensures(
            <JsException as FromPendingJsapiException>::take_pending,
            (Some(val),),
            taken,
        ),
    ensures
        converted matches Ok(ConversionResult::Success(x)) && same_exception(x, e),
        same_exception(infallible, e),
        taken matches Some(x) && same_exception(x, e),
{
    lemma_same_exception(converted->Ok_0->Success_0, e);
    lemma_same_exception(infallible, e);
    lemma_same_exception(taken->0, e);
}

/// Whichever way an error kind is made from a thrown value, it is that of a
/// JavaScript exception, and the exception is what converting the value to an
/// exception gives.
pub proof fn law_kinds_hold_the_exception(
    val: ThrownValue,
    exception: CResult<JsException>,
    converted: CResult<ErrorKind>,
    infallible: ErrorKind,
    taken: Option<ErrorKind>,
)
    requires
        call_ensures(<JsException as FromJSValConvertible>::from_jsval, (val,), exception),
        call_ensures(<ErrorKind as FromJSValConvertible>::from_jsval, (val,), converted),
        call_ensures(
            <ErrorKind as FromPendingJsapiException>::infallible_from_jsval,
            (val,),
            infallible,
        ),
        call_ensures(<ErrorKind as FromPendingJsapiException>::take_pending, (Some(val),), taken),
    ensures
        exception matches Ok(ConversionResult::Success(e)) && {
            &&& converted matches Ok(ConversionResult::Success(ErrorKind::JavaScriptException(x)))
                && same_exception(x, e)
            &&& infallible matches ErrorKind::JavaScriptException(x) && same_exception(x, e)
            &&& taken matches Some(ErrorKind::JavaScriptException(x)) && same_exception(x, e)
        },
{
    let e = exception->Ok_0->Success_0;
    lemma_same_exception(converted->Ok_0->Success_0->JavaScriptException_0, e);
    lemma_same_exception(infallible->JavaScriptException_0, e);
    lemma_same_exception(taken->0->JavaScriptException_0, e);
}

/// Whichever way an error is made from a thrown value, its kind is that of a
/// JavaScript exception, and the exception is what converting the value to an
/// exception gives.
pub proof fn law_errors_hold_the_exception(
    val: ThrownValue,
    exception: CResult<JsException>,
    converted: CResult<Error>,
    infallible: Error,
    taken: Option<Error>,
)
    requires
        call_ensures(<JsException as FromJSValConvertible>::from_jsval, (val,), exception),
        call_ensures(<Error as FromJSValConvertible>::from_jsval, (val,), converted),
        call_ensures(
            <Error as FromPendingJsapiException>::infallible_from_jsval,
            (val,),
            infallible,
        ),
        call_ensures(<Error as FromPendingJsapiException>::take_pending, (Some(val),), taken),
    ensures
        exception matches Ok(ConversionResult::Success(e)) && {
            &&& converted matches Ok(
                ConversionResult::Success(Error(ErrorKind::JavaScriptException(x))),
            ) && same_exception(x, e)
            &&& infallible matches Error(ErrorKind::JavaScriptException(x)) && same_exception(x, e)
            &&& taken matches Some(Error(ErrorKind::JavaScriptException(x))) && same_exception(x, e)
        },
{
    let e = exception->Ok_0->Success_0;
    let Error(kind) = converted->Ok_0->Success_0;
    lemma_same_exception(kind->JavaScriptException_0, e);
    let Error(kind) = infallible;
    lemma_same_exception(kind->JavaScriptException_0, e);
    let Error(kind) = taken->0;
    lemma_same_exception(kind->JavaScriptException_0, e);
}

/// Where nothing is pending, nothing is taken.
pub proof fn law_nothing_is_made_of_nothing(
    exception: Option<JsException>,
    kind: Option<ErrorKind>,
    error: Option<Error>,
)
    requires
        call_ensures(<JsException as FromPendingJsapiException>::take_pending, (None,), exception),
        call_ensures(<ErrorKind as FromPendingJsapiException>::take_pending, (None,), kind),
        call_ensures(<Error as FromPendingJsapiException>::take_pending, (None,), error),
    ensures
        exception is None,
        kind is None,
        error is None,
{
}

/// Converting a value because that cannot fail gives the exception of the
/// value, alone or in an error.
pub proof fn law_converted_values_hold_the_exception(
    val: ThrownValue,
    e: JsException,
    exception: JsException,
    kind: ErrorKind,
    error: Error,
)
    requires
        call_ensures(JsException::from_thrown, (val,), e),
        call_ensures(crate::exception::converted::<JsException>, (val,), exception),
        call_ensures(crate::exception::converted::<ErrorKind>, (val,), kind),
        call_ensures(crate::exception::converted::<Error>, (val,), error),
    ensures
        same_exception(exception, e),
        kind matches ErrorKind::JavaScriptException(x) && same_exception(x, e),
        error matches Error(ErrorKind::JavaScriptException(x)) && same_exception(x, e),
{
    lemma_same_exception(exception, e);
    lemma_same_exception(kind->JavaScriptException_0, e);
    let Error(kind) = error;
    lemma_same_exception(kind->JavaScriptException_0, e);
}

/// Reading a value raised an exception exactly if the conversion that was
/// needed did: that of the value itself, or that of the stack of an `Error`
/// object.
pub proof fn law_raised_is_said_of_the_conversion(
    conversion: CResult<String>,
    report: ErrorReport,
    stack: Option<CResult<String>>,
    plain_raised: bool,
    object_raised: bool,
)
    requires
        call_ensures(ThrownValue::raised, (&ThrownValue::Plain(conversion),), plain_raised),
        call_ensures(
            ThrownValue::raised,
            (&(ThrownValue::ErrorObject { report, stack }),),
            object_raised,
        ),
    ensures
        plain_raised <==> conversion is Err,
        object_raised <==> stack is Some && stack->0 is Err,
{
}

/// Every kind of error is shown by its own text. A message is shown as it is,
/// an IO error by its full text, and an exception as the exception is shown.
pub proof fn law_kinds_show_their_text(
    kind: ErrorKind,
    shown: String,
    shown_error: String,
    exception: JsException,
    shown_exception: String,
)
    requires
        call_ensures(ErrorKind::to_string, (&kind,), shown),
        call_ensures(Error::to_string, (&Error(kind),), shown_error),
        call_ensures(JsException::to_string, (&exception,), shown_exception),
    ensures
        shown_error@ == shown@,
        match kind {
            ErrorKind::Msg(s) => shown@ == s@,
            ErrorKind::Io(e) => shown@ == e.message@,
            ErrorKind::SendError(_) => shown@ == "send failed because receiver is gone"@,
            ErrorKind::CouldNotCreateJavaScriptRuntime => shown@
                == "Could not create a JavaScript Runtime"@,
            ErrorKind::CouldNotReadValueFromChannel => shown@
                == "Could not read a value from a channel"@,
            ErrorKind::JavaScriptException(e) => e == exception ==> shown@ == shown_exception@,
            ErrorKind::JavaScriptUnhandledRejectedPromise => shown@
                == "Unhandled, rejected JavaScript promise"@,
            ErrorKind::JavaScriptPromiseCollectedWithoutSettling => shown@
                == "JavaScript Promise collected without settling"@,
        },
{
}

/// Every kind of error has its own short description. That of an exception
/// does not depend on the exception.
pub proof fn law_kinds_have_their_description(
    kind: ErrorKind,
    described: &'static str,
    described_error: &'static str,
)
    requires
        call_ensures(ErrorKind::description, (&kind,), described),
        call_ensures(Error::description, (&Error(kind),), described_error),
    ensures
        described_error@ == described@,
        match kind {
            ErrorKind::Msg(s) => described@ == s@,
            ErrorKind::Io(e) => described@ == e.description@,
            ErrorKind::SendError(_) => described@ == "send failed because receiver is gone"@,
            ErrorKind::CouldNotCreateJavaScriptRuntime => described@
                == "Could not create a JavaScript Runtime"@,
            ErrorKind::CouldNotReadValueFromChannel => described@
                == "Could not read a value from a channel"@,
            ErrorKind::JavaScriptException(_) => described@ == "JavaScript exception"@,
            ErrorKind::JavaScriptUnhandledRejectedPromise => described@
                == "Unhandled, rejected JavaScript promise"@,
            ErrorKind::JavaScriptPromiseCollectedWithoutSettling => described@
                == "JavaScript Promise collected without settling"@,
        },
{
}

/// The clone of an error is a message, and the message is the text that is
/// shown for the error.
pub proof fn law_clones_hold_what_is_shown(error: Error, clone: Error, shown: String)
    requires
        call_ensures(<Error as Clone>::clone, (&error,), clone),
        call_ensures(Error::to_string, (&error,), shown),
    ensures
        clone matches Error(ErrorKind::Msg(s)) && s@ == shown@,
{
}

/// An error holds what it was made from, and nothing else.
pub proof fn law_errors_hold_what_they_are_made_from(
    kind: ErrorKind,
    text: String,
    io: IoError,
    send: mpsc::SendError<()>,
    slice: &str,
    of_kind: Error,
    from_kind: Error,
    from_text: Error,
    from_io: Error,
    from_send: Error,
    from_slice: Error,
)
    requires
        call_ensures(Error::from_kind, (kind,), of_kind),
        call_ensures(<Error as From<ErrorKind>>::from, (kind,), from_kind),
        call_ensures(<Error as From<String>>::from, (text,), from_text),
        call_ensures(<Error as From<IoError>>::from, (io,), from_io),
        call_ensures(<Error as From<mpsc::SendError<()>>>::from, (send,), from_send),
        call_ensures(<Error as From<&str>>::from, (slice,), from_slice),
    ensures
        of_kind == Error(kind),
        from_kind == Error(kind),
        from_text == Error(ErrorKind::Msg(text)),
        from_io == Error(ErrorKind::Io(io)),
        from_send == Error(ErrorKind::SendError(send)),
        from_slice matches Error(ErrorKind::Msg(s)) && s@ == slice@,
{
}

/// The kind of an error is the one that it holds.
pub proof fn law_kind_is_what_the_error_holds(error: Error, kind: &ErrorKind)
    requires
        call_ensures(Error::kind, (&error,), kind),
    ensures
        *kind == error.0,
{
}

} // verus!
