use futures::sync::mpsc;

use starling::error::{Error, ErrorKind, IoError};
use starling::exception::{
    ConversionResult, ErrorReport, FromJSValConvertible, FromPendingJsapiException, JsException,
    ThrownValue,
};

fn exception(filename: Option<&str>, line: u32, column: u32, stack: Option<&str>) -> JsException {
    JsException::Error {
        message: "x is not defined".to_string(),
        filename: filename.map(|f| f.to_string()),
        line,
        column,
        stack: stack.map(|s| s.to_string()),
    }
}

fn send_error() -> mpsc::SendError<()> {
    let (sender, receiver) = mpsc::unbounded::<()>();
    drop(receiver);
    sender.unbounded_send(()).unwrap_err()
}

fn io_error() -> IoError {
    IoError {
        description: "entity not found".to_string(),
        message: "No such file or directory (os error 2)".to_string(),
    }
}

fn report() -> ErrorReport {
    ErrorReport {
        message: b"boom".to_vec(),
        filename: Some(b"main.js".to_vec()),
        line: 3,
        column: 7,
    }
}

#[test]
fn stringified_exception_is_shown_as_it_is() {
    assert_eq!(JsException::Stringified("42".to_string()).to_string(), "42");
    assert_eq!(JsException::Stringified(String::new()).to_string(), "");
}

#[test]
fn full_exception_is_shown_with_place_and_stack() {
    let e = exception(Some("main.js"), 12, 5, Some("f@main.js:12:5\n"));
    assert_eq!(
        e.to_string(),
        "main.js:12:5: x is not defined\n\nStack:\nf@main.js:12:5\n"
    );
}

#[test]
fn missing_filename_and_stack_are_left_out() {
    assert_eq!(exception(None, 1, 0, None).to_string(), "1:0: x is not defined");
    assert_eq!(
        exception(Some("a.js"), 1, 0, None).to_string(),
        "a.js:1:0: x is not defined"
    );
    assert_eq!(
        exception(None, 1, 0, Some("s")).to_string(),
        "1:0: x is not defined\n\nStack:\ns"
    );
}

#[test]
fn line_and_column_are_shown_in_decimal() {
    assert_eq!(
        exception(None, 4294967295, 1009, None).to_string(),
        "4294967295:1009: x is not defined"
    );
    assert_eq!(exception(None, 9, 10, None).to_string(), "9:10: x is not defined");
    assert_eq!(exception(None, 2345678, 90, None).to_string(), "2345678:90: x is not defined");
}

#[test]
fn cloned_exception_shows_the_same() {
    let e = exception(Some("a.js"), 1, 2, Some("s"));
    assert_eq!(e.clone().to_string(), e.to_string());
    let s = JsException::Stringified("t".to_string());
    assert_eq!(s.clone().to_string(), "t");
}

#[test]
fn every_kind_has_its_text_and_description() {
    let exc = exception(Some("a.js"), 1, 2, None);
    let cases = vec![
        (ErrorKind::Msg("hello".to_string()), "hello", "hello"),
        (
            ErrorKind::Io(io_error()),
            "No such file or directory (os error 2)",
            "entity not found",
        ),
        (
            ErrorKind::SendError(send_error()),
            "send failed because receiver is gone",
            "send failed because receiver is gone",
        ),
        (
            ErrorKind::CouldNotCreateJavaScriptRuntime,
            "Could not create a JavaScript Runtime",
            "Could not create a JavaScript Runtime",
        ),
        (
            ErrorKind::CouldNotReadValueFromChannel,
            "Could not read a value from a channel",
            "Could not read a value from a channel",
        ),
        (
            ErrorKind::JavaScriptException(exc),
            "a.js:1:2: x is not defined",
            "JavaScript exception",
        ),
        (
            ErrorKind::JavaScriptUnhandledRejectedPromise,
            "Unhandled, rejected JavaScript promise",
            "Unhandled, rejected JavaScript promise",
        ),
        (
            ErrorKind::JavaScriptPromiseCollectedWithoutSettling,
            "JavaScript Promise collected without settling",
            "JavaScript Promise collected without settling",
        ),
    ];
    for (kind, text, description) in cases {
        assert_eq!(kind.to_string(), text);
        assert_eq!(kind.description(), description);
        let error = Error::from_kind(kind);
        assert_eq!(error.to_string(), text);
        assert_eq!(error.description(), description);
    }
}

#[test]
fn cloning_keeps_the_text_alone() {
    let error = Error::from_kind(ErrorKind::CouldNotCreateJavaScriptRuntime);
    let clone = error.clone();
    assert!(matches!(clone.kind(), ErrorKind::Msg(s) if s == "Could not create a JavaScript Runtime"));
    assert_eq!(clone.to_string(), error.to_string());
}

#[test]
fn cloning_twice_is_cloning_once() {
    let error = Error::from(io_error());
    let once = error.clone();
    let twice = once.clone();
    assert!(matches!(twice.kind(), ErrorKind::Msg(_)));
    assert_eq!(once.to_string(), "No such file or directory (os error 2)");
    assert_eq!(twice.to_string(), once.to_string());
}

#[test]
fn errors_are_made_from_what_they_are_about() {
    assert!(matches!(Error::from("text").kind(), ErrorKind::Msg(s) if s == "text"));
    assert!(matches!(Error::from("text".to_string()).kind(), ErrorKind::Msg(s) if s == "text"));
    assert!(matches!(Error::from(io_error()).kind(), ErrorKind::Io(e) if e.description == "entity not found"));
    assert!(matches!(Error::from(send_error()).kind(), ErrorKind::SendError(_)));
    let kind = ErrorKind::JavaScriptUnhandledRejectedPromise;
    assert!(matches!(Error::from(kind).kind(), ErrorKind::JavaScriptUnhandledRejectedPromise));
}

#[test]
fn thrown_plain_value_is_stringified() {
    let val = ThrownValue::Plain(Ok(ConversionResult::Success("[object Object]".to_string())));
    let e = JsException::infallible_from_jsval(val);
    assert!(matches!(e, JsException::Stringified(s) if s == "[object Object]"));
}

#[test]
fn value_without_a_string_is_remarked_upon() {
    let val = ThrownValue::Plain(Ok(ConversionResult::Failure("a symbol".to_string())));
    assert_eq!(
        JsException::infallible_from_jsval(val).to_string(),
        "<could not convert error value to string: a symbol>"
    );
    let val = ThrownValue::Plain(Err(()));
    assert_eq!(
        JsException::infallible_from_jsval(val).to_string(),
        "<could not convert error value to string>"
    );
}

#[test]
fn thrown_error_object_is_reported() {
    let val = ThrownValue::ErrorObject {
        report: report(),
        stack: Some(Ok(ConversionResult::Success("@main.js:3:7\n".to_string()))),
    };
    assert_eq!(
        JsException::infallible_from_jsval(val).to_string(),
        "main.js:3:7: boom\n\nStack:\n@main.js:3:7\n"
    );
}

#[test]
fn malformed_bytes_in_a_report_are_replaced() {
    let val = ThrownValue::ErrorObject {
        report: ErrorReport {
            message: b"bo\xffom".to_vec(),
            filename: Some(b"\xf0\x9f\x92\xa5.js".to_vec()),
            line: 1,
            column: 2,
        },
        stack: None,
    };
    match JsException::infallible_from_jsval(val) {
        JsException::Error { message, filename, line, column, stack } => {
            assert_eq!(message, "bo\u{fffd}om");
            assert_eq!(filename, Some("\u{1f4a5}.js".to_string()));
            assert_eq!((line, column), (1, 2));
            assert_eq!(stack, None);
        }
        JsException::Stringified(_) => panic!("an error object was stringified"),
    }
}

#[test]
fn stack_that_cannot_be_converted_is_left_out() {
    for stack in vec![Err(()), Ok(ConversionResult::Failure("no".to_string()))] {
        let val = ThrownValue::ErrorObject { report: report(), stack: Some(stack) };
        assert!(matches!(
            JsException::infallible_from_jsval(val),
            JsException::Error { stack: None, .. }
        ));
    }
}

#[test]
fn report_without_a_filename_has_none() {
    let e = JsException::from_report_texts("m".to_string(), None, 8, 9, None);
    assert_eq!(e.to_string(), "8:9: m");
}

#[test]
fn kinds_and_errors_are_made_from_thrown_values() {
    let thrown = || ThrownValue::Plain(Ok(ConversionResult::Success("oops".to_string())));
    match ErrorKind::from_jsval(thrown()) {
        Ok(ConversionResult::Success(kind)) => {
            assert_eq!(kind.to_string(), "oops");
            assert_eq!(kind.description(), "JavaScript exception");
        }
        _ => panic!("the conversion failed"),
    }
    match Error::from_jsval(thrown()) {
        Ok(ConversionResult::Success(error)) => {
            assert!(matches!(error.kind(), ErrorKind::JavaScriptException(_)));
        }
        _ => panic!("the conversion failed"),
    }
}

#[test]
fn only_a_pending_exception_can_be_taken() {
    assert!(JsException::take_pending(None).is_none());
    assert!(ErrorKind::take_pending(None).is_none());
    let val = ThrownValue::Plain(Ok(ConversionResult::Success("oops".to_string())));
    assert_eq!(Error::take_pending(Some(val)).unwrap().to_string(), "oops");
}
