use starling::exception::{ConversionResult, ErrorReport, ThrownValue};
use starling::extraction::{Answer, Extraction, FailedEvaluation, Question};

fn report() -> ErrorReport {
    ErrorReport { message: b"boom".to_vec(), filename: None, line: 3, column: 7 }
}

fn text(s: &str) -> Answer {
    Answer::Text(Ok(ConversionResult::Success(s.to_string())))
}

fn go_on(x: Extraction, answer: Answer) -> Extraction {
    assert!(x.accepts(&answer));
    x.answer(answer)
}

#[test]
fn nothing_is_taken_where_nothing_is_pending() {
    let x = Extraction::of_pending();
    assert!(matches!(x.question(), Some(Question::IsExceptionPending)));
    let x = go_on(x, Answer::Pending(false));
    assert!(matches!(x, Extraction::Done(None)));
    assert!(x.question().is_none());
}

#[test]
fn pending_exception_is_cleared_before_it_is_read() {
    let x = go_on(Extraction::of_pending(), Answer::Pending(true));
    assert!(matches!(x.question(), Some(Question::GetPendingException)));
    let x = go_on(x, Answer::Exception { is_object: true });
    assert!(matches!(x.question(), Some(Question::ClearPendingException)));
    let x = go_on(x, Answer::Cleared);
    assert!(matches!(x.question(), Some(Question::ErrorFromException)));
    let x = go_on(x, Answer::Report(Some(report())));
    assert!(matches!(x.question(), Some(Question::ExceptionStack)));
    let x = go_on(x, Answer::HasStack(true));
    assert!(matches!(x.question(), Some(Question::BuildStackString)));
    match go_on(x, text("@a.js")) {
        Extraction::Done(Some(ThrownValue::ErrorObject { report, stack })) => {
            assert_eq!(report.message, b"boom".to_vec());
            assert!(matches!(stack, Some(Ok(ConversionResult::Success(s))) if s == "@a.js"));
        }
        _ => panic!("the value was not read"),
    }
}

#[test]
fn error_object_without_a_stack_is_read() {
    let x = go_on(Extraction::of_value(true), Answer::Report(Some(report())));
    let x = go_on(x, Answer::HasStack(false));
    assert!(matches!(x, Extraction::Done(Some(ThrownValue::ErrorObject { stack: None, .. }))));
}

#[test]
fn object_without_a_report_is_stringified() {
    let x = go_on(Extraction::of_value(true), Answer::Report(None));
    assert!(matches!(x.question(), Some(Question::Stringify)));
    let x = go_on(x, text("[object Object]"));
    assert!(matches!(x, Extraction::Done(Some(ThrownValue::Plain(Ok(ConversionResult::Success(s))))) if s == "[object Object]"));
}

#[test]
fn value_that_is_no_object_is_stringified_at_once() {
    let x = go_on(Extraction::of_pending(), Answer::Pending(true));
    let x = go_on(x, Answer::Exception { is_object: false });
    let x = go_on(x, Answer::Cleared);
    assert!(matches!(x.question(), Some(Question::Stringify)));
    let x = go_on(x, Answer::Text(Err(())));
    assert!(matches!(x, Extraction::Done(Some(ThrownValue::Plain(Err(()))))));
}

#[test]
fn answers_to_other_questions_are_not_accepted() {
    assert!(!Extraction::of_pending().accepts(&Answer::Cleared));
    assert!(!Extraction::of_value(true).accepts(&text("a")));
    assert!(!Extraction::of_value(false).accepts(&Answer::Report(None)));
    assert!(!Extraction::Done(None).accepts(&Answer::Pending(true)));
}

fn tell(f: FailedEvaluation, answer: Answer) -> FailedEvaluation {
    assert!(f.accepts(&answer));
    f.answer(answer)
}

fn failed(is_object: bool) -> FailedEvaluation {
    let f = FailedEvaluation::begin();
    assert!(matches!(f.question(), Some(Question::IsExceptionPending)));
    let f = tell(f, Answer::Pending(true));
    assert!(matches!(f.question(), Some(Question::GetPendingException)));
    let f = tell(f, Answer::Exception { is_object });
    assert!(matches!(f.question(), Some(Question::ClearPendingException)));
    tell(f, Answer::Cleared)
}

#[test]
fn exception_raised_by_a_thrown_value_is_cleared_too() {
    let f = tell(failed(true), Answer::Report(None));
    assert!(matches!(f.question(), Some(Question::Stringify)));
    let f = tell(f, Answer::Text(Err(())));
    assert!(matches!(f.question(), Some(Question::ClearPendingException)));
    assert!(!f.accepts(&Answer::Pending(true)));
    let f = tell(f, Answer::Cleared);
    assert!(f.question().is_none());
    assert!(matches!(f, FailedEvaluation::Done(Some(ThrownValue::Plain(Err(()))))));
}

#[test]
fn exception_raised_by_a_stack_is_cleared_too() {
    let f = tell(failed(true), Answer::Report(Some(report())));
    let f = tell(f, Answer::HasStack(true));
    assert!(matches!(f.question(), Some(Question::BuildStackString)));
    let f = tell(f, Answer::Text(Err(())));
    assert!(matches!(f.question(), Some(Question::ClearPendingException)));
    let f = tell(f, Answer::Cleared);
    assert!(matches!(
        f,
        FailedEvaluation::Done(Some(ThrownValue::ErrorObject { stack: Some(Err(())), .. }))
    ));
}

#[test]
fn failed_evaluation_clears_once_where_nothing_is_raised() {
    let f = tell(failed(false), text("1"));
    assert!(f.question().is_none());
    assert!(matches!(f, FailedEvaluation::Done(Some(ThrownValue::Plain(Ok(_))))));
    let f = tell(FailedEvaluation::begin(), Answer::Pending(false));
    assert!(f.question().is_none());
    assert!(matches!(f, FailedEvaluation::Done(None)));
    assert!(!f.accepts(&Answer::Cleared));
}

#[test]
fn values_know_whether_reading_them_raised() {
    assert!(ThrownValue::Plain(Err(())).raised());
    assert!(!ThrownValue::Plain(Ok(ConversionResult::Failure("f".to_string()))).raised());
    assert!(ThrownValue::ErrorObject { report: report(), stack: Some(Err(())) }.raised());
    assert!(!ThrownValue::ErrorObject { report: report(), stack: None }.raised());
}
