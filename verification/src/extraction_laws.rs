//! What taking a thrown value out of the JavaScript engine comes to, said of
//! the values that go into each call and of those that come out of it.

use vstd::prelude::*;

use crate::exception::{
    CResult, ConversionResult, ErrorReport, StringConversion, ThrownValue, ThrownValueView,
};
use crate::extraction::{
    Answer, EngineView, Extraction, ExtractionView, FailedEvaluation, FailedEvaluationView, Question,
    ValueView,
};

verus! {

/// Whether two reports say the same.
pub open spec fn same_report(a: ErrorReport, b: ErrorReport) -> bool {
    &&& a.message@ == b.message@
    &&& a.filename is Some <==> b.filename is Some
    &&& a.filename is Some ==> a.filename->0@ == b.filename->0@
    &&& a.line == b.line
    &&& a.column == b.column
}

/// Whether two conversions to a string gave the same.
pub open spec fn same_conversion(a: CResult<String>, b: CResult<String>) -> bool {
    match (a, b) {
        (Ok(ConversionResult::Success(s)), Ok(ConversionResult::Success(t))) => s@ == t@,
        (Ok(ConversionResult::Failure(s)), Ok(ConversionResult::Failure(t))) => s@ == t@,
        (Err(_), Err(_)) => true,
        _ => false,
    }
}

/// Whether the same is known of two thrown values.
pub open spec fn same_thrown(a: ThrownValue, b: ThrownValue) -> bool {
    match (a, b) {
        (ThrownValue::Plain(c), ThrownValue::Plain(d)) => same_conversion(c, d),
        (
            ThrownValue::ErrorObject { report: r, stack: s },
            ThrownValue::ErrorObject { report: q, stack: t },
        ) => {
            &&& same_report(r, q)
            &&& s is Some <==> t is Some
            &&& s is Some ==> same_conversion(s->0, t->0)
        },
        _ => false,
    }
}

/// Whether two extractions have come equally far and learnt the same.
pub open spec fn same_extraction(a: Extraction, b: Extraction) -> bool {
    match (a, b) {
        (Extraction::Checking, Extraction::Checking) => true,
        (Extraction::Getting, Extraction::Getting) => true,
        (Extraction::Clearing { is_object: o }, Extraction::Clearing { is_object: p }) => o == p,
        (Extraction::LookingUpReport, Extraction::LookingUpReport) => true,
        (Extraction::Stringifying, Extraction::Stringifying) => true,
        (Extraction::LookingUpStack(r), Extraction::LookingUpStack(q)) => same_report(r, q),
        (Extraction::StringifyingStack(r), Extraction::StringifyingStack(q)) => same_report(r, q),
        (Extraction::Done(None), Extraction::Done(None)) => true,
        (Extraction::Done(Some(v)), Extraction::Done(Some(w))) => same_thrown(v, w),
        _ => false,
    }
}

/// A pending exception is taken by first asking whether there is one. Of a
/// value at hand it is first asked which report it has if it is an object, and
/// what it is as a string otherwise.
pub proof fn law_first_question_fits(
    is_object: bool,
    pending: Extraction,
    value: Extraction,
    failed: FailedEvaluation,
)
    requires
        call_ensures(Extraction::of_pending, (), pending),
        call_ensures(Extraction::of_value, (is_object,), value),
        call_ensures(FailedEvaluation::begin, (), failed),
    ensures
        pending is Checking,
        is_object ==> value is LookingUpReport,
        !is_object ==> value is Stringifying,
        failed matches FailedEvaluation::Taking(Extraction::Checking),
{
}

/// At every point of an extraction the question is the one that this point is
/// about; at the end there is none.
pub proof fn law_questions_fit(x: Extraction, q: Option<Question>)
    requires
        call_ensures(Extraction::question, (&x,), q),
    ensures
        x is Checking <==> q == Some(Question::IsExceptionPending),
        x is Getting <==> q == Some(Question::GetPendingException),
        x is Clearing <==> q == Some(Question::ClearPendingException),
        x is LookingUpReport <==> q == Some(Question::ErrorFromException),
        x is Stringifying <==> q == Some(Question::Stringify),
        x is LookingUpStack <==> q == Some(Question::ExceptionStack),
        x is StringifyingStack <==> q == Some(Question::BuildStackString),
        x is Done <==> q is None,
{
}

/// Whether `answer` is of the sort that `q` asks for.
pub open spec fn is_answer_to(answer: Answer, q: Question) -> bool {
    match q {
        Question::IsExceptionPending => answer is Pending,
        Question::GetPendingException => answer is Exception,
        Question::ClearPendingException => answer is Cleared,
        Question::ErrorFromException => answer is Report,
        Question::Stringify => answer is Text,
        Question::ExceptionStack => answer is HasStack,
        Question::BuildStackString => answer is Text,
    }
}

/// Exactly the answers to the question that is asked are accepted, and every
/// accepted answer can be gone on from.
pub proof fn law_answers_fit(x: Extraction, q: Option<Question>, answer: Answer, accepted: bool)
    requires
        call_ensures(Extraction::question, (&x,), q),
        call_ensures(Extraction::accepts, (&x, &answer), accepted),
    ensures
        accepted <==> q is Some && is_answer_to(answer, q->0),
        accepted ==> call_requires(Extraction::answer, (x, answer)),
{
}

/// After a failed evaluation, too, exactly the answers to the question that is
/// asked are accepted, and every accepted answer can be gone on from.
pub proof fn law_answers_fit_after_a_failed_evaluation(
    f: FailedEvaluation,
    q: Option<Question>,
    answer: Answer,
    accepted: bool,
)
    requires
        call_ensures(FailedEvaluation::question, (&f,), q),
        call_ensures(FailedEvaluation::accepts, (&f, &answer), accepted),
    ensures
        accepted <==> q is Some && is_answer_to(answer, q->0),
        accepted ==> call_requires(FailedEvaluation::answer, (f, answer)),
{
}

/// After a failed evaluation the questions are those of the extraction, and
/// then, where something was raised, the clearing of it.
pub proof fn law_questions_fit_after_a_failed_evaluation(
    f: FailedEvaluation,
    q: Option<Question>,
    x: Extraction,
    asked: Option<Question>,
)
    requires
        call_ensures(FailedEvaluation::question, (&f,), q),
        call_ensures(Extraction::question, (&x,), asked),
    ensures
        f == FailedEvaluation::Taking(x) ==> q == asked,
        f is ClearingRaised ==> q == Some(Question::ClearPendingException),
        f is Done ==> q is None,
{
}

/// If nothing is pending, there is nothing to take. If something is, it is
/// taken, and then cleared.
pub proof fn law_pending_exceptions_are_taken_and_cleared(
    pending: bool,
    is_object: bool,
    checked: Extraction,
    got: Extraction,
    cleared: Extraction,
)
    requires
        call_ensures(Extraction::answer, (Extraction::Checking, Answer::Pending(pending)), checked),
        call_ensures(
            Extraction::answer,
            (Extraction::Getting, Answer::Exception { is_object }),
            got,
        ),
        call_ensures(
            Extraction::answer,
            (Extraction::Clearing { is_object }, Answer::Cleared),
            cleared,
        ),
    ensures
        pending ==> checked is Getting,
        !pending ==> (checked matches Extraction::Done(None)),
        got matches Extraction::Clearing { is_object: o } && o == is_object,
        is_object ==> cleared is LookingUpReport,
        !is_object ==> cleared is Stringifying,
{
}

/// An object with a report is asked for its stack; one without a report is
/// converted to a string. A value that was converted to a string is known by
/// that conversion.
pub proof fn law_values_are_known_by_report_or_string(
    report: ErrorReport,
    conversion: CResult<String>,
    with_report: Extraction,
    without_report: Extraction,
    stringified: Extraction,
)
    requires
        call_ensures(
            Extraction::answer,
            (Extraction::LookingUpReport, Answer::Report(Some(report))),
            with_report,
        ),
        call_ensures(
            Extraction::answer,
            (Extraction::LookingUpReport, Answer::Report(None)),
            without_report,
        ),
        call_ensures(
            Extraction::answer,
            (Extraction::Stringifying, Answer::Text(conversion)),
            stringified,
        ),
    ensures
        with_report matches Extraction::LookingUpStack(r) && same_report(r, report),
        without_report is Stringifying,
        stringified matches Extraction::Done(Some(ThrownValue::Plain(c))) && same_conversion(
            c,
            conversion,
        ),
{
}

/// An `Error` object is known by its report, and by its stack as a string if
/// it has a stack.
pub proof fn law_error_objects_are_known_by_report_and_stack(
    report: ErrorReport,
    conversion: CResult<String>,
    with_stack: Extraction,
    without_stack: Extraction,
    stringified: Extraction,
)
    requires
        call_ensures(
            Extraction::answer,
            (Extraction::LookingUpStack(report), Answer::HasStack(true)),
            with_stack,
        ),
        call_ensures(
            Extraction::answer,
            (Extraction::LookingUpStack(report), Answer::HasStack(false)),
            without_stack,
        ),
        call_ensures(
            Extraction::answer,
            (Extraction::StringifyingStack(report), Answer::Text(conversion)),
            stringified,
        ),
    ensures
        with_stack matches Extraction::StringifyingStack(r) && same_report(r, report),
        without_stack matches Extraction::Done(
            Some(ThrownValue::ErrorObject { report: r, stack: None }),
        ) && same_report(r, report),
        stringified matches Extraction::Done(
            Some(ThrownValue::ErrorObject { report: r, stack: Some(c) }),
        ) && same_report(r, report) && same_conversion(c, conversion),
{
}

/// Whether a conversion that was needed to read `val` raised an exception.
pub open spec fn raised_when_read(val: ThrownValue) -> bool {
    match val {
        ThrownValue::Plain(c) => c is Err,
        ThrownValue::ErrorObject { stack, .. } => stack is Some && stack->0 is Err,
    }
}

/// After a failed evaluation the exception is taken as any other. Once it is
/// taken, the engine is cleared again if reading the exception raised another
/// one, and otherwise nothing is left to do.
pub proof fn law_failed_evaluation_takes_the_exception(
    x: Extraction,
    answer: Answer,
    y: Extraction,
    f: FailedEvaluation,
)
    requires
        call_ensures(Extraction::answer, (x, answer), y),
        call_ensures(FailedEvaluation::answer, (FailedEvaluation::Taking(x), answer), f),
    ensures
        match y {
            Extraction::Done(Some(val)) => if raised_when_read(val) {
                f matches FailedEvaluation::ClearingRaised(w) && same_thrown(w, val)
            } else {
                f matches FailedEvaluation::Done(Some(w)) && same_thrown(w, val)
            },
            Extraction::Done(None) => f matches FailedEvaluation::Done(None),
            _ => f matches FailedEvaluation::Taking(z) && same_extraction(z, y),
        },
{
}

/// Clearing what was raised changes nothing about the exception that was
/// taken.
pub proof fn law_clearing_keeps_the_exception(val: ThrownValue, f: FailedEvaluation)
    requires
        call_ensures(
            FailedEvaluation::answer,
            (FailedEvaluation::ClearingRaised(val), Answer::Cleared),
            f,
        ),
    ensures
        f matches FailedEvaluation::Done(Some(w)) && same_thrown(w, val),
{
}

/// What is learnt after a failed evaluation: nothing if nothing was pending;
/// the report and the stack of a pending `Error` object; and of every other
/// pending value its string.
pub proof fn law_failed_evaluation_learns_what_was_thrown(engine: EngineView)
    ensures
        ({
            let (f, _, _) = FailedEvaluationView::Taking(ExtractionView::Checking).converse(engine);
            match engine.pending {
                None => f matches FailedEvaluationView::Done(None),
                Some(ValueView { is_object: true, report: Some(r), stack: s, .. }) => f
                    matches FailedEvaluationView::Done(
                    Some(ThrownValueView::ErrorObject { report, stack }),
                ) && report == r && stack == s,
                Some(value) => f matches FailedEvaluationView::Done(
                    Some(ThrownValueView::Plain(c)),
                ) && c == value.string,
            }
        }),
{
    crate::extraction::law_failed_evaluation_leaves_nothing_pending(engine);
}

/// What is asked after a failed evaluation: nothing but whether an exception is
/// pending if none is; otherwise the exception is got and cleared before its
/// value is asked about, no more is asked than its value calls for, and the
/// engine is cleared at the end exactly if a conversion raised an exception.
pub proof fn law_failed_evaluation_asks_what_it_needs(engine: EngineView)
    ensures
        ({
            let (_, _, asked) = FailedEvaluationView::Taking(ExtractionView::Checking).converse(
                engine,
            );
            match engine.pending {
                None => asked == seq![Question::IsExceptionPending],
                Some(value) => {
                    let about_value = if !value.is_object {
                        seq![Question::Stringify]
                    } else if value.report is None {
                        seq![Question::ErrorFromException, Question::Stringify]
                    } else if value.stack is None {
                        seq![Question::ErrorFromException, Question::ExceptionStack]
                    } else {
                        seq![
                            Question::ErrorFromException,
                            Question::ExceptionStack,
                            Question::BuildStackString,
                        ]
                    };
                    let raised = if value.is_object && value.report is Some {
                        value.stack == Some(StringConversion::Raised)
                    } else {
                        value.string is Raised
                    };
                    asked == seq![
                        Question::IsExceptionPending,
                        Question::GetPendingException,
                        Question::ClearPendingException,
                    ] + about_value + if raised {
                        seq![Question::ClearPendingException]
                    } else {
                        Seq::empty()
                    }
                },
            }
        }),
{
    crate::extraction::law_failed_evaluation_leaves_nothing_pending(engine);
}

} // verus!
