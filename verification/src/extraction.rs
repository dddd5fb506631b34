//! Taking a thrown value out of the JavaScript engine, one question at a time.
//!
//! Asking the engine about a value can run JavaScript, so no more is asked
//! than is needed, and a pending exception is cleared before anything is
//! asked about its value.

use vstd::prelude::*;

use crate::exception::{
    CResult, ErrorReport, ErrorReportView, StringConversion, ThrownValue, ThrownValueView,
};

verus! {

/// What is to be asked of the engine next.
#[derive(Debug)]
pub enum Question {
    /// Is an exception pending?
    IsExceptionPending,
    /// Which value is pending? The value is kept for the questions after it.
    GetPendingException,
    /// Clear the pending exception.
    ClearPendingException,
    /// Which report is kept for the value?
    ErrorFromException,
    /// What is the value as a string?
    Stringify,
    /// Does the value have a stack?
    ExceptionStack,
    /// What is the stack of the value as a string?
    BuildStackString,
}

/// What the engine answered.
#[derive(Debug)]
pub enum Answer {
    /// Whether an exception is pending.
    Pending(bool),
    /// The pending value was handed over.
    Exception {
        /// Whether it is an object.
        is_object: bool,
    },
    /// The pending exception was cleared.
    Cleared,
    /// The report kept for the value, if there is one.
    Report(Option<ErrorReport>),
    /// Whether the value has a stack.
    HasStack(bool),
    /// The value, or its stack, as a string.
    Text(CResult<String>),
}

/// The mathematical value of an [`Answer`].
pub enum AnswerView {
    Pending(bool),
    Exception { is_object: bool },
    Cleared,
    Report(Option<ErrorReportView>),
    HasStack(bool),
    Text(StringConversion),
}

impl View for Answer {
    type V = AnswerView;

    open spec fn view(&self) -> AnswerView {
        match *self {
            Answer::Pending(p) => AnswerView::Pending(p),
            Answer::Exception { is_object } => AnswerView::Exception { is_object },
            Answer::Cleared => AnswerView::Cleared,
            Answer::Report(r) => AnswerView::Report(
                match r {
                    Some(report) => Some(report@),
                    None => None,
                },
            ),
            Answer::HasStack(b) => AnswerView::HasStack(b),
            Answer::Text(c) => AnswerView::Text(crate::exception::conversion_view(c)),
        }
    }
}

/// How far taking a value out of the engine has come.
#[derive(Debug)]
pub enum Extraction {
    /// Finding out whether an exception is pending.
    Checking,
    /// Getting the pending value.
    Getting,
    /// Clearing the pending exception.
    Clearing {
        /// Whether its value is an object.
        is_object: bool,
    },
    /// Looking up the report of the value.
    LookingUpReport,
    /// Converting the value to a string.
    Stringifying,
    /// Looking for the stack of the value that has the given report.
    LookingUpStack(ErrorReport),
    /// Converting the stack of the value that has the given report.
    StringifyingStack(ErrorReport),
    /// Nothing is left to ask. Holds the value, if there was one.
    Done(Option<ThrownValue>),
}

/// The mathematical value of an [`Extraction`].
pub enum ExtractionView {
    Checking,
    Getting,
    Clearing { is_object: bool },
    LookingUpReport,
    Stringifying,
    LookingUpStack(ErrorReportView),
    StringifyingStack(ErrorReportView),
    Done(Option<ThrownValueView>),
}

impl View for Extraction {
    type V = ExtractionView;

    open spec fn view(&self) -> ExtractionView {
        match *self {
            Extraction::Checking => ExtractionView::Checking,
            Extraction::Getting => ExtractionView::Getting,
            Extraction::Clearing { is_object } => ExtractionView::Clearing { is_object },
            Extraction::LookingUpReport => ExtractionView::LookingUpReport,
            Extraction::Stringifying => ExtractionView::Stringifying,
            Extraction::LookingUpStack(report) => ExtractionView::LookingUpStack(report@),
            Extraction::StringifyingStack(report) => ExtractionView::StringifyingStack(report@),
            Extraction::Done(v) => ExtractionView::Done(
                match v {
                    Some(val) => Some(val@),
                    None => None,
                },
            ),
        }
    }
}

impl ExtractionView {
    /// Where the questions about a value itself begin: only an object can
    /// have a report.
    pub open spec fn inspecting(is_object: bool) -> ExtractionView {
        if is_object {
            ExtractionView::LookingUpReport
        } else {
            ExtractionView::Stringifying
        }
    }

    /// What is to be asked next.
    pub open spec fn question(self) -> Option<Question> {
        match self {
            ExtractionView::Checking => Some(Question::IsExceptionPending),
            ExtractionView::Getting => Some(Question::GetPendingException),
            ExtractionView::Clearing { .. } => Some(Question::ClearPendingException),
            ExtractionView::LookingUpReport => Some(Question::ErrorFromException),
            ExtractionView::Stringifying => Some(Question::Stringify),
            ExtractionView::LookingUpStack(_) => Some(Question::ExceptionStack),
            ExtractionView::StringifyingStack(_) => Some(Question::BuildStackString),
            ExtractionView::Done(_) => None,
        }
    }

    /// Whether `answer` answers the question that was asked.
    pub open spec fn accepts(self, answer: AnswerView) -> bool {
        match self {
            ExtractionView::Checking => answer is Pending,
            ExtractionView::Getting => answer is Exception,
            ExtractionView::Clearing { .. } => answer is Cleared,
            ExtractionView::LookingUpReport => answer is Report,
            ExtractionView::Stringifying => answer is Text,
            ExtractionView::LookingUpStack(_) => answer is HasStack,
            ExtractionView::StringifyingStack(_) => answer is Text,
            ExtractionView::Done(_) => false,
        }
    }

    /// What follows once `answer` is known.
    pub open spec fn after(self, answer: AnswerView) -> ExtractionView {
        match (self, answer) {
            (ExtractionView::Checking, AnswerView::Pending(pending)) => if pending {
                ExtractionView::Getting
            } else {
                ExtractionView::Done(None)
            },
            (ExtractionView::Getting, AnswerView::Exception { is_object }) => {
                ExtractionView::Clearing { is_object }
            },
            (ExtractionView::Clearing { is_object }, AnswerView::Cleared) => {
                ExtractionView::inspecting(is_object)
            },
            (ExtractionView::LookingUpReport, AnswerView::Report(Some(report))) => {
                ExtractionView::LookingUpStack(report)
            },
            (ExtractionView::LookingUpReport, AnswerView::Report(None)) => {
                ExtractionView::Stringifying
            },
            (ExtractionView::Stringifying, AnswerView::Text(c)) => ExtractionView::Done(
                Some(ThrownValueView::Plain(c)),
            ),
            (ExtractionView::LookingUpStack(report), AnswerView::HasStack(has)) => if has {
                ExtractionView::StringifyingStack(report)
            } else {
                ExtractionView::Done(Some(ThrownValueView::ErrorObject { report, stack: None }))
            },
            (ExtractionView::StringifyingStack(report), AnswerView::Text(c)) => {
                ExtractionView::Done(
                    Some(ThrownValueView::ErrorObject { report, stack: Some(c) }),
                )
            },
            _ => self,
        }
    }
}

impl Extraction {
    /// Begins to take the pending exception, if there is one.
    pub fn of_pending() -> (x: Extraction)
        ensures
            x@ == ExtractionView::Checking,
    {
        Extraction::Checking
    }

    /// Begins to ask about a value that is at hand.
    pub fn of_value(is_object: bool) -> (x: Extraction)
        ensures
            x@ == ExtractionView::inspecting(is_object),
    {
        if is_object {
            Extraction::LookingUpReport
        } else {
            Extraction::Stringifying
        }
    }

    /// What is to be asked next, or `None` when nothing is left to ask.
    pub fn question(&self) -> (q: Option<Question>)
        ensures
            q == self@.question(),
    {
        match self {
            Extraction::Checking => Some(Question::IsExceptionPending),
            Extraction::Getting => Some(Question::GetPendingException),
            Extraction::Clearing { .. } => Some(Question::ClearPendingException),
            Extraction::LookingUpReport => Some(Question::ErrorFromException),
            Extraction::Stringifying => Some(Question::Stringify),
            Extraction::LookingUpStack(_) => Some(Question::ExceptionStack),
            Extraction::StringifyingStack(_) => Some(Question::BuildStackString),
            Extraction::Done(_) => None,
        }
    }

    /// Whether `answer` answers the question that was asked.
    pub fn accepts(&self, answer: &Answer) -> (b: bool)
        ensures
            b == self@.accepts(answer@),
    {
        match (self, answer) {
            (Extraction::Checking, Answer::Pending(_)) => true,
            (Extraction::Getting, Answer::Exception { .. }) => true,
            (Extraction::Clearing { .. }, Answer::Cleared) => true,
            (Extraction::LookingUpReport, Answer::Report(_)) => true,
            (Extraction::Stringifying, Answer::Text(_)) => true,
            (Extraction::LookingUpStack(_), Answer::HasStack(_)) => true,
            (Extraction::StringifyingStack(_), Answer::Text(_)) => true,
            _ => false,
        }
    }

    /// Goes on from the engine's answer to the question that was asked.
    pub fn answer(self, answer: Answer) -> (x: Extraction)
        requires
            self@.accepts(answer@),
        ensures
            x@ == self@.after(answer@),
    {
        match (self, answer) {
            (Extraction::Checking, Answer::Pending(true)) => Extraction::Getting,
            (Extraction::Checking, Answer::Pending(false)) => Extraction::Done(None),
            (Extraction::Getting, Answer::Exception { is_object }) => {
                Extraction::Clearing { is_object }
            },
            (Extraction::Clearing { is_object }, Answer::Cleared) => Extraction::of_value(is_object),
            (Extraction::LookingUpReport, Answer::Report(Some(report))) => {
                Extraction::LookingUpStack(report)
            },
            (Extraction::LookingUpReport, Answer::Report(None)) => Extraction::Stringifying,
            (Extraction::Stringifying, Answer::Text(c)) => Extraction::Done(
                Some(ThrownValue::Plain(c)),
            ),
            (Extraction::LookingUpStack(report), Answer::HasStack(true)) => {
                Extraction::StringifyingStack(report)
            },
            (Extraction::LookingUpStack(report), Answer::HasStack(false)) => Extraction::Done(
                Some(ThrownValue::ErrorObject { report, stack: None }),
            ),
            (Extraction::StringifyingStack(report), Answer::Text(c)) => Extraction::Done(
                Some(ThrownValue::ErrorObject { report, stack: Some(c) }),
            ),
            (unanswered, _) => unanswered,
        }
    }
}

/// How far taking the exception of a failed evaluation out of the engine has
/// come. Unlike a mere [`Extraction`], it leaves nothing pending: where
/// reading the exception raised another one, that one is cleared as well.
#[derive(Debug)]
pub enum FailedEvaluation {
    /// Taking the pending exception.
    Taking(Extraction),
    /// Clearing what was raised while this value was read.
    ClearingRaised(ThrownValue),
    /// Nothing is left to ask. Holds the exception, if there was one.
    Done(Option<ThrownValue>),
}

/// The mathematical value of a [`FailedEvaluation`].
pub enum FailedEvaluationView {
    Taking(ExtractionView),
    ClearingRaised(ThrownValueView),
    Done(Option<ThrownValueView>),
}

impl View for FailedEvaluation {
    type V = FailedEvaluationView;

    open spec fn view(&self) -> FailedEvaluationView {
        match *self {
            FailedEvaluation::Taking(x) => FailedEvaluationView::Taking(x@),
            FailedEvaluation::ClearingRaised(val) => FailedEvaluationView::ClearingRaised(val@),
            FailedEvaluation::Done(v) => FailedEvaluationView::Done(
                match v {
                    Some(val) => Some(val@),
                    None => None,
                },
            ),
        }
    }
}

impl FailedEvaluationView {
    /// What is to be asked next.
    pub open spec fn question(self) -> Option<Question> {
        match self {
            FailedEvaluationView::Taking(x) => x.question(),
            FailedEvaluationView::ClearingRaised(_) => Some(Question::ClearPendingException),
            FailedEvaluationView::Done(_) => None,
        }
    }

    /// Whether `answer` answers the question that was asked.
    pub open spec fn accepts(self, answer: AnswerView) -> bool {
        match self {
            FailedEvaluationView::Taking(x) => x.accepts(answer),
            FailedEvaluationView::ClearingRaised(_) => answer is Cleared,
            FailedEvaluationView::Done(_) => false,
        }
    }

    /// What follows when the taking of the exception has come to `x`.
    pub open spec fn taking(x: ExtractionView) -> FailedEvaluationView {
        match x {
            ExtractionView::Done(Some(val)) => if val.raised() {
                FailedEvaluationView::ClearingRaised(val)
            } else {
                FailedEvaluationView::Done(Some(val))
            },
            ExtractionView::Done(None) => FailedEvaluationView::Done(None),
            _ => FailedEvaluationView::Taking(x),
        }
    }

    /// What follows once `answer` is known.
    pub open spec fn after(self, answer: AnswerView) -> FailedEvaluationView {
        match self {
            FailedEvaluationView::Taking(x) => FailedEvaluationView::taking(x.after(answer)),
            FailedEvaluationView::ClearingRaised(val) => FailedEvaluationView::Done(Some(val)),
            FailedEvaluationView::Done(_) => self,
        }
    }
}

impl FailedEvaluation {
    /// Begins to take the exception of an evaluation that has just failed.
    pub fn begin() -> (f: FailedEvaluation)
        ensures
            f@ == FailedEvaluationView::Taking(ExtractionView::Checking),
    {
        FailedEvaluation::Taking(Extraction::of_pending())
    }

    /// What is to be asked next, or `None` when nothing is left to ask.
    pub fn question(&self) -> (q: Option<Question>)
        ensures
            q == self@.question(),
    {
        match self {
            FailedEvaluation::Taking(x) => x.question(),
            FailedEvaluation::ClearingRaised(_) => Some(Question::ClearPendingException),
            FailedEvaluation::Done(_) => None,
        }
    }

    /// Whether `answer` answers the question that was asked.
    pub fn accepts(&self, answer: &Answer) -> (b: bool)
        ensures
            b == self@.accepts(answer@),
    {
        match self {
            FailedEvaluation::Taking(x) => x.accepts(answer),
            FailedEvaluation::ClearingRaised(_) => matches!(answer, Answer::Cleared),
            FailedEvaluation::Done(_) => false,
        }
    }

    /// Goes on from the engine's answer to the question that was asked.
    pub fn answer(self, answer: Answer) -> (f: FailedEvaluation)
        requires
            self@.accepts(answer@),
        ensures
            f@ == self@.after(answer@),
    {
        match self {
            FailedEvaluation::Taking(x) => match x.answer(answer) {
                Extraction::Done(Some(val)) => if val.raised() {
                    FailedEvaluation::ClearingRaised(val)
                } else {
                    FailedEvaluation::Done(Some(val))
                },
                Extraction::Done(None) => FailedEvaluation::Done(None),
                x => FailedEvaluation::Taking(x),
            },
            FailedEvaluation::ClearingRaised(val) => FailedEvaluation::Done(Some(val)),
            done => done,
        }
    }
}

/// What an engine knows about a value.
pub struct ValueView {
    pub is_object: bool,
    pub report: Option<ErrorReportView>,
    pub string: StringConversion,
    pub stack: Option<StringConversion>,
}

impl ValueView {
    /// Whether the value is an `Error` object.
    pub open spec fn is_error_object(self) -> bool {
        self.is_object && self.report is Some
    }

    /// What is to be known of the value: its report and its stack if it is an
    /// `Error` object, its string form otherwise.
    pub open spec fn thrown(self) -> ThrownValueView {
        if self.is_error_object() {
            ThrownValueView::ErrorObject { report: self.report->0, stack: self.stack }
        } else {
            ThrownValueView::Plain(self.string)
        }
    }

    /// Whether a conversion that is needed to read the value raises an
    /// exception.
    pub open spec fn raises_when_read(self) -> bool {
        self.thrown().raised()
    }

    /// The questions that have to be asked about the value.
    pub open spec fn questions(self) -> Seq<Question> {
        if !self.is_object {
            seq![Question::Stringify]
        } else if self.report is None {
            seq![Question::ErrorFromException, Question::Stringify]
        } else if self.stack is None {
            seq![Question::ErrorFromException, Question::ExceptionStack]
        } else {
            seq![
                Question::ErrorFromException,
                Question::ExceptionStack,
                Question::BuildStackString,
            ]
        }
    }
}

/// An engine: the value that is pending, if any, the value that questions are
/// about, and the value that a conversion to a string throws where it raises
/// an exception. Such an exception is then pending.
pub struct EngineView {
    pub pending: Option<ValueView>,
    pub held: ValueView,
    pub raised: ValueView,
}

impl EngineView {
    /// The engine's answer to `q`.
    pub open spec fn reply(self, q: Question) -> AnswerView {
        match q {
            Question::IsExceptionPending => AnswerView::Pending(self.pending is Some),
            Question::GetPendingException => AnswerView::Exception {
                is_object: self.pending->0.is_object,
            },
            Question::ClearPendingException => AnswerView::Cleared,
            Question::ErrorFromException => AnswerView::Report(self.held.report),
            Question::Stringify => AnswerView::Text(self.held.string),
            Question::ExceptionStack => AnswerView::HasStack(self.held.stack is Some),
            Question::BuildStackString => AnswerView::Text(self.held.stack->0),
        }
    }

    /// The engine after it has answered `q`.
    pub open spec fn after(self, q: Question) -> EngineView {
        match q {
            Question::GetPendingException => EngineView { held: self.pending->0, ..self },
            Question::ClearPendingException => EngineView { pending: None, ..self },
            Question::Stringify => self.converted(self.held.string),
            Question::BuildStackString => self.converted(self.held.stack->0),
            _ => self,
        }
    }

    /// The engine after a conversion to a string that gave `c`.
    pub open spec fn converted(self, c: StringConversion) -> EngineView {
        if c is Raised {
            EngineView { pending: Some(self.raised), ..self }
        } else {
            self
        }
    }

    /// The engine after the value that questions are about was read.
    pub open spec fn after_reading(self) -> EngineView {
        if self.held.raises_when_read() {
            EngineView { pending: Some(self.raised), ..self }
        } else {
            self
        }
    }
}

impl ExtractionView {
    /// A bound on the number of questions that are still to be asked.
    pub open spec fn questions_left(self) -> nat {
        match self {
            ExtractionView::Checking => 6,
            ExtractionView::Getting => 5,
            ExtractionView::Clearing { .. } => 4,
            ExtractionView::LookingUpReport => 3,
            ExtractionView::LookingUpStack(_) => 2,
            ExtractionView::Stringifying => 1,
            ExtractionView::StringifyingStack(_) => 1,
            ExtractionView::Done(_) => 0,
        }
    }

    /// Asks `engine` until nothing is left to ask. Gives what was learnt, the
    /// engine afterwards, and the questions in the order they were asked.
    pub open spec fn converse(self, engine: EngineView) -> (
        ExtractionView,
        EngineView,
        Seq<Question>,
    )
        decreases self.questions_left(),
    {
        match self.question() {
            Some(q) => {
                let (x, e, asked) = self.after(engine.reply(q)).converse(engine.after(q));
                (x, e, seq![q] + asked)
            },
            None => (self, engine, Seq::empty()),
        }
    }
}

impl FailedEvaluationView {
    /// A bound on the number of questions that are still to be asked.
    pub open spec fn questions_left(self) -> nat {
        match self {
            FailedEvaluationView::Taking(x) => x.questions_left() + 2,
            FailedEvaluationView::ClearingRaised(_) => 1,
            FailedEvaluationView::Done(_) => 0,
        }
    }

    /// Asks `engine` until nothing is left to ask. Gives what was learnt, the
    /// engine afterwards, and the questions in the order they were asked.
    pub open spec fn converse(self, engine: EngineView) -> (
        FailedEvaluationView,
        EngineView,
        Seq<Question>,
    )
        decreases self.questions_left(),
    {
        match self.question() {
            Some(q) => {
                let (f, e, asked) = self.after(engine.reply(q)).converse(engine.after(q));
                (f, e, seq![q] + asked)
            },
            None => (self, engine, Seq::empty()),
        }
    }

    /// The questions asked about an evaluation that failed with `pending`.
    pub open spec fn questions_about(pending: Option<ValueView>) -> Seq<Question> {
        match pending {
            Some(value) => seq![
                Question::IsExceptionPending,
                Question::GetPendingException,
                Question::ClearPendingException,
            ] + value.questions() + if value.raises_when_read() {
                seq![Question::ClearPendingException]
            } else {
                Seq::empty()
            },
            None => seq![Question::IsExceptionPending],
        }
    }
}

/// An answer to the question that was asked is always accepted, and brings
/// the end closer.
pub proof fn law_answers_make_progress(x: ExtractionView, engine: EngineView, answer: AnswerView)
    ensures
        x.question() matches Some(q) ==> x.accepts(engine.reply(q)),
        x.accepts(answer) ==> x.after(answer).questions_left() < x.questions_left(),
        x.question() is None <==> x is Done,
{
}

/// Asking about a value gives what is to be known of it, and asks exactly what
/// is needed for that. What is pending is left alone, unless a conversion of
/// the value raises an exception: then that exception is pending.
pub proof fn law_value_is_read(engine: EngineView)
    ensures
        ExtractionView::inspecting(engine.held.is_object).converse(engine) == (
            ExtractionView::Done(Some(engine.held.thrown())),
            engine.after_reading(),
            engine.held.questions(),
        ),
{
    reveal_with_fuel(ExtractionView::converse, 5);
    let (x, e, asked) = ExtractionView::inspecting(engine.held.is_object).converse(engine);
    assert(asked =~= engine.held.questions());
}

/// Where no exception is pending, nothing but that is asked, and nothing is
/// taken.
pub proof fn law_nothing_pending_nothing_taken(engine: EngineView)
    requires
        engine.pending is None,
    ensures
        ExtractionView::Checking.converse(engine) == (
            ExtractionView::Done(None),
            engine,
            seq![Question::IsExceptionPending],
        ),
{
    reveal_with_fuel(ExtractionView::converse, 3);
    let (x, e, asked) = ExtractionView::Checking.converse(engine);
    assert(asked =~= seq![Question::IsExceptionPending]);
}

/// A pending exception is taken whole, and is cleared before anything is asked
/// about its value. Afterwards nothing is pending but the exception that a
/// conversion of the value raises, if it does.
pub proof fn law_pending_exception_is_taken(engine: EngineView)
    requires
        engine.pending is Some,
    ensures
        ({
            let value = engine.pending->0;
            let (x, e, asked) = ExtractionView::Checking.converse(engine);
            &&& x == ExtractionView::Done(Some(value.thrown()))
            &&& e.pending == if value.raises_when_read() {
                Some(engine.raised)
            } else {
                None
            }
            &&& asked == seq![
                Question::IsExceptionPending,
                Question::GetPendingException,
                Question::ClearPendingException,
            ] + value.questions()
        }),
{
    let value = engine.pending->0;
    let cleared = EngineView { pending: None, held: value, ..engine };
    law_value_is_read(cleared);
    reveal_with_fuel(ExtractionView::converse, 4);
    let (x, e, asked) = ExtractionView::Checking.converse(engine);
    assert(asked =~= seq![
        Question::IsExceptionPending,
        Question::GetPendingException,
        Question::ClearPendingException,
    ] + value.questions());
}

/// Once an exception was taken, there is none left to take, unless reading it
/// raised another one: then that one is taken next.
pub proof fn law_exception_is_taken_once(engine: EngineView)
    ensures
        ({
            let (_, e, _) = ExtractionView::Checking.converse(engine);
            ExtractionView::Checking.converse(e).0 == ExtractionView::Done(
                if engine.pending is Some && engine.pending->0.raises_when_read() {
                    Some(engine.raised.thrown())
                } else {
                    None
                },
            )
        }),
{
    if engine.pending is Some {
        law_pending_exception_is_taken(engine);
    } else {
        law_nothing_pending_nothing_taken(engine);
    }
    let e = ExtractionView::Checking.converse(engine).1;
    if e.pending is Some {
        law_pending_exception_is_taken(e);
    } else {
        law_nothing_pending_nothing_taken(e);
    }
}

/// After a failed evaluation an answer to the question that was asked is
/// always accepted, and brings the end closer.
pub proof fn law_answers_to_a_failed_evaluation_make_progress(
    f: FailedEvaluationView,
    engine: EngineView,
    answer: AnswerView,
)
    ensures
        f.question() matches Some(q) ==> f.accepts(engine.reply(q)),
        f.accepts(answer) ==> f.after(answer).questions_left() < f.questions_left(),
{
}

/// From where an exception is being taken, a failed evaluation asks what the
/// taking asks, and clears once more if that left an exception of its own.
proof fn lemma_failed_evaluation_follows_the_taking(x: ExtractionView, engine: EngineView)
    requires
        !(x is Done),
    ensures
        ({
            let (taken, e, asked) = x.converse(engine);
            FailedEvaluationView::Taking(x).converse(engine) == match taken {
                ExtractionView::Done(Some(val)) => if val.raised() {
                    (
                        FailedEvaluationView::Done(Some(val)),
                        EngineView { pending: None, ..e },
                        asked.push(Question::ClearPendingException),
                    )
                } else {
                    (FailedEvaluationView::Done(Some(val)), e, asked)
                },
                _ => (FailedEvaluationView::Done(None), e, asked),
            }
        }),
    decreases x.questions_left(),
{
    reveal_with_fuel(ExtractionView::converse, 2);
    reveal_with_fuel(FailedEvaluationView::converse, 3);
    let q = x.question()->0;
    let next = x.after(engine.reply(q));
    if !(next is Done) {
        lemma_failed_evaluation_follows_the_taking(next, engine.after(q));
    }
    let (taken, e, asked) = x.converse(engine);
    let (f, g, all) = FailedEvaluationView::Taking(x).converse(engine);
    if taken matches ExtractionView::Done(Some(val)) && val.raised() {
        assert(all =~= asked.push(Question::ClearPendingException));
    } else {
        assert(all =~= asked);
    }
}

/// After a failed evaluation the exception is taken whole and nothing is
/// pending, whatever the engine does: not even an exception that reading the
/// value raised.
pub proof fn law_failed_evaluation_leaves_nothing_pending(engine: EngineView)
    ensures
        ({
            let (f, e, asked) = FailedEvaluationView::Taking(ExtractionView::Checking).converse(
                engine,
            );
            &&& f == FailedEvaluationView::Done(
                match engine.pending {
                    Some(value) => Some(value.thrown()),
                    None => None,
                },
            )
            &&& e.pending is None
            &&& asked == FailedEvaluationView::questions_about(engine.pending)
        }),
{
    lemma_failed_evaluation_follows_the_taking(ExtractionView::Checking, engine);
    let (f, e, asked) = FailedEvaluationView::Taking(ExtractionView::Checking).converse(engine);
    if engine.pending is Some {
        law_pending_exception_is_taken(engine);
    } else {
        law_nothing_pending_nothing_taken(engine);
    }
    assert(asked =~= FailedEvaluationView::questions_about(engine.pending));
}

} // verus!
