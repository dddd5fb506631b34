//! What holds of a task from its creation to its end, whatever its file, its
//! script and its channels do.

use vstd::prelude::*;

use crate::error::ErrorKindView;
use crate::exception::ThrownValueView;
use crate::extraction::{EngineView, ExtractionView, FailedEvaluationView};
use crate::main_thread::{MainActionView, MainEventView, MainThread};
use crate::task::{
    ActionView, Async, DeliveryView, EventView, StarlingMessageView, StateView, TaskId,
    TaskMessageView, TaskView,
};

verus! {

/// Whether `event` is what can come of doing `action`. What was started, or
/// what is waited for, comes back as a poll; after the end nothing comes.
pub open spec fn answers<Id>(action: ActionView<Id>, event: EventView) -> bool {
    match action {
        ActionView::ReadJsModule => event is Polled,
        ActionView::PollRead => event is Read,
        ActionView::Evaluate { .. } => event is Evaluated,
        ActionView::NotifyStarling(_) => event is Polled,
        ActionView::NotifyParent(_) => event is Polled,
        ActionView::PollNotify => event is Notified,
        ActionView::Return(Ok(Async::NotReady)) => event is Polled,
        ActionView::Return(_) => false,
    }
}

/// The task after `events`.
pub open spec fn task_after<Id>(task: TaskView<Id>, events: Seq<EventView>) -> TaskView<Id>
    decreases events.len(),
{
    if events.len() == 0 {
        task
    } else {
        task_after(task, events.drop_last()).step(events.last()).0
    }
}

/// What the last of `events` led to.
pub open spec fn last_action<Id>(task: TaskView<Id>, events: Seq<EventView>) -> ActionView<Id>
    recommends
        events.len() > 0,
{
    task_after(task, events.drop_last()).step(events.last()).1
}

/// Whether `events` can happen to `task`, one after the other: the first is a
/// poll, and each of the others comes of what was done before it.
pub open spec fn is_run<Id>(task: TaskView<Id>, events: Seq<EventView>) -> bool
    decreases events.len(),
{
    if events.len() == 0 {
        false
    } else if events.len() == 1 {
        events[0] is Polled
    } else {
        &&& is_run(task, events.drop_last())
        &&& answers(last_action(task, events.drop_last()), events.last())
    }
}

/// A message that a task sends.
pub enum Sent<Id> {
    ToStarling(StarlingMessageView<Id>),
    ToParent(DeliveryView<Id>),
}

/// The messages sent in the course of `events`, in order.
pub open spec fn sent<Id>(task: TaskView<Id>, events: Seq<EventView>) -> Seq<Sent<Id>>
    decreases events.len(),
{
    if events.len() == 0 {
        Seq::empty()
    } else {
        let before = sent(task, events.drop_last());
        match last_action(task, events) {
            ActionView::NotifyStarling(msg) => before.push(Sent::ToStarling(msg)),
            ActionView::NotifyParent(d) => before.push(Sent::ToParent(d)),
            _ => before,
        }
    }
}

/// The messages sent by a task that has just started to send one, and in the
/// course of `events` after that.
pub open spec fn sent_from<Id>(
    start: (TaskView<Id>, ActionView<Id>),
    events: Seq<EventView>,
) -> Seq<Sent<Id>> {
    match start.1 {
        ActionView::NotifyStarling(msg) => seq![Sent::ToStarling(msg)] + sent(start.0, events),
        ActionView::NotifyParent(d) => seq![Sent::ToParent(d)] + sent(start.0, events),
        _ => sent(start.0, events),
    }
}

/// How often the task started to read its file in the course of `events`.
pub open spec fn reads<Id>(task: TaskView<Id>, events: Seq<EventView>) -> nat
    decreases events.len(),
{
    if events.len() == 0 {
        0
    } else {
        reads(task, events.drop_last()) + if last_action(task, events) is ReadJsModule {
            1nat
        } else {
            0nat
        }
    }
}

/// How often the task had its script evaluated in the course of `events`.
pub open spec fn evaluations<Id>(task: TaskView<Id>, events: Seq<EventView>) -> nat
    decreases events.len(),
{
    if events.len() == 0 {
        0
    } else {
        evaluations(task, events.drop_last()) + if last_action(task, events) is Evaluate {
            1nat
        } else {
            0nat
        }
    }
}

/// Whether `event` says that a message has arrived.
pub open spec fn is_arrival(event: EventView) -> bool {
    event matches EventView::Notified(Ok(Async::Ready(_)))
}

/// How the evaluation of the script went in the course of `events`, if it
/// took place.
pub open spec fn outcome(events: Seq<EventView>) -> Option<Result<(), Option<ThrownValueView>>>
    decreases events.len(),
{
    if events.len() == 0 {
        None
    } else if let EventView::Evaluated(o) = events.last() {
        Some(o)
    } else {
        outcome(events.drop_last())
    }
}

/// How often something was not ready in the course of `events`.
pub open spec fn waits(events: Seq<EventView>) -> nat
    decreases events.len(),
{
    if events.len() == 0 {
        0
    } else {
        waits(events.drop_last()) + if is_wait(events.last()) {
            1nat
        } else {
            0nat
        }
    }
}

/// Whether `event` says that something is not ready.
pub open spec fn is_wait(event: EventView) -> bool {
    match event {
        EventView::Read(Ok(Async::NotReady)) => true,
        EventView::Notified(Ok(Async::NotReady)) => true,
        _ => false,
    }
}

/// What the supervisory thread is told of a script that was evaluated.
pub open spec fn told_starling<Id>(
    task: TaskView<Id>,
    o: Result<(), Option<ThrownValueView>>,
) -> Sent<Id> {
    Sent::ToStarling(
        match o {
            Ok(_) => StarlingMessageView::TaskFinished(task.id),
            Err(pending) => StarlingMessageView::TaskErrored(
                task.id,
                crate::task::evaluation_error(pending).as_message(),
            ),
        },
    )
}

/// What the parent `p` is told of a script that was evaluated.
pub open spec fn told_parent<Id>(
    task: TaskView<Id>,
    p: TaskId<Id>,
    o: Result<(), Option<ThrownValueView>>,
) -> Sent<Id> {
    Sent::ToParent(
        DeliveryView {
            to: p,
            msg: match o {
                Ok(_) => TaskMessageView::ChildTaskFinished(task.id),
                Err(pending) => TaskMessageView::ChildTaskErrored(
                    task.id,
                    crate::task::evaluation_error(pending).as_message(),
                ),
            },
        },
    )
}

/// All that is told of a script that was evaluated: the supervisory thread
/// first, and then the parent, if there is one.
pub open spec fn full_report<Id>(
    task: TaskView<Id>,
    o: Result<(), Option<ThrownValueView>>,
) -> Seq<Sent<Id>> {
    match task.parent {
        Some(p) => seq![told_starling(task, o), told_parent(task, p, o)],
        None => seq![told_starling(task, o)],
    }
}

/// The state in which the supervisory thread is told of `o`.
pub open spec fn telling_starling(o: Result<(), Option<ThrownValueView>>) -> StateView {
    match o {
        Ok(_) => StateView::NotifyStarlingFinished,
        Err(pending) => StateView::NotifyStarlingErrored(crate::task::evaluation_error(pending)),
    }
}

/// The state in which the parent is told of `o`.
pub open spec fn telling_parent(o: Result<(), Option<ThrownValueView>>) -> StateView {
    match o {
        Ok(_) => StateView::NotifyParentFinished,
        Err(_) => StateView::NotifyParentErrored,
    }
}

/// How the state of a task, the last thing done, the messages sent and the
/// number of events hang together in the course of a run.
pub open spec fn in_order<Id>(task: TaskView<Id>, events: Seq<EventView>) -> bool {
    let now = task_after(task, events);
    let action = last_action(task, events);
    let n = events.len() - 2 * waits(events);
    &&& now == task.in_state(now.state)
    &&& match outcome(events) {
        None => {
            &&& now.state is ReadingJsModule
            &&& sent(task, events) == Seq::<Sent<Id>>::empty()
            &&& match action {
                ActionView::ReadJsModule => n == 1,
                ActionView::PollRead => n == 2,
                ActionView::Evaluate { .. } => n == 3,
                ActionView::Return(Ok(Async::NotReady)) => n == 1,
                ActionView::Return(Err(_)) => n == 3,
                _ => false,
            }
        },
        Some(o) => {
            if now.state == telling_starling(o) {
                &&& sent(task, events) == seq![told_starling(task, o)]
                &&& match action {
                    ActionView::NotifyStarling(_) => n == 4,
                    ActionView::PollNotify => n == 5,
                    ActionView::Return(Ok(Async::NotReady)) => n == 4,
                    ActionView::Return(Ok(Async::Ready(_))) => n == 6 && task.parent is None,
                    ActionView::Return(Err(_)) => n == 6,
                    _ => false,
                }
            } else {
                &&& now.state == telling_parent(o)
                &&& task.parent is Some
                &&& sent(task, events) == full_report(task, o)
                &&& match action {
                    ActionView::NotifyParent(_) => n == 6,
                    ActionView::PollNotify => n == 7,
                    ActionView::Return(Ok(Async::NotReady)) => n == 6,
                    ActionView::Return(_) => n == 8,
                    _ => false,
                }
            }
        },
    }
}

/// Every run is in order.
proof fn lemma_run_is_in_order<Id>(task: TaskView<Id>, events: Seq<EventView>)
    requires
        task.state is Created,
        is_run(task, events),
    ensures
        in_order(task, events),
    decreases events.len(),
{
    reveal_with_fuel(sent, 2);
    reveal_with_fuel(task_after, 2);
    reveal_with_fuel(outcome, 2);
    reveal_with_fuel(waits, 2);
    let before = events.drop_last();
    if events.len() == 1 {
        assert(before =~= Seq::empty());
    } else {
        lemma_run_is_in_order(task, before);
        if let Some(o) = outcome(events) {
            if task_after(task, events).state == telling_starling(o) {
                assert(sent(task, events) =~= seq![told_starling(task, o)]);
            } else {
                assert(sent(task, events) =~= full_report(task, o));
            }
        }
    }
}

/// The file is read once, and the script evaluated at most once.
proof fn lemma_done_once<Id>(task: TaskView<Id>, events: Seq<EventView>)
    requires
        task.state is Created,
        is_run(task, events),
    ensures
        reads(task, events) == 1,
        evaluations(task, events) == if outcome(events) is Some || last_action(
            task,
            events,
        ) is Evaluate {
            1nat
        } else {
            0nat
        },
    decreases events.len(),
{
    reveal_with_fuel(reads, 2);
    reveal_with_fuel(evaluations, 2);
    let before = events.drop_last();
    lemma_run_is_in_order(task, events);
    if events.len() == 1 {
        assert(before =~= Seq::empty());
    } else {
        lemma_run_is_in_order(task, before);
        lemma_done_once(task, before);
    }
}

/// What holds of a task from when it begins to tell the supervisory thread.
proof fn lemma_report_is_in_order<Id>(task: TaskView<Id>, events: Seq<EventView>)
    requires
        task.state is NotifyStarlingFinished || task.state is NotifyStarlingErrored,
        is_run(task, events),
    ensures
        ({
            let now = task_after(task, events);
            let action = last_action(task, events);
            if now.state == task.state {
                &&& now == task
                &&& sent(task, events) == Seq::<Sent<Id>>::empty()
                &&& action is PollNotify || action is Return
                &&& action == ActionView::<Id>::Return(Ok(Async::Ready(()))) ==> task.parent is None
            } else {
                &&& now == task.notified().0
                &&& now.state is NotifyParentFinished || now.state is NotifyParentErrored
                &&& task.parent is Some
                &&& task.notified().1 matches ActionView::NotifyParent(d) && sent(task, events)
                    == seq![Sent::ToParent(d)]
                &&& action is NotifyParent || action is PollNotify || action is Return
            }
        }),
    decreases events.len(),
{
    reveal_with_fuel(sent, 2);
    reveal_with_fuel(task_after, 2);
    let before = events.drop_last();
    if events.len() == 1 {
        assert(before =~= Seq::empty());
    } else {
        lemma_report_is_in_order(task, before);
        if task_after(task, events).state != task.state {
            if let ActionView::NotifyParent(d) = task.notified().1 {
                assert(sent(task, events) =~= seq![Sent::ToParent(d)]);
            }
        }
    }
}

/// A run is never stuck: whatever comes of what the task has done can happen
/// to it.
pub proof fn law_run_goes_on<Id>(task: TaskView<Id>, events: Seq<EventView>, next: EventView)
    requires
        task.state is Created,
        is_run(task, events),
        answers(last_action(task, events), next),
    ensures
        task_after(task, events).accepts(next),
{
    lemma_run_is_in_order(task, events);
}

/// A task that has come to its end has evaluated its script and has told how
/// that went: the supervisory thread first, and then its parent, if it has
/// one, each of them once.
pub proof fn law_completed_task_has_reported<Id>(task: TaskView<Id>, events: Seq<EventView>)
    requires
        task.state is Created,
        is_run(task, events),
        last_action(task, events) == ActionView::<Id>::Return(Ok(Async::Ready(()))),
    ensures
        outcome(events) matches Some(o) && sent(task, events) == full_report(task, o),
{
    lemma_run_is_in_order(task, events);
}

/// At no time has a task told anything but the beginning of its report, and
/// nothing at all before its script was evaluated.
pub proof fn law_reports_come_in_order<Id>(task: TaskView<Id>, events: Seq<EventView>)
    requires
        task.state is Created,
        is_run(task, events),
    ensures
        match outcome(events) {
            Some(o) => sent(task, events).is_prefix_of(full_report(task, o)),
            None => sent(task, events).len() == 0,
        },
{
    lemma_run_is_in_order(task, events);
}

/// The parent is told only after the supervisory thread was.
pub proof fn law_starling_is_told_before_the_parent<Id>(
    task: TaskView<Id>,
    events: Seq<EventView>,
    i: int,
)
    requires
        task.state is Created,
        is_run(task, events),
        0 <= i < sent(task, events).len(),
    ensures
        sent(task, events)[i] is ToStarling <==> i == 0,
{
    lemma_run_is_in_order(task, events);
}

/// The parent is told only once the message to the supervisory thread has
/// arrived: wherever the parent was told, there is an event that says so,
/// before which the supervisory thread alone was told, and which led to the
/// message to the parent.
pub proof fn law_parent_is_told_after_starling_has_heard<Id>(
    task: TaskView<Id>,
    events: Seq<EventView>,
)
    requires
        task.state is Created,
        is_run(task, events),
        sent(task, events).len() == 2,
    ensures
        exists|k: int|
            0 <= k < events.len() && #[trigger] is_arrival(events[k]) && sent(
                task,
                events.take(k),
            ).len() == 1 && last_action(task, events.take(k + 1)) is NotifyParent,
    decreases events.len(),
{
    lemma_run_is_in_order(task, events);
    let before = events.drop_last();
    let n = events.len() as int;
    assert(before =~= events.take(n - 1));
    assert(events.take(n) =~= events);
    if events.len() > 1 {
        lemma_run_is_in_order(task, before);
    }
    if last_action(task, events) is NotifyParent {
        assert(is_arrival(events[n - 1]));
    } else {
        law_parent_is_told_after_starling_has_heard(task, before);
        let k = choose|k: int|
            0 <= k < before.len() && #[trigger] is_arrival(before[k]) && sent(
                task,
                before.take(k),
            ).len() == 1 && last_action(task, before.take(k + 1)) is NotifyParent;
        assert(before.take(k) =~= events.take(k));
        assert(before.take(k + 1) =~= events.take(k + 1));
        assert(is_arrival(events[k]));
    }
}

/// A task reads its file once and evaluates its script at most once, and
/// exactly once if it comes to its end.
pub proof fn law_script_is_evaluated_once<Id>(task: TaskView<Id>, events: Seq<EventView>)
    requires
        task.state is Created,
        is_run(task, events),
    ensures
        reads(task, events) == 1,
        evaluations(task, events) <= 1,
        last_action(task, events) == ActionView::<Id>::Return(Ok(Async::Ready(())))
            ==> evaluations(task, events) == 1,
{
    lemma_done_once(task, events);
    lemma_run_is_in_order(task, events);
}

/// Once a task tells that it failed, whatever the error, and then comes to its
/// end, the supervisory thread was told once and the parent, if there is one,
/// was told once. Both messages name the task and carry the text of the error
/// as a message.
pub proof fn law_error_reaches_starling_and_parent<Id>(
    task: TaskView<Id>,
    error: ErrorKindView,
    events: Seq<EventView>,
)
    requires
        is_run(task.telling_errored(error).0, events),
        last_action(task.telling_errored(error).0, events) == ActionView::<Id>::Return(
            Ok(Async::Ready(())),
        ),
    ensures
        ({
            let e = error.as_message();
            let to_starling = Sent::ToStarling(StarlingMessageView::TaskErrored(task.id, e));
            &&& e is Msg
            &&& e.text() == error.text()
            &&& sent_from(task.telling_errored(error), events) == match task.parent {
                Some(p) => seq![
                    to_starling,
                    Sent::ToParent(
                        DeliveryView { to: p, msg: TaskMessageView::ChildTaskErrored(task.id, e) },
                    ),
                ],
                None => seq![to_starling],
            }
        }),
{
    let (telling, action) = task.telling_errored(error);
    lemma_report_is_in_order(telling, events);
    let e = error.as_message();
    let to_starling = Sent::ToStarling(StarlingMessageView::TaskErrored(task.id, e));
    assert(sent_from((telling, action), events) =~= seq![to_starling] + sent(telling, events));
}

/// Once a task tells that it finished, and then comes to its end, the
/// supervisory thread was told once and the parent, if there is one, was told
/// once.
pub proof fn law_finish_reaches_starling_and_parent<Id>(
    task: TaskView<Id>,
    events: Seq<EventView>,
)
    requires
        is_run(task.telling_finished().0, events),
        last_action(task.telling_finished().0, events) == ActionView::<Id>::Return(
            Ok(Async::Ready(())),
        ),
    ensures
        ({
            let to_starling = Sent::ToStarling(StarlingMessageView::TaskFinished(task.id));
            sent_from(task.telling_finished(), events) == match task.parent {
                Some(p) => seq![
                    to_starling,
                    Sent::ToParent(
                        DeliveryView { to: p, msg: TaskMessageView::ChildTaskFinished(task.id) },
                    ),
                ],
                None => seq![to_starling],
            }
        }),
{
    let (telling, action) = task.telling_finished();
    lemma_report_is_in_order(telling, events);
    let to_starling = Sent::ToStarling(StarlingMessageView::TaskFinished(task.id));
    assert(sent_from((telling, action), events) =~= seq![to_starling] + sent(telling, events));
}

/// What the supervisory thread and the parent are told of a failed evaluation
/// shows the text of the exception.
pub proof fn law_reports_show_the_exception(pending: Option<ThrownValueView>)
    ensures
        crate::task::evaluation_error(pending).as_message().text()
            == crate::task::evaluation_exception(pending).text(),
{
}

/// An evaluation that fails leaves no exception pending in the engine, whatever
/// was thrown. The supervisory thread is told that the task failed, and the
/// error is a JavaScript exception, that of the value that was thrown.
pub proof fn law_failed_evaluation_is_reported<Id>(task: TaskView<Id>, engine: EngineView)
    ensures
        ({
            let (f, e, _) = FailedEvaluationView::Taking(ExtractionView::Checking).converse(engine);
            let thrown = match engine.pending {
                Some(value) => Some(value.thrown()),
                None => None,
            };
            let error = crate::task::evaluation_error(thrown);
            &&& e.pending is None
            &&& f == FailedEvaluationView::Done(thrown)
            &&& error is JavaScriptException
            &&& task.step(EventView::Evaluated(Err(thrown))) == (
                task.in_state(StateView::NotifyStarlingErrored(error)),
                ActionView::NotifyStarling(
                    StarlingMessageView::TaskErrored(task.id, error.as_message()),
                ),
            )
        }),
{
    crate::extraction::law_failed_evaluation_leaves_nothing_pending(engine);
}

/// A task fails in two ways only. Either its file could not be read: then the
/// error is that of the reading, and nobody was told anything. Or a message
/// could not be delivered: then the error says which.
pub proof fn law_failure_has_a_cause<Id>(
    task: TaskView<Id>,
    events: Seq<EventView>,
    e: ErrorKindView,
)
    requires
        task.state is Created,
        is_run(task, events),
        last_action(task, events) == ActionView::<Id>::Return(Err(e)),
    ensures
        match outcome(events) {
            None => events.last() == EventView::Read(Err(e)) && sent(task, events).len() == 0,
            Some(_) => {
                &&& events.last() matches EventView::Notified(Err(_))
                &&& e == ErrorKindView::Msg(task_after(task, events).undelivered())
            },
        },
{
    lemma_run_is_in_order(task, events);
    if events.len() > 1 {
        lemma_run_is_in_order(task, events.drop_last());
    }
}

/// A task returns to its event loop to wait only if the file or the message
/// that it waits for was polled just before and was not ready. So the event
/// loop knows when to poll the task again.
pub proof fn law_waiting_tasks_are_registered<Id>(task: TaskView<Id>, events: Seq<EventView>)
    requires
        task.state is Created,
        is_run(task, events),
        last_action(task, events) == ActionView::<Id>::Return(Ok(Async::NotReady)),
    ensures
        is_wait(events.last()),
        events.len() >= 2,
        task_after(task, events) == task_after(task, events.drop_last()),
        last_action(task, events.drop_last()) == if task_after(task, events).state
            is ReadingJsModule {
            ActionView::<Id>::PollRead
        } else {
            ActionView::<Id>::PollNotify
        },
{
    lemma_run_is_in_order(task, events);
    lemma_run_is_in_order(task, events.drop_last());
}

/// Whatever a task has started is polled next.
pub proof fn law_started_work_is_polled<Id>(task: TaskView<Id>, event: EventView)
    requires
        task.accepts(event),
    ensures
        ({
            let (next, action) = task.step(event);
            let polled = next.step(EventView::Polled);
            &&& action is ReadJsModule ==> polled == (next, ActionView::<Id>::PollRead)
            &&& action is NotifyStarling || action is NotifyParent ==> polled == (
                next,
                ActionView::<Id>::PollNotify,
            )
        }),
{
}

/// A task comes to its end after at most eight events, not counting those
/// that say that something is not ready and the polls that follow them.
pub proof fn law_runs_are_bounded<Id>(task: TaskView<Id>, events: Seq<EventView>)
    requires
        task.state is Created,
        is_run(task, events),
    ensures
        events.len() <= 8 + 2 * waits(events),
{
    lemma_run_is_in_order(task, events);
}

/// A task keeps its ID, its file and its parent.
pub proof fn law_task_keeps_its_identity<Id>(task: TaskView<Id>, events: Seq<EventView>)
    ensures
        task_after(task, events) == task.in_state(task_after(task, events).state),
    decreases events.len(),
{
    if events.len() > 0 {
        law_task_keeps_its_identity(task, events.drop_last());
    }
}

/// The supervisory thread is told of every main task that runs to its end, and
/// is told one thing: by the task itself if its script was evaluated, and by
/// the thread of the task if its file could not be read. Where the task's own
/// message could not be delivered, the thread of the task reports that.
pub proof fn law_starling_is_told_of_a_main_task<Id>(
    task: TaskView<Id>,
    events: Seq<EventView>,
    ran: Result<(), ErrorKindView>,
)
    requires
        task.state is Created,
        task.parent is None,
        is_run(task, events),
        last_action(task, events) == match ran {
            Ok(_) => ActionView::<Id>::Return(Ok(Async::Ready(()))),
            Err(e) => ActionView::<Id>::Return(Err(e)),
        },
    ensures
        ({
            let (_, last) = MainThread::Running(task.id).step(MainEventView::Ran(ran));
            match (ran, outcome(events)) {
                (Ok(_), o) => {
                    &&& o is Some
                    &&& sent(task, events) == seq![told_starling(task, o->0)]
                    &&& last == MainActionView::<Id>::Exit
                },
                (Err(e), None) => {
                    &&& sent(task, events).len() == 0
                    &&& last == MainActionView::NotifyStarling(
                        StarlingMessageView::TaskErrored(task.id, e),
                    )
                },
                (Err(e), Some(o)) => {
                    &&& sent(task, events) == seq![told_starling(task, o)]
                    &&& events.last() matches EventView::Notified(Err(_))
                    &&& last == MainActionView::NotifyStarling(
                        StarlingMessageView::TaskErrored(task.id, e),
                    )
                },
            }
        }),
{
    lemma_run_is_in_order(task, events);
    if let Err(e) = ran {
        law_failure_has_a_cause(task, events, e);
    }
}

} // verus!
