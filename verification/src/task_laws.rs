//! What tasks and the thread of the main task do, said of the values that go
//! into each call and of those that come out of it.

use vstd::prelude::*;

use crate::error::{Error, ErrorKind, ErrorKindView, IoError};
use crate::exception::{JsException, ThrownValue};
use crate::main_thread::{MainAction, MainActionView, MainEvent, MainThread};
use crate::task::{
    Action, ActionView, Async, Delivery, DeliveryView, Event, EventView, StarlingMessage,
    StarlingMessageView, State, Task, TaskHandle, TaskId, TaskMessage, TaskMessageView, TaskView,
    ThreadId,
};
use crate::task_run::Sent;

verus! {

/// The thread identifier of a task is the one in its ID.
pub proof fn law_thread_id_is_that_of_the_task<Id>(task_id: TaskId<Id>, thread_id: ThreadId<Id>)
    requires
        call_ensures(<ThreadId<Id> as From<TaskId<Id>>>::from, (task_id,), thread_id),
    ensures
        TaskId(thread_id) == task_id,
{
}

/// A handle gives the ID of its task, and sends every message unchanged to
/// that task.
pub proof fn law_handles_reach_their_task<Id: Copy>(
    handle: TaskHandle<Id>,
    msg: TaskMessage<Id>,
    id: TaskId<Id>,
    delivery: Delivery<Id>,
)
    requires
        call_ensures(TaskHandle::<Id>::id, (&handle,), id),
        call_ensures(TaskHandle::<Id>::send, (&handle, msg), delivery),
    ensures
        id == handle.id,
        delivery.to == id,
        delivery.msg == msg,
{
}

/// The handle of a task is a handle to that task.
pub proof fn law_task_gives_its_own_handle<Id: Copy>(task: Task<Id>, handle: TaskHandle<Id>)
    requires
        call_ensures(Task::<Id>::handle, (&task,), handle),
    ensures
        handle == task.handle,
{
}

/// With a runtime, the main task is created with the given ID and file and
/// without a parent, and has done nothing yet. Without one, the error says
/// that.
pub proof fn law_main_task_is_created_without_parent<Id: Copy>(
    id: TaskId<Id>,
    js_file: String,
    with_runtime: Result<Task<Id>, Error>,
    without_runtime: Result<Task<Id>, Error>,
)
    requires
        call_ensures(Task::<Id>::create_main, (Ok(()), id, js_file), with_runtime),
        call_ensures(Task::<Id>::create_main, (Err(()), id, js_file), without_runtime),
    ensures
        with_runtime matches Ok(task) && task.handle.id == id && task.js_file@ == js_file@
            && task.parent is None && task.state is Created,
        without_runtime matches Err(Error(ErrorKind::CouldNotCreateJavaScriptRuntime)),
{
}

/// With a runtime, a child task is created with the given ID and file and as a
/// child of the given parent, and has done nothing yet. Without one, the error
/// says that.
pub proof fn law_child_task_is_created_with_parent<Id: Copy>(
    id: TaskId<Id>,
    js_file: String,
    parent: TaskHandle<Id>,
    with_runtime: Result<Task<Id>, Error>,
    without_runtime: Result<Task<Id>, Error>,
)
    requires
        id != parent.id,
        call_ensures(Task::<Id>::create_child, (Ok(()), id, js_file, parent), with_runtime),
        call_ensures(Task::<Id>::create_child, (Err(()), id, js_file, parent), without_runtime),
    ensures
        with_runtime matches Ok(task) && task.handle.id == id && task.js_file@ == js_file@
            && task.parent is Some && task.parent->0.id == parent.id && task.state is Created,
        without_runtime matches Err(Error(ErrorKind::CouldNotCreateJavaScriptRuntime)),
{
}

/// A task can always be polled. Its reading and its evaluation can be over only
/// while the file is being read, and the sending of a message only while one
/// is on its way. What can happen can be gone on from.
pub proof fn law_events_fit_the_state<Id: Copy>(task: &mut Task<Id>, event: Event, accepted: bool)
    requires
        call_ensures(Task::<Id>::accepts, (&*old(task), &event), accepted),
    ensures
        accepted <==> match event {
            Event::Polled => true,
            Event::Read(_) => old(task).state is ReadingJsModule,
            Event::Evaluated(_) => old(task).state is ReadingJsModule,
            Event::Notified(_) => {
                ||| old(task).state is NotifyStarlingFinished
                ||| old(task).state is NotifyParentFinished
                ||| old(task).state is NotifyStarlingErrored
                ||| old(task).state is NotifyParentErrored
            },
        },
        accepted ==> call_requires(Task::<Id>::poll, (task, event)),
{
}

/// Whether two tasks have the same ID, file and parent.
pub open spec fn same_identity<Id>(a: Task<Id>, b: Task<Id>) -> bool {
    &&& a.handle.id == b.handle.id
    &&& a.js_file@ == b.js_file@
    &&& a.parent is Some <==> b.parent is Some
    &&& a.parent is Some ==> a.parent->0.id == b.parent->0.id
}

/// Whether two states are the same.
pub open spec fn same_state(a: State, b: State) -> bool {
    match (a, b) {
        (State::Created, State::Created) => true,
        (State::ReadingJsModule, State::ReadingJsModule) => true,
        (State::NotifyStarlingFinished, State::NotifyStarlingFinished) => true,
        (State::NotifyParentFinished, State::NotifyParentFinished) => true,
        (State::NotifyStarlingErrored(e), State::NotifyStarlingErrored(f)) => {
            crate::error_laws::same_error(e, f)
        },
        (State::NotifyParentErrored, State::NotifyParentErrored) => true,
        _ => false,
    }
}

/// Two tasks with the same mathematical value are in the same state.
proof fn lemma_same_state<Id>(a: Task<Id>, b: Task<Id>)
    requires
        a@ == b@,
    ensures
        same_state(a.state, b.state),
{
    if a.state is NotifyStarlingErrored {
        crate::error_laws::lemma_same_error(
            a.state->NotifyStarlingErrored_0,
            b.state->NotifyStarlingErrored_0,
        );
    }
}

/// Whatever happens to a task, it keeps its ID, its file and its parent.
pub proof fn law_poll_keeps_the_identity<Id: Copy>(
    task: &mut Task<Id>,
    event: Event,
    action: Action<Id>,
)
    requires
        call_ensures(Task::<Id>::poll, (task, event), action),
    ensures
        same_identity(*final(task), *old(task)),
{
}

/// The state of a task changes only when a new task is polled, when its script
/// was evaluated, and when a message to the supervisory thread has arrived
/// while there is a parent to be told as well.
pub proof fn law_poll_keeps_the_state<Id: Copy>(
    task: &mut Task<Id>,
    event: Event,
    action: Action<Id>,
)
    requires
        call_ensures(Task::<Id>::poll, (task, event), action),
        event is Polled ==> !(old(task).state is Created),
        !(event is Evaluated),
        (event matches Event::Notified(Ok(Async::Ready(_)))) && old(task).parent is Some ==> !(old(task).state is NotifyStarlingFinished) && !(old(task).state is NotifyStarlingErrored),
    ensures
        same_state(final(task).state, old(task).state),
{
    lemma_same_state(*final(task), *old(task));
}

/// A new task that is polled starts to read its file. One that reads its file
/// polls the reading, and every other one the sending of its message.
pub proof fn law_polled_task_goes_on<Id: Copy>(task: &mut Task<Id>, action: Action<Id>)
    requires
        call_ensures(Task::<Id>::poll, (task, Event::Polled), action),
    ensures
        old(task).state is Created ==> action is ReadJsModule && final(task).state is ReadingJsModule,
        old(task).state is ReadingJsModule ==> action is PollRead,
        !(old(task).state is Created) && !(old(task).state is ReadingJsModule)
            ==> action is PollNotify,
{
}

/// A text that was read is evaluated whole and unchanged, under the name of the
/// task's file and from its first line.
pub proof fn law_text_is_evaluated_as_read<Id: Copy>(
    task: &mut Task<Id>,
    text: String,
    action: Action<Id>,
)
    requires
        call_ensures(Task::<Id>::poll, (task, Event::Read(Ok(Async::Ready(text)))), action),
    ensures
        action matches Action::Evaluate { source, filename, line } && source == text && filename@
            == old(task).js_file@ && line == 1,
{
}

/// A task whose file could not be read ends with the error of the reading.
pub proof fn law_unreadable_file_is_the_error<Id: Copy>(
    task: &mut Task<Id>,
    error: Error,
    action: Action<Id>,
)
    requires
        call_ensures(Task::<Id>::poll, (task, Event::Read(Err(error))), action),
    ensures
        action == Action::<Id>::Return(Err(error)),
{
}

/// A task whose file or whose message is not ready returns that it is not
/// ready.
pub proof fn law_task_waits_for_what_is_not_ready<Id: Copy>(
    task: &mut Task<Id>,
    event: Event,
    action: Action<Id>,
)
    requires
        call_ensures(Task::<Id>::poll, (task, event), action),
        event matches Event::Read(Ok(Async::NotReady)) || event matches Event::Notified(
            Ok(Async::NotReady),
        ),
    ensures
        action matches Action::Return(Ok(Async::NotReady)),
{
}

/// Whatever happens to a task, a script is evaluated only if it is what was
/// just read.
pub proof fn law_only_what_was_read_is_evaluated<Id: Copy>(
    task: &mut Task<Id>,
    event: Event,
    action: Action<Id>,
)
    requires
        call_ensures(Task::<Id>::poll, (task, event), action),
        action is Evaluate,
    ensures
        event matches Event::Read(Ok(Async::Ready(text))) && action->source == text,
{
}

/// A task whose script was evaluated tells the supervisory thread that it
/// finished.
pub proof fn law_evaluated_task_tells_that_it_finished<Id: Copy>(
    task: &mut Task<Id>,
    action: Action<Id>,
)
    requires
        call_ensures(Task::<Id>::poll, (task, Event::Evaluated(Ok(()))), action),
    ensures
        final(task).state is NotifyStarlingFinished,
        action matches Action::NotifyStarling(StarlingMessage::TaskFinished(id)) && id == old(task).handle.id,
{
}

/// A task whose script threw a value tells the supervisory thread that it
/// failed, by a message with the text of the exception. The error it holds on
/// to is that exception.
pub proof fn law_failed_task_tells_the_exception<Id: Copy>(
    task: &mut Task<Id>,
    val: ThrownValue,
    exception: JsException,
    shown: String,
    action: Action<Id>,
)
    requires
        call_ensures(Task::<Id>::poll, (task, Event::Evaluated(Err(Some(val)))), action),
        call_ensures(JsException::from_thrown, (val,), exception),
        call_ensures(JsException::to_string, (&exception,), shown),
    ensures
        final(task).state matches State::NotifyStarlingErrored(
            Error(ErrorKind::JavaScriptException(x)),
        ) && crate::error_laws::same_exception(x, exception),
        action matches Action::NotifyStarling(
            StarlingMessage::TaskErrored(id, Error(ErrorKind::Msg(text))),
        ) && id == old(task).handle.id && text@ == shown@,
{
    crate::error_laws::lemma_same_error(
        final(task).state->NotifyStarlingErrored_0,
        Error(ErrorKind::JavaScriptException(exception)),
    );
}

/// Where an evaluation failed and nothing was thrown, the exception says no
/// more than that there was one.
pub proof fn law_failed_task_without_exception<Id: Copy>(task: &mut Task<Id>, action: Action<Id>)
    requires
        call_ensures(Task::<Id>::poll, (task, Event::Evaluated(Err(None))), action),
    ensures
        final(task).state matches State::NotifyStarlingErrored(
            Error(ErrorKind::JavaScriptException(JsException::Stringified(s))),
        ) && s@ == "JavaScript exception"@,
        action matches Action::NotifyStarling(
            StarlingMessage::TaskErrored(id, Error(ErrorKind::Msg(text))),
        ) && id == old(task).handle.id && text@ == "JavaScript exception"@,
{
}

/// Once the supervisory thread knows that a task finished, the task's parent is
/// told; a task without a parent has come to its end.
pub proof fn law_finish_is_told_to_the_parent<Id: Copy>(task: &mut Task<Id>, action: Action<Id>)
    requires
        call_ensures(Task::<Id>::poll, (task, Event::Notified(Ok(Async::Ready(())))), action),
        old(task).state is NotifyStarlingFinished,
    ensures
        match old(task).parent {
            Some(parent) => {
                &&& final(task).state is NotifyParentFinished
                &&& action matches Action::NotifyParent(
                    Delivery { to, msg: TaskMessage::ChildTaskFinished(id) },
                ) && to == parent.id && id == old(task).handle.id
            },
            None => action matches Action::Return(Ok(Async::Ready(_))),
        },
{
}

/// Once the supervisory thread knows that a task failed, the task's parent is
/// told, by a message with the text of the error; a task without a parent has
/// come to its end.
pub proof fn law_failure_is_told_to_the_parent<Id: Copy>(
    task: &mut Task<Id>,
    error: Error,
    shown: String,
    action: Action<Id>,
)
    requires
        call_ensures(Task::<Id>::poll, (task, Event::Notified(Ok(Async::Ready(())))), action),
        old(task).state == State::NotifyStarlingErrored(error),
        call_ensures(Error::to_string, (&error,), shown),
    ensures
        match old(task).parent {
            Some(parent) => {
                &&& final(task).state is NotifyParentErrored
                &&& action matches Action::NotifyParent(
                    Delivery {
                        to,
                        msg: TaskMessage::ChildTaskErrored(id, Error(ErrorKind::Msg(text))),
                    },
                ) && to == parent.id && id == old(task).handle.id && text@ == shown@
            },
            None => action matches Action::Return(Ok(Async::Ready(_))),
        },
{
}

/// Once the parent knows, the task has come to its end.
pub proof fn law_task_ends_when_the_parent_knows<Id: Copy>(task: &mut Task<Id>, action: Action<Id>)
    requires
        call_ensures(Task::<Id>::poll, (task, Event::Notified(Ok(Async::Ready(())))), action),
        old(task).state is NotifyParentFinished || old(task).state is NotifyParentErrored,
    ensures
        action matches Action::Return(Ok(Async::Ready(_))),
{
}

/// A message that cannot be delivered ends the task with an error that says who
/// could not be told of what.
pub proof fn law_undelivered_message_is_the_error<Id: Copy>(
    task: &mut Task<Id>,
    action: Action<Id>,
)
    requires
        call_ensures(Task::<Id>::poll, (task, Event::Notified(Err(()))), action),
    ensures
        action matches Action::Return(Err(Error(ErrorKind::Msg(text)))) && {
            &&& old(task).state is NotifyStarlingFinished ==> text@
                == "couldn't notify starling of task finished"@
            &&& old(task).state is NotifyParentFinished ==> text@
                == "couldn't notify parent of task finished"@
            &&& old(task).state is NotifyStarlingErrored ==> text@
                == "couldn't notify starling of task errored"@
            &&& old(task).state is NotifyParentErrored ==> text@
                == "couldn't notify parent of task errored"@
        },
{
}

/// Every run that comes to a file that could not be read ends there, with the
/// error of the reading.
pub proof fn law_run_ends_with_an_unreadable_file<Id>(
    task: TaskView<Id>,
    events: Seq<EventView>,
    error: ErrorKindView,
)
    requires
        crate::task_run::is_run(task, events),
        events.last() == EventView::Read(Err(error)),
    ensures
        crate::task_run::last_action(task, events) == ActionView::<Id>::Return(Err(error)),
{
}

/// Every run that comes to a text that was read goes on by evaluating that
/// text, under the name of the task's file and from its first line.
pub proof fn law_run_evaluates_what_was_read<Id>(
    task: TaskView<Id>,
    events: Seq<EventView>,
    text: Seq<char>,
)
    requires
        crate::task_run::is_run(task, events),
        events.last() == EventView::Read(Ok(Async::Ready(text))),
    ensures
        crate::task_run::last_action(task, events) == (ActionView::<Id>::Evaluate {
            source: text,
            filename: task.js_file,
            line: 1,
        }),
{
    crate::task_run::law_task_keeps_its_identity(task, events.drop_last());
}

/// In every run a script is evaluated only if it is what was just read, under
/// the name of the task's file and from its first line.
pub proof fn law_run_evaluates_nothing_else<Id>(task: TaskView<Id>, events: Seq<EventView>)
    requires
        crate::task_run::is_run(task, events),
    ensures
        crate::task_run::last_action(task, events) matches ActionView::Evaluate {
            source,
            filename,
            line,
        } ==> events.last() == EventView::Read(Ok(Async::Ready(source))) && filename == task.js_file
            && line == 1,
{
    crate::task_run::law_task_keeps_its_identity(task, events.drop_last());
}

/// A task that has come to its end after its script was evaluated has told the
/// supervisory thread that it finished, and then its parent, if it has one.
pub proof fn law_run_tells_that_the_task_finished<Id>(task: TaskView<Id>, events: Seq<EventView>)
    requires
        task.state is Created,
        crate::task_run::is_run(task, events),
        crate::task_run::outcome(events) matches Some(Ok(_)),
        crate::task_run::last_action(task, events) == ActionView::<Id>::Return(Ok(Async::Ready(()))),
    ensures
        ({
            let to_starling = Sent::ToStarling(StarlingMessageView::TaskFinished(task.id));
            crate::task_run::sent(task, events) == match task.parent {
                Some(p) => seq![
                    to_starling,
                    Sent::ToParent(
                        DeliveryView { to: p, msg: TaskMessageView::ChildTaskFinished(task.id) },
                    ),
                ],
                None => seq![to_starling],
            }
        }),
{
    crate::task_run::law_completed_task_has_reported(task, events);
}

/// A task that has come to its end after its script threw a value has told the
/// supervisory thread that it failed, and then its parent, if it has one, both
/// by a message with the text of the exception.
pub proof fn law_run_tells_the_exception<Id>(
    task: TaskView<Id>,
    events: Seq<EventView>,
    val: ThrownValue,
    exception: JsException,
    shown: String,
)
    requires
        task.state is Created,
        crate::task_run::is_run(task, events),
        crate::task_run::outcome(events) == Some(
            Err::<(), Option<crate::exception::ThrownValueView>>(Some(val@)),
        ),
        crate::task_run::last_action(task, events) == ActionView::<Id>::Return(Ok(Async::Ready(()))),
        call_ensures(JsException::from_thrown, (val,), exception),
        call_ensures(JsException::to_string, (&exception,), shown),
    ensures
        ({
            let error = ErrorKindView::Msg(shown@);
            let to_starling = Sent::ToStarling(StarlingMessageView::TaskErrored(task.id, error));
            crate::task_run::sent(task, events) == match task.parent {
                Some(p) => seq![
                    to_starling,
                    Sent::ToParent(
                        DeliveryView {
                            to: p,
                            msg: TaskMessageView::ChildTaskErrored(task.id, error),
                        },
                    ),
                ],
                None => seq![to_starling],
            }
        }),
{
    crate::task_run::law_completed_task_has_reported(task, events);
}

/// The thread of the main task begins by starting its event loop.
pub proof fn law_main_thread_starts_its_event_loop<Id: Copy>(r: (MainThread<Id>, MainAction<Id>))
    requires
        call_ensures(Task::<Id>::spawn_main, (), r),
    ensures
        r.0 is StartingEventLoop,
        r.1 is StartEventLoop,
{
}

/// On the thread of the main task only what is being done can come to its end,
/// and what can happen can be gone on from.
pub proof fn law_events_fit_the_thread<Id: Copy>(
    thread: &mut MainThread<Id>,
    event: MainEvent<Id>,
    accepted: bool,
)
    requires
        call_ensures(MainThread::<Id>::accepts, (&*old(thread), &event), accepted),
    ensures
        accepted <==> match event {
            MainEvent::EventLoop(_) => *old(thread) is StartingEventLoop,
            MainEvent::Created(_) => *old(thread) is CreatingTask,
            MainEvent::Ran(_) => *old(thread) is Running,
        },
        accepted ==> call_requires(MainThread::<Id>::advance, (thread, event)),
{
}

/// Once the event loop is started, the task is created. If it cannot be
/// started, the spawner is told the error, and that is all.
pub proof fn law_event_loop_comes_before_the_task<Id: Copy>(
    thread: &mut MainThread<Id>,
    started: Result<(), IoError>,
    action: MainAction<Id>,
)
    requires
        *old(thread) is StartingEventLoop,
        call_ensures(MainThread::<Id>::advance, (thread, MainEvent::EventLoop(started)), action),
    ensures
        match started {
            Ok(_) => action is CreateTask && *final(thread) is CreatingTask,
            Err(e) => action == MainAction::<Id>::ReplyError(Error(ErrorKind::Io(e))) && *final(thread) is Over,
        },
{
}

/// Once the task is created, the spawner is given its handle and the task is
/// run. If it cannot be created, the spawner is told the error, and that is
/// all.
pub proof fn law_created_task_is_handed_over_and_run<Id: Copy>(
    thread: &mut MainThread<Id>,
    created: Result<TaskHandle<Id>, Error>,
    action: MainAction<Id>,
)
    requires
        *old(thread) is CreatingTask,
        call_ensures(MainThread::<Id>::advance, (thread, MainEvent::Created(created)), action),
    ensures
        match created {
            Ok(handle) => action == MainAction::ReplyAndRun(handle) && *final(thread)
                == MainThread::Running(handle.id),
            Err(e) => action == MainAction::<Id>::ReplyError(e) && *final(thread) is Over,
        },
{
}

/// Once the task has run, the thread ends. If the run failed, the supervisory
/// thread is told first, of that task and with that error.
pub proof fn law_failed_run_is_told<Id: Copy>(
    thread: &mut MainThread<Id>,
    id: TaskId<Id>,
    ran: Result<(), Error>,
    action: MainAction<Id>,
)
    requires
        *old(thread) == MainThread::Running(id),
        call_ensures(MainThread::<Id>::advance, (thread, MainEvent::Ran(ran)), action),
    ensures
        *final(thread) is Over,
        match ran {
            Ok(_) => action is Exit,
            Err(e) => action == MainAction::NotifyStarling(StarlingMessage::TaskErrored(id, e)),
        },
{
}

/// All that is done on the thread of a main task, case by case.
pub proof fn law_main_thread_does_one_thing_after_another<Id>(
    event_loop: Result<(), crate::error::IoErrorView>,
    created: Result<TaskHandle<Id>, ErrorKindView>,
    ran: Result<(), ErrorKindView>,
)
    ensures
        crate::main_thread::main_actions(event_loop, created, ran) == match (
            event_loop,
            created,
            ran,
        ) {
            (Err(e), _, _) => seq![
                MainActionView::<Id>::StartEventLoop,
                MainActionView::ReplyError(ErrorKindView::Io(e)),
            ],
            (_, Err(e), _) => seq![
                MainActionView::StartEventLoop,
                MainActionView::CreateTask,
                MainActionView::ReplyError(e),
            ],
            (_, Ok(h), Ok(_)) => seq![
                MainActionView::StartEventLoop,
                MainActionView::CreateTask,
                MainActionView::ReplyAndRun(h),
                MainActionView::Exit,
            ],
            (_, Ok(h), Err(e)) => seq![
                MainActionView::StartEventLoop,
                MainActionView::CreateTask,
                MainActionView::ReplyAndRun(h),
                MainActionView::NotifyStarling(StarlingMessageView::TaskErrored(h.id, e)),
            ],
        },
{
}

} // verus!
