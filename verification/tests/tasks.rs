use starling::error::{Error, ErrorKind};
use starling::exception::{ConversionResult, ThrownValue};
use starling::main_thread::{MainAction, MainEvent, MainThread};
use starling::task::{
    Action, Async, Event, StarlingMessage, State, Task, TaskHandle, TaskId, TaskMessage, ThreadId,
};

fn main_task() -> Task<u64> {
    match Task::create_main(Ok(()), TaskId(ThreadId(7)), "main.js".to_string()) {
        Ok(task) => task,
        Err(e) => panic!("{:?}", e),
    }
}

fn child_task() -> Task<u64> {
    let parent = TaskHandle { id: TaskId(ThreadId(1)) };
    match Task::create_child(Ok(()), TaskId(ThreadId(7)), "main.js".to_string(), parent) {
        Ok(task) => task,
        Err(e) => panic!("{:?}", e),
    }
}

fn poll(task: &mut Task<u64>, event: Event) -> Action<u64> {
    assert!(task.accepts(&event));
    task.poll(event)
}

/// Brings the task to where its script is to be evaluated.
fn read(task: &mut Task<u64>) {
    assert!(matches!(poll(task, Event::Polled), Action::ReadJsModule));
    assert!(matches!(poll(task, Event::Polled), Action::PollRead));
    match poll(task, Event::Read(Ok(Async::Ready("1 + 1".to_string())))) {
        Action::Evaluate { source, filename, line } => {
            assert_eq!(source, "1 + 1");
            assert_eq!(filename, "main.js");
            assert_eq!(line, 1);
        }
        other => panic!("{:?}", other),
    }
}

fn thrown(text: &str) -> Event {
    Event::Evaluated(Err(Some(ThrownValue::Plain(Ok(ConversionResult::Success(text.to_string()))))))
}

#[test]
fn main_task_is_created_without_a_parent() {
    let task = main_task();
    assert!(task.parent.is_none());
    assert!(matches!(task.state, State::Created));
    assert_eq!(task.handle().id(), TaskId(ThreadId(7)));
    assert_eq!(ThreadId::from(task.handle().id()), ThreadId(7));
}

#[test]
fn no_task_without_a_runtime() {
    match Task::create_main(Err(()), TaskId(ThreadId(7u64)), "main.js".to_string()) {
        Ok(_) => panic!("a task was created"),
        Err(e) => assert!(matches!(e.kind(), ErrorKind::CouldNotCreateJavaScriptRuntime)),
    }
}

#[test]
fn handle_sends_to_its_task() {
    let d = TaskHandle { id: TaskId(ThreadId(3u64)) }.send(TaskMessage::Shutdown);
    assert_eq!(d.to, TaskId(ThreadId(3)));
    assert!(matches!(d.msg, TaskMessage::Shutdown));
}

#[test]
fn main_task_finishes() {
    let mut task = main_task();
    read(&mut task);
    assert!(matches!(
        poll(&mut task, Event::Evaluated(Ok(()))),
        Action::NotifyStarling(StarlingMessage::TaskFinished(TaskId(ThreadId(7))))
    ));
    assert!(matches!(task.state, State::NotifyStarlingFinished));
    assert!(matches!(poll(&mut task, Event::Polled), Action::PollNotify));
    assert!(matches!(
        poll(&mut task, Event::Notified(Ok(Async::Ready(())))),
        Action::Return(Ok(Async::Ready(())))
    ));
}

#[test]
fn child_task_finishes() {
    let mut task = child_task();
    read(&mut task);
    assert!(matches!(
        poll(&mut task, Event::Evaluated(Ok(()))),
        Action::NotifyStarling(StarlingMessage::TaskFinished(TaskId(ThreadId(7))))
    ));
    assert!(matches!(poll(&mut task, Event::Polled), Action::PollNotify));
    match poll(&mut task, Event::Notified(Ok(Async::Ready(())))) {
        Action::NotifyParent(d) => {
            assert_eq!(d.to, TaskId(ThreadId(1)));
            assert!(matches!(d.msg, TaskMessage::ChildTaskFinished(TaskId(ThreadId(7)))));
        }
        other => panic!("{:?}", other),
    }
    assert!(matches!(task.state, State::NotifyParentFinished));
    assert!(matches!(poll(&mut task, Event::Polled), Action::PollNotify));
    assert!(matches!(
        poll(&mut task, Event::Notified(Ok(Async::Ready(())))),
        Action::Return(Ok(Async::Ready(())))
    ));
}

#[test]
fn main_task_reports_an_exception() {
    let mut task = main_task();
    read(&mut task);
    match poll(&mut task, thrown("oops")) {
        Action::NotifyStarling(StarlingMessage::TaskErrored(id, e)) => {
            assert_eq!(id, TaskId(ThreadId(7)));
            assert!(matches!(e.kind(), ErrorKind::Msg(s) if s == "oops"));
        }
        other => panic!("{:?}", other),
    }
    assert!(matches!(&task.state, State::NotifyStarlingErrored(e)
        if matches!(e.kind(), ErrorKind::JavaScriptException(_))));
    assert!(matches!(poll(&mut task, Event::Polled), Action::PollNotify));
    assert!(matches!(
        poll(&mut task, Event::Notified(Ok(Async::Ready(())))),
        Action::Return(Ok(Async::Ready(())))
    ));
}

#[test]
fn child_task_reports_an_exception_to_its_parent() {
    let mut task = child_task();
    read(&mut task);
    assert!(matches!(
        poll(&mut task, thrown("oops")),
        Action::NotifyStarling(StarlingMessage::TaskErrored(TaskId(ThreadId(7)), _))
    ));
    assert!(matches!(poll(&mut task, Event::Polled), Action::PollNotify));
    match poll(&mut task, Event::Notified(Ok(Async::Ready(())))) {
        Action::NotifyParent(d) => {
            assert_eq!(d.to, TaskId(ThreadId(1)));
            match d.msg {
                TaskMessage::ChildTaskErrored(id, e) => {
                    assert_eq!(id, TaskId(ThreadId(7)));
                    assert!(matches!(e.kind(), ErrorKind::Msg(s) if s == "oops"));
                }
                other => panic!("{:?}", other),
            }
        }
        other => panic!("{:?}", other),
    }
    assert!(matches!(task.state, State::NotifyParentErrored));
    assert!(matches!(
        poll(&mut task, Event::Notified(Ok(Async::Ready(())))),
        Action::Return(Ok(Async::Ready(())))
    ));
}

#[test]
fn failed_evaluation_without_an_exception_is_reported() {
    let mut task = main_task();
    read(&mut task);
    match poll(&mut task, Event::Evaluated(Err(None))) {
        Action::NotifyStarling(StarlingMessage::TaskErrored(_, e)) => {
            assert_eq!(e.to_string(), "JavaScript exception");
        }
        other => panic!("{:?}", other),
    }
}

#[test]
fn unreadable_file_fails_the_task() {
    let mut task = main_task();
    poll(&mut task, Event::Polled);
    poll(&mut task, Event::Polled);
    match poll(&mut task, Event::Read(Err(Error::from("no such file")))) {
        Action::Return(Err(e)) => assert_eq!(e.to_string(), "no such file"),
        other => panic!("{:?}", other),
    }
}

#[test]
fn task_waits_for_what_is_not_ready() {
    let mut task = main_task();
    poll(&mut task, Event::Polled);
    for _ in 0..3 {
        assert!(matches!(poll(&mut task, Event::Polled), Action::PollRead));
        assert!(matches!(
            poll(&mut task, Event::Read(Ok(Async::NotReady))),
            Action::Return(Ok(Async::NotReady))
        ));
        assert!(matches!(task.state, State::ReadingJsModule));
    }
    poll(&mut task, Event::Evaluated(Ok(())));
    assert!(matches!(
        poll(&mut task, Event::Notified(Ok(Async::NotReady))),
        Action::Return(Ok(Async::NotReady))
    ));
    assert!(matches!(task.state, State::NotifyStarlingFinished));
}

#[test]
fn undelivered_messages_fail_the_task() {
    let cases = vec![
        (State::NotifyStarlingFinished, "couldn't notify starling of task finished"),
        (State::NotifyParentFinished, "couldn't notify parent of task finished"),
        (
            State::NotifyStarlingErrored(Error::from("e")),
            "couldn't notify starling of task errored",
        ),
        (State::NotifyParentErrored, "couldn't notify parent of task errored"),
    ];
    for (state, text) in cases {
        let mut task = Task { state, ..child_task() };
        match poll(&mut task, Event::Notified(Err(()))) {
            Action::Return(Err(e)) => {
                assert!(matches!(e.kind(), ErrorKind::Msg(s) if s == text));
            }
            other => panic!("{:?}", other),
        }
    }
}

#[test]
fn events_out_of_turn_are_not_accepted() {
    let task = main_task();
    assert!(task.accepts(&Event::Polled));
    assert!(!task.accepts(&Event::Read(Ok(Async::NotReady))));
    assert!(!task.accepts(&Event::Evaluated(Ok(()))));
    assert!(!task.accepts(&Event::Notified(Ok(Async::NotReady))));
    let task = Task { state: State::NotifyParentErrored, ..main_task() };
    assert!(!task.accepts(&Event::Evaluated(Ok(()))));
    assert!(task.accepts(&Event::Notified(Ok(Async::NotReady))));
}

#[test]
fn task_keeps_its_identity_to_the_end() {
    let mut task = child_task();
    read(&mut task);
    poll(&mut task, Event::Evaluated(Ok(())));
    poll(&mut task, Event::Polled);
    poll(&mut task, Event::Notified(Ok(Async::Ready(()))));
    poll(&mut task, Event::Polled);
    poll(&mut task, Event::Notified(Ok(Async::Ready(()))));
    assert_eq!(task.handle().id(), TaskId(ThreadId(7)));
    assert_eq!(task.js_file, "main.js");
    assert_eq!(task.parent.map(|p| p.id()), Some(TaskId(ThreadId(1))));
}

#[test]
fn unread_main_task_is_reported_by_its_thread() {
    let mut task = main_task();
    poll(&mut task, Event::Polled);
    poll(&mut task, Event::Polled);
    let ran = match poll(&mut task, Event::Read(Err(Error::from("no such file")))) {
        Action::Return(Err(e)) => Err(e),
        other => panic!("{:?}", other),
    };
    let mut thread = MainThread::Running(task.handle().id());
    match thread.advance(MainEvent::Ran(ran)) {
        MainAction::NotifyStarling(StarlingMessage::TaskErrored(id, e)) => {
            assert_eq!(id, TaskId(ThreadId(7)));
            assert_eq!(e.to_string(), "no such file");
        }
        _ => panic!("nobody was told"),
    }
}

#[test]
fn child_task_is_created_with_its_parent() {
    let task = child_task();
    assert_eq!(task.handle().id(), TaskId(ThreadId(7)));
    assert_eq!(task.parent.map(|p| p.id()), Some(TaskId(ThreadId(1))));
    assert!(matches!(task.state, State::Created));
}

#[test]
fn no_child_without_a_runtime() {
    let parent = TaskHandle { id: TaskId(ThreadId(1u64)) };
    match Task::create_child(Err(()), TaskId(ThreadId(7)), "c.js".to_string(), parent) {
        Ok(_) => panic!("a task was created"),
        Err(e) => assert!(matches!(e.kind(), ErrorKind::CouldNotCreateJavaScriptRuntime)),
    }
}

#[test]
fn thread_ids_tell_tasks_apart() {
    let (a, b) = (TaskId(ThreadId(1u64)), TaskId(ThreadId(2u64)));
    assert_eq!(ThreadId::from(a), ThreadId(1));
    assert_ne!(ThreadId::from(a), ThreadId::from(b));
    assert_ne!(a, b);
}

#[test]
fn parent_is_not_told_before_starling_has_heard() {
    let mut task = child_task();
    read(&mut task);
    poll(&mut task, Event::Evaluated(Ok(())));
    for _ in 0..2 {
        assert!(matches!(poll(&mut task, Event::Polled), Action::PollNotify));
        assert!(matches!(
            poll(&mut task, Event::Notified(Ok(Async::NotReady))),
            Action::Return(Ok(Async::NotReady))
        ));
    }
    assert!(matches!(poll(&mut task, Event::Polled), Action::PollNotify));
    assert!(matches!(
        poll(&mut task, Event::Notified(Ok(Async::Ready(())))),
        Action::NotifyParent(_)
    ));
}

#[test]
fn any_error_reaches_the_parent_as_its_text() {
    let error = Error::from_kind(ErrorKind::JavaScriptUnhandledRejectedPromise);
    let mut task = Task { state: State::NotifyStarlingErrored(error), ..child_task() };
    assert!(matches!(poll(&mut task, Event::Polled), Action::PollNotify));
    match poll(&mut task, Event::Notified(Ok(Async::Ready(())))) {
        Action::NotifyParent(d) => match d.msg {
            TaskMessage::ChildTaskErrored(_, e) => assert!(matches!(e.kind(),
                ErrorKind::Msg(s) if s == "Unhandled, rejected JavaScript promise")),
            other => panic!("{:?}", other),
        },
        other => panic!("{:?}", other),
    }
}
