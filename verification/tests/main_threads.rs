use starling::error::{Error, ErrorKind, IoError};
use starling::main_thread::{MainAction, MainEvent, MainThread};
use starling::task::{StarlingMessage, Task, TaskHandle, TaskId, ThreadId};

fn advance(thread: &mut MainThread<u64>, event: MainEvent<u64>) -> MainAction<u64> {
    assert!(thread.accepts(&event));
    thread.advance(event)
}

fn running() -> MainThread<u64> {
    let (mut thread, first) = Task::<u64>::spawn_main();
    assert!(matches!(first, MainAction::StartEventLoop));
    assert!(matches!(
        advance(&mut thread, MainEvent::EventLoop(Ok(()))),
        MainAction::CreateTask
    ));
    match advance(&mut thread, MainEvent::Created(Ok(TaskHandle { id: TaskId(ThreadId(7)) }))) {
        MainAction::ReplyAndRun(handle) => assert_eq!(handle.id(), TaskId(ThreadId(7))),
        _ => panic!("the task does not run"),
    }
    thread
}

#[test]
fn successful_run_ends_the_thread() {
    let mut thread = running();
    assert!(matches!(advance(&mut thread, MainEvent::Ran(Ok(()))), MainAction::Exit));
    assert!(matches!(thread, MainThread::Over));
    assert!(!thread.accepts(&MainEvent::Ran(Ok(()))));
}

#[test]
fn failed_run_is_reported_to_starling() {
    let mut thread = running();
    let error = Error::from_kind(ErrorKind::CouldNotReadValueFromChannel);
    match advance(&mut thread, MainEvent::Ran(Err(error))) {
        MainAction::NotifyStarling(StarlingMessage::TaskErrored(id, e)) => {
            assert_eq!(id, TaskId(ThreadId(7)));
            assert!(matches!(e.kind(), ErrorKind::CouldNotReadValueFromChannel));
        }
        _ => panic!("the failure was not reported"),
    }
}

#[test]
fn spawner_hears_of_a_missing_event_loop() {
    let (mut thread, _) = Task::<u64>::spawn_main();
    let io = IoError { description: "d".to_string(), message: "m".to_string() };
    match advance(&mut thread, MainEvent::EventLoop(Err(io))) {
        MainAction::ReplyError(e) => {
            assert!(matches!(e.kind(), ErrorKind::Io(io) if io.message == "m"));
        }
        _ => panic!("no reply"),
    }
    assert!(matches!(thread, MainThread::Over));
}

#[test]
fn spawner_hears_of_a_task_that_was_not_created() {
    let (mut thread, _) = Task::<u64>::spawn_main();
    advance(&mut thread, MainEvent::EventLoop(Ok(())));
    let error = Error::from_kind(ErrorKind::CouldNotCreateJavaScriptRuntime);
    match advance(&mut thread, MainEvent::Created(Err(error))) {
        MainAction::ReplyError(e) => {
            assert!(matches!(e.kind(), ErrorKind::CouldNotCreateJavaScriptRuntime));
        }
        _ => panic!("no reply"),
    }
    assert!(matches!(thread, MainThread::Over));
}

#[test]
fn thread_takes_events_in_turn() {
    let (thread, _) = Task::<u64>::spawn_main();
    assert!(!thread.accepts(&MainEvent::Ran(Ok(()))));
    assert!(!thread.accepts(&MainEvent::Created(Ok(TaskHandle { id: TaskId(ThreadId(7)) }))));
    assert!(!running().accepts(&MainEvent::EventLoop(Ok(()))));
}
