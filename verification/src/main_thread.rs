//! The native thread of the main task.
//!
//! The thread starts an event loop, creates the main task, hands the task's
//! handle to whoever spawned the thread, and runs the task to its end. The
//! lifetime of the system is tied to the main task.

use vstd::prelude::*;

use crate::error::{Error, ErrorKind, ErrorKindView, IoError, IoErrorView};
use crate::task::{StarlingMessage, StarlingMessageView, Task, TaskHandle, TaskId};

verus! {

/// How far the thread of the main task has come.
#[derive(Debug)]
pub enum MainThread<Id> {
    /// The event loop is being started.
    StartingEventLoop,
    /// The task is being created.
    CreatingTask,
    /// The task with this ID runs.
    Running(TaskId<Id>),
    /// The thread has nothing left to do.
    Over,
}

/// What has happened on the thread.
pub enum MainEvent<Id> {
    /// The event loop was started, or could not be.
    EventLoop(Result<(), IoError>),
    /// The task was created, or could not be.
    Created(Result<TaskHandle<Id>, Error>),
    /// The task ran to its end.
    Ran(Result<(), Error>),
}

/// The mathematical value of a [`MainEvent`].
pub enum MainEventView<Id> {
    EventLoop(Result<(), IoErrorView>),
    Created(Result<TaskHandle<Id>, ErrorKindView>),
    Ran(Result<(), ErrorKindView>),
}

impl<Id> View for MainEvent<Id> {
    type V = MainEventView<Id>;

    open spec fn view(&self) -> MainEventView<Id> {
        match *self {
            MainEvent::EventLoop(Ok(_)) => MainEventView::EventLoop(Ok(())),
            MainEvent::EventLoop(Err(e)) => MainEventView::EventLoop(Err(e@)),
            MainEvent::Created(Ok(h)) => MainEventView::Created(Ok(h)),
            MainEvent::Created(Err(e)) => MainEventView::Created(Err(e@)),
            MainEvent::Ran(Ok(_)) => MainEventView::Ran(Ok(())),
            MainEvent::Ran(Err(e)) => MainEventView::Ran(Err(e@)),
        }
    }
}

/// What is to be done next on the thread.
pub enum MainAction<Id> {
    /// Start the event loop.
    StartEventLoop,
    /// Create the task.
    CreateTask,
    /// Tell the spawner that there will be no task, and end the thread.
    ReplyError(Error),
    /// Hand the task's handle to the spawner, then run the task.
    ReplyAndRun(TaskHandle<Id>),
    /// Send a message to the supervisory thread, wait until it has arrived,
    /// and end the thread.
    NotifyStarling(StarlingMessage<Id>),
    /// End the thread.
    Exit,
}

/// The mathematical value of a [`MainAction`].
pub enum MainActionView<Id> {
    StartEventLoop,
    CreateTask,
    ReplyError(ErrorKindView),
    ReplyAndRun(TaskHandle<Id>),
    NotifyStarling(StarlingMessageView<Id>),
    Exit,
}

impl<Id> View for MainAction<Id> {
    type V = MainActionView<Id>;

    open spec fn view(&self) -> MainActionView<Id> {
        match *self {
            MainAction::StartEventLoop => MainActionView::StartEventLoop,
            MainAction::CreateTask => MainActionView::CreateTask,
            MainAction::ReplyError(e) => MainActionView::ReplyError(e@),
            MainAction::ReplyAndRun(h) => MainActionView::ReplyAndRun(h),
            MainAction::NotifyStarling(msg) => MainActionView::NotifyStarling(msg@),
            MainAction::Exit => MainActionView::Exit,
        }
    }
}

impl<Id> MainThread<Id> {
    /// Whether `event` can happen now.
    pub open spec fn spec_accepts(self, event: MainEventView<Id>) -> bool {
        match self {
            MainThread::StartingEventLoop => event is EventLoop,
            MainThread::CreatingTask => event is Created,
            MainThread::Running(_) => event is Ran,
            MainThread::Over => false,
        }
    }

    /// The thread after `event`, and what is to be done next.
    pub open spec fn step(self, event: MainEventView<Id>) -> (MainThread<Id>, MainActionView<Id>) {
        match (self, event) {
            (MainThread::StartingEventLoop, MainEventView::EventLoop(Ok(_))) => (
                MainThread::CreatingTask,
                MainActionView::CreateTask,
            ),
            (MainThread::StartingEventLoop, MainEventView::EventLoop(Err(e))) => (
                MainThread::Over,
                MainActionView::ReplyError(ErrorKindView::Io(e)),
            ),
            (MainThread::CreatingTask, MainEventView::Created(Ok(h))) => (
                MainThread::Running(h.id),
                MainActionView::ReplyAndRun(h),
            ),
            (MainThread::CreatingTask, MainEventView::Created(Err(e))) => (
                MainThread::Over,
                MainActionView::ReplyError(e),
            ),
            (MainThread::Running(id), MainEventView::Ran(Err(e))) => (
                MainThread::Over,
                MainActionView::NotifyStarling(StarlingMessageView::TaskErrored(id, e)),
            ),
            _ => (MainThread::Over, MainActionView::Exit),
        }
    }
}

impl<Id: Copy> Task<Id> {
    /// Spawn the main task in a new native thread: gives the state that the
    /// thread begins in, and what it is to do first.
    pub fn spawn_main() -> (r: (MainThread<Id>, MainAction<Id>))
        ensures
            r.0 == MainThread::<Id>::StartingEventLoop,
            r.1@ == MainActionView::<Id>::StartEventLoop,
    {
        (MainThread::StartingEventLoop, MainAction::StartEventLoop)
    }
}

impl<Id: Copy> MainThread<Id> {
    /// Whether `event` can happen now.
    pub fn accepts(&self, event: &MainEvent<Id>) -> (b: bool)
        ensures
            b == self.spec_accepts(event@),
    {
        match (self, event) {
            (MainThread::StartingEventLoop, MainEvent::EventLoop(_)) => true,
            (MainThread::CreatingTask, MainEvent::Created(_)) => true,
            (MainThread::Running(_), MainEvent::Ran(_)) => true,
            _ => false,
        }
    }

    /// Goes on from `event`, and gives what is to be done next.
    pub fn advance(&mut self, event: MainEvent<Id>) -> (action: MainAction<Id>)
        requires
            old(self).spec_accepts(event@),
        ensures
            (*final(self), action@) == old(self).step(event@),
            event matches MainEvent::EventLoop(Err(e)) ==> action == MainAction::<Id>::ReplyError(
                Error(ErrorKind::Io(e)),
            ),
            event matches MainEvent::Created(Err(e)) ==> action == MainAction::<Id>::ReplyError(e),
            event matches MainEvent::Ran(Err(e)) ==> (action matches MainAction::NotifyStarling(
                StarlingMessage::TaskErrored(_, sent),
            ) && sent == e),
    {
        match event {
            MainEvent::EventLoop(Ok(())) => {
                *self = MainThread::CreatingTask;
                MainAction::CreateTask
            },
            MainEvent::EventLoop(Err(e)) => {
                *self = MainThread::Over;
                MainAction::ReplyError(Error::from(e))
            },
            MainEvent::Created(Ok(handle)) => {
                *self = MainThread::Running(handle.id());
                MainAction::ReplyAndRun(handle)
            },
            MainEvent::Created(Err(e)) => {
                *self = MainThread::Over;
                MainAction::ReplyError(e)
            },
            MainEvent::Ran(Ok(())) => {
                *self = MainThread::Over;
                MainAction::Exit
            },
            MainEvent::Ran(Err(e)) => {
                let action = match self {
                    MainThread::Running(id) => MainAction::NotifyStarling(
                        StarlingMessage::TaskErrored(*id, e),
                    ),
                    _ => MainAction::Exit,
                };
                *self = MainThread::Over;
                action
            },
        }
    }
}

/// All that is done on the thread of a main task, given how each part of it
/// goes.
pub open spec fn main_actions<Id>(
    event_loop: Result<(), IoErrorView>,
    created: Result<TaskHandle<Id>, ErrorKindView>,
    ran: Result<(), ErrorKindView>,
) -> Seq<MainActionView<Id>> {
    let first = MainActionView::<Id>::StartEventLoop;
    let (t1, second) = MainThread::<Id>::StartingEventLoop.step(
        MainEventView::EventLoop(event_loop),
    );
    if t1 is Over {
        seq![first, second]
    } else {
        let (t2, third) = t1.step(MainEventView::Created(created));
        if t2 is Over {
            seq![first, second, third]
        } else {
            let (t3, fourth) = t2.step(MainEventView::Ran(ran));
            seq![first, second, third, fourth]
        }
    }
}

/// Whether `a` is a reply to the spawner.
pub open spec fn is_reply<Id>(a: MainActionView<Id>) -> bool {
    a is ReplyError || a is ReplyAndRun
}

/// The spawner gets exactly one reply: the handle if the event loop could be
/// started and the task be created, and the first error otherwise. The task
/// runs in the first case only.
pub proof fn law_spawner_gets_one_reply<Id>(
    event_loop: Result<(), IoErrorView>,
    created: Result<TaskHandle<Id>, ErrorKindView>,
    ran: Result<(), ErrorKindView>,
)
    ensures
        ({
            let actions = main_actions(event_loop, created, ran);
            let replies = actions.filter(|a: MainActionView<Id>| is_reply(a));
            replies == seq![
                match (event_loop, created) {
                    (Err(e), _) => MainActionView::ReplyError(ErrorKindView::Io(e)),
                    (_, Err(e)) => MainActionView::ReplyError(e),
                    (_, Ok(h)) => MainActionView::ReplyAndRun(h),
                },
            ]
        }),
{
    let actions = main_actions(event_loop, created, ran);
    let p = |a: MainActionView<Id>| is_reply(a);
    reveal_with_fuel(Seq::filter, 6);
    let expected = match (event_loop, created) {
        (Err(e), _) => MainActionView::ReplyError(ErrorKindView::Io(e)),
        (_, Err(e)) => MainActionView::ReplyError(e),
        (_, Ok(h)) => MainActionView::ReplyAndRun(h),
    };
    assert(actions.filter(p) =~= seq![expected]);
}

/// The thread itself notifies the supervisory thread only of a task that ran
/// and failed. The message then names that task and carries its error
/// unchanged, and nothing is done after it.
pub proof fn law_only_a_failed_run_is_reported<Id>(
    event_loop: Result<(), IoErrorView>,
    created: Result<TaskHandle<Id>, ErrorKindView>,
    ran: Result<(), ErrorKindView>,
)
    ensures
        ({
            let actions = main_actions(event_loop, created, ran);
            &&& forall|i: int|
                0 <= i < actions.len() - 1 ==> !(#[trigger] actions[i] is NotifyStarling)
            &&& match (event_loop, created, ran) {
                (Ok(_), Ok(h), Err(e)) => actions.last() == MainActionView::<Id>::NotifyStarling(
                    StarlingMessageView::TaskErrored(h.id, e),
                ),
                _ => !(actions.last() is NotifyStarling),
            }
        }),
{
}

} // verus!
