//! Tasks are lightweight, isolated, pre-emptively scheduled JavaScript
//! execution threads.
//!
//! A task reads its JavaScript file, evaluates it, and then tells how that
//! went: first the supervisory thread of the system, called *starling*, and
//! after it the task's parent, if it has one.
//!
//! A [`Task`] holds the decisions only. Each call of [`Task::poll`] takes what
//! has just happened and gives the one thing to do next.

use vstd::prelude::*;

use crate::error::{Error, ErrorKind, ErrorKindView};
use crate::exception::{
    FromPendingJsapiException, JsException, JsExceptionView, ThrownValue, ThrownValueView,
};

verus! {

/// The identifier of a native thread, as the system gives it.
#[derive(Clone, Copy, Debug, PartialEq, Eq, Hash)]
pub struct ThreadId<Id>(pub Id);

/// A unique identifier for some [`Task`]: that of the task's native thread.
#[derive(Clone, Copy, Debug, PartialEq, Eq, Hash)]
pub struct TaskId<Id>(pub ThreadId<Id>);

impl<Id> From<TaskId<Id>> for ThreadId<Id> {
    fn from(task_id: TaskId<Id>) -> (thread_id: ThreadId<Id>) {
        task_id.0
    }
}

impl<Id> vstd::std_specs::convert::FromSpecImpl<TaskId<Id>> for ThreadId<Id> {
    open spec fn obeys_from_spec() -> bool {
        true
    }

    open spec fn from_spec(task_id: TaskId<Id>) -> ThreadId<Id> {
        task_id.0
    }
}

/// The thread identifier of a task is the one that its ID was made from, and
/// tells the task apart from every other.
pub proof fn law_thread_ids_tell_tasks_apart<Id>(a: TaskId<Id>, b: TaskId<Id>, thread: ThreadId<Id>)
    ensures
        <ThreadId<Id> as vstd::std_specs::convert::FromSpec<TaskId<Id>>>::obeys_from_spec(),
        <ThreadId<Id> as vstd::std_specs::convert::FromSpec<TaskId<Id>>>::from_spec(TaskId(thread))
            == thread,
        <ThreadId<Id> as vstd::std_specs::convert::FromSpec<TaskId<Id>>>::from_spec(a)
            == <ThreadId<Id> as vstd::std_specs::convert::FromSpec<TaskId<Id>>>::from_spec(b)
            <==> a == b,
{
}

/// Messages that can be sent to a task.
#[derive(Debug)]
pub enum TaskMessage<Id> {
    /// The task is to shut down.
    Shutdown,
    /// A child of the task finished.
    ChildTaskFinished(TaskId<Id>),
    /// A child of the task failed.
    ChildTaskErrored(TaskId<Id>, Error),
}

/// The mathematical value of a [`TaskMessage`].
pub enum TaskMessageView<Id> {
    Shutdown,
    ChildTaskFinished(TaskId<Id>),
    ChildTaskErrored(TaskId<Id>, ErrorKindView),
}

impl<Id> View for TaskMessage<Id> {
    type V = TaskMessageView<Id>;

    open spec fn view(&self) -> TaskMessageView<Id> {
        match *self {
            TaskMessage::Shutdown => TaskMessageView::Shutdown,
            TaskMessage::ChildTaskFinished(id) => TaskMessageView::ChildTaskFinished(id),
            TaskMessage::ChildTaskErrored(id, e) => TaskMessageView::ChildTaskErrored(id, e@),
        }
    }
}

/// Messages that a task sends to the supervisory thread.
#[derive(Debug)]
pub enum StarlingMessage<Id> {
    /// The task finished.
    TaskFinished(TaskId<Id>),
    /// The task failed.
    TaskErrored(TaskId<Id>, Error),
}

/// The mathematical value of a [`StarlingMessage`].
pub enum StarlingMessageView<Id> {
    TaskFinished(TaskId<Id>),
    TaskErrored(TaskId<Id>, ErrorKindView),
}

impl<Id> View for StarlingMessage<Id> {
    type V = StarlingMessageView<Id>;

    open spec fn view(&self) -> StarlingMessageView<Id> {
        match *self {
            StarlingMessage::TaskFinished(id) => StarlingMessageView::TaskFinished(id),
            StarlingMessage::TaskErrored(id, e) => StarlingMessageView::TaskErrored(id, e@),
        }
    }
}

/// A message and the task that it is for.
#[derive(Debug)]
pub struct Delivery<Id> {
    /// The task that the message is for.
    pub to: TaskId<Id>,
    /// The message.
    pub msg: TaskMessage<Id>,
}

/// The mathematical value of a [`Delivery`].
pub struct DeliveryView<Id> {
    pub to: TaskId<Id>,
    pub msg: TaskMessageView<Id>,
}

impl<Id> View for Delivery<Id> {
    type V = DeliveryView<Id>;

    open spec fn view(&self) -> DeliveryView<Id> {
        DeliveryView { to: self.to, msg: self.msg@ }
    }
}

/// A non-owning handle to a task.
///
/// A `TaskHandle` grants the ability to communicate with its referenced task
/// and send it [`TaskMessage`]s. It does not keep its referenced task running.
#[derive(Clone, Copy)]
pub struct TaskHandle<Id> {
    /// The task's ID.
    pub id: TaskId<Id>,
}

impl<Id: Copy> TaskHandle<Id> {
    /// The ID of the task.
    pub fn id(&self) -> (id: TaskId<Id>)
        ensures
            id == self.id,
    {
        self.id
    }

    /// Send a message to the task.
    pub fn send(&self, msg: TaskMessage<Id>) -> (d: Delivery<Id>)
        ensures
            d@ == (DeliveryView { to: self.id, msg: msg@ }),
            d == (Delivery { to: self.id, msg }),
    {
        Delivery { to: self.id, msg }
    }
}

/// What polling something gave.
#[derive(Debug)]
pub enum Async<T> {
    /// It has come to its end with this value.
    Ready(T),
    /// It has not come to its end.
    NotReady,
}

/// The state that a task is in.
#[derive(Debug)]
pub enum State {
    /// Nothing was done yet.
    Created,
    /// The task's JavaScript file is being read.
    ReadingJsModule,
    /// The supervisory thread is being told that the task finished.
    NotifyStarlingFinished,
    /// The parent is being told that the task finished.
    NotifyParentFinished,
    /// The supervisory thread is being told that the task failed with this
    /// error.
    NotifyStarlingErrored(Error),
    /// The parent is being told that the task failed.
    NotifyParentErrored,
}

/// The mathematical value of a [`State`].
pub enum StateView {
    Created,
    ReadingJsModule,
    NotifyStarlingFinished,
    NotifyParentFinished,
    NotifyStarlingErrored(ErrorKindView),
    NotifyParentErrored,
}

impl View for State {
    type V = StateView;

    open spec fn view(&self) -> StateView {
        match *self {
            State::Created => StateView::Created,
            State::ReadingJsModule => StateView::ReadingJsModule,
            State::NotifyStarlingFinished => StateView::NotifyStarlingFinished,
            State::NotifyParentFinished => StateView::NotifyParentFinished,
            State::NotifyStarlingErrored(e) => StateView::NotifyStarlingErrored(e@),
            State::NotifyParentErrored => StateView::NotifyParentErrored,
        }
    }
}

impl StateView {
    /// Whether a message is on its way in this state.
    pub open spec fn is_notifying(self) -> bool {
        !(self is Created) && !(self is ReadingJsModule)
    }
}

/// What has happened.
#[derive(Debug)]
pub enum Event {
    /// The task is polled: by its event loop, or because what was to be
    /// started is started.
    Polled,
    /// The reading of the file was polled.
    Read(Result<Async<String>, Error>),
    /// The script was evaluated. Where that failed, this is what
    /// [`FailedEvaluation`](crate::extraction::FailedEvaluation) found to be
    /// pending as an exception.
    Evaluated(Result<(), Option<ThrownValue>>),
    /// The sending of the message that is on its way was polled.
    Notified(Result<Async<()>, ()>),
}

/// The mathematical value of an [`Event`].
pub enum EventView {
    Polled,
    Read(Result<Async<Seq<char>>, ErrorKindView>),
    Evaluated(Result<(), Option<ThrownValueView>>),
    Notified(Result<Async<()>, ()>),
}

impl View for Event {
    type V = EventView;

    open spec fn view(&self) -> EventView {
        match *self {
            Event::Polled => EventView::Polled,
            Event::Read(Ok(Async::Ready(s))) => EventView::Read(Ok(Async::Ready(s@))),
            Event::Read(Ok(Async::NotReady)) => EventView::Read(Ok(Async::NotReady)),
            Event::Read(Err(e)) => EventView::Read(Err(e@)),
            Event::Evaluated(Ok(_)) => EventView::Evaluated(Ok(())),
            Event::Evaluated(Err(Some(val))) => EventView::Evaluated(Err(Some(val@))),
            Event::Evaluated(Err(None)) => EventView::Evaluated(Err(None)),
            Event::Notified(r) => EventView::Notified(r),
        }
    }
}

/// What is to be done next.
#[derive(Debug)]
pub enum Action<Id> {
    /// Start to read the JavaScript file; then poll the task again.
    ReadJsModule,
    /// Poll the reading of the file.
    PollRead,
    /// Evaluate a script.
    Evaluate {
        /// The text of the script.
        source: String,
        /// The name of its file.
        filename: String,
        /// The number of its first line.
        line: u32,
    },
    /// Start to send a message to the supervisory thread; then poll the task
    /// again.
    NotifyStarling(StarlingMessage<Id>),
    /// Start to send a message to the parent; then poll the task again.
    NotifyParent(Delivery<Id>),
    /// Poll the sending of the message that is on its way.
    PollNotify,
    /// Return from being polled by the event loop.
    Return(Result<Async<()>, Error>),
}

/// The mathematical value of an [`Action`].
pub enum ActionView<Id> {
    ReadJsModule,
    PollRead,
    Evaluate { source: Seq<char>, filename: Seq<char>, line: nat },
    NotifyStarling(StarlingMessageView<Id>),
    NotifyParent(DeliveryView<Id>),
    PollNotify,
    Return(Result<Async<()>, ErrorKindView>),
}

impl<Id> View for Action<Id> {
    type V = ActionView<Id>;

    open spec fn view(&self) -> ActionView<Id> {
        match *self {
            Action::ReadJsModule => ActionView::ReadJsModule,
            Action::PollRead => ActionView::PollRead,
            Action::Evaluate { source, filename, line } => ActionView::Evaluate {
                source: source@,
                filename: filename@,
                line: line as nat,
            },
            Action::NotifyStarling(msg) => ActionView::NotifyStarling(msg@),
            Action::NotifyParent(d) => ActionView::NotifyParent(d@),
            Action::PollNotify => ActionView::PollNotify,
            Action::Return(Ok(a)) => ActionView::Return(Ok(a)),
            Action::Return(Err(e)) => ActionView::Return(Err(e@)),
        }
    }
}

/// A `Task` is a JavaScript execution thread.
pub struct Task<Id> {
    /// A handle to the task itself.
    pub handle: TaskHandle<Id>,
    /// The path of the task's JavaScript file, as it is displayed.
    pub js_file: String,
    /// The task that the outcome is to be reported to, if there is one.
    pub parent: Option<TaskHandle<Id>>,
    /// The state that the task is in.
    pub state: State,
}

/// The mathematical value of a [`Task`].
pub struct TaskView<Id> {
    pub id: TaskId<Id>,
    pub js_file: Seq<char>,
    pub parent: Option<TaskId<Id>>,
    pub state: StateView,
}

impl<Id> View for Task<Id> {
    type V = TaskView<Id>;

    open spec fn view(&self) -> TaskView<Id> {
        TaskView {
            id: self.handle.id,
            js_file: self.js_file@,
            parent: match self.parent {
                Some(p) => Some(p.id),
                None => None,
            },
            state: self.state@,
        }
    }
}

/// The exception that a failed evaluation is reported as. Where no exception
/// is pending, it says no more than that there was one.
pub open spec fn evaluation_exception(pending: Option<ThrownValueView>) -> JsExceptionView {
    match pending {
        Some(val) => val.exception(),
        None => JsExceptionView::Stringified("JavaScript exception"@),
    }
}

/// The error that a failed evaluation is reported as.
pub open spec fn evaluation_error(pending: Option<ThrownValueView>) -> ErrorKindView {
    ErrorKindView::JavaScriptException(evaluation_exception(pending))
}

impl<Id> TaskView<Id> {
    /// The task in another state.
    pub open spec fn in_state(self, state: StateView) -> TaskView<Id> {
        TaskView { state, ..self }
    }

    /// Whether `event` can happen to the task.
    pub open spec fn accepts(self, event: EventView) -> bool {
        match event {
            EventView::Polled => true,
            EventView::Read(_) => self.state is ReadingJsModule,
            EventView::Evaluated(_) => self.state is ReadingJsModule,
            EventView::Notified(_) => self.state.is_notifying(),
        }
    }

    /// Telling the supervisory thread that the task finished.
    pub open spec fn telling_finished(self) -> (TaskView<Id>, ActionView<Id>) {
        (
            self.in_state(StateView::NotifyStarlingFinished),
            ActionView::NotifyStarling(StarlingMessageView::TaskFinished(self.id)),
        )
    }

    /// Telling the supervisory thread that the task failed with `error`.
    pub open spec fn telling_errored(self, error: ErrorKindView) -> (
        TaskView<Id>,
        ActionView<Id>,
    ) {
        (
            self.in_state(StateView::NotifyStarlingErrored(error)),
            ActionView::NotifyStarling(
                StarlingMessageView::TaskErrored(self.id, error.as_message()),
            ),
        )
    }

    /// What follows once the script was evaluated.
    pub open spec fn evaluated(self, outcome: Result<(), Option<ThrownValueView>>) -> (
        TaskView<Id>,
        ActionView<Id>,
    ) {
        match outcome {
            Ok(_) => self.telling_finished(),
            Err(pending) => self.telling_errored(evaluation_error(pending)),
        }
    }

    /// What follows when the message that is on its way has arrived. A task
    /// without a parent is done as soon as the supervisory thread knows.
    pub open spec fn notified(self) -> (TaskView<Id>, ActionView<Id>) {
        match (self.state, self.parent) {
            (StateView::NotifyStarlingFinished, Some(p)) => (
                self.in_state(StateView::NotifyParentFinished),
                ActionView::NotifyParent(
                    DeliveryView { to: p, msg: TaskMessageView::ChildTaskFinished(self.id) },
                ),
            ),
            (StateView::NotifyStarlingErrored(e), Some(p)) => (
                self.in_state(StateView::NotifyParentErrored),
                ActionView::NotifyParent(
                    DeliveryView {
                        to: p,
                        msg: TaskMessageView::ChildTaskErrored(self.id, e.as_message()),
                    },
                ),
            ),
            _ => (self, ActionView::Return(Ok(Async::Ready(())))),
        }
    }

    /// The text of the error when the message that is on its way cannot
    /// arrive.
    pub open spec fn undelivered(self) -> Seq<char> {
        match self.state {
            StateView::NotifyStarlingFinished => "couldn't notify starling of task finished"@,
            StateView::NotifyParentFinished => "couldn't notify parent of task finished"@,
            StateView::NotifyStarlingErrored(_) => "couldn't notify starling of task errored"@,
            _ => "couldn't notify parent of task errored"@,
        }
    }

    /// The task after `event`, and what is to be done next.
    pub open spec fn step(self, event: EventView) -> (TaskView<Id>, ActionView<Id>) {
        match event {
            EventView::Polled => if self.state is Created {
                (self.in_state(StateView::ReadingJsModule), ActionView::ReadJsModule)
            } else if self.state is ReadingJsModule {
                (self, ActionView::PollRead)
            } else {
                (self, ActionView::PollNotify)
            },
            EventView::Read(Ok(Async::Ready(source))) => (
                self,
                ActionView::Evaluate { source, filename: self.js_file, line: 1 },
            ),
            EventView::Read(Ok(Async::NotReady)) => (self, ActionView::Return(Ok(Async::NotReady))),
            EventView::Read(Err(e)) => (self, ActionView::Return(Err(e))),
            EventView::Evaluated(outcome) => self.evaluated(outcome),
            EventView::Notified(Ok(Async::Ready(_))) => self.notified(),
            EventView::Notified(Ok(Async::NotReady)) => (
                self,
                ActionView::Return(Ok(Async::NotReady)),
            ),
            EventView::Notified(Err(_)) => (
                self,
                ActionView::Return(Err(ErrorKindView::Msg(self.undelivered()))),
            ),
        }
    }
}

/// ### Constructors
///
/// There are two kinds of tasks: the main task and child tasks. There is only
/// one main task, and there may be many child tasks.
impl<Id: Copy> Task<Id> {
    /// Create the main task, given whether a JavaScript runtime could be
    /// created for it. The main task has no parent.
    pub fn create_main(runtime: Result<(), ()>, id: TaskId<Id>, js_file: String) -> (r: Result<
        Task<Id>,
        Error,
    >)
        ensures
            match runtime {
                Ok(_) => r matches Ok(task) && task@ == (TaskView {
                    id,
                    js_file: js_file@,
                    parent: None,
                    state: StateView::Created,
                }),
                Err(_) => r matches Err(e) && e@ == ErrorKindView::CouldNotCreateJavaScriptRuntime,
            },
    {
        Task::create(runtime, id, js_file, None)
    }

    /// Create a new child task, given whether a JavaScript runtime could be
    /// created for it. It reports to `parent`, whose ID is another one, as an
    /// ID is unique to its task.
    ///
    /// A child is to end when its parent does. That is left to whoever runs
    /// the two: no decision of a [`Task`] depends on whether its parent runs.
    pub fn create_child(
        runtime: Result<(), ()>,
        id: TaskId<Id>,
        js_file: String,
        parent: TaskHandle<Id>,
    ) -> (r: Result<Task<Id>, Error>)
        requires
            id != parent.id,
        ensures
            match runtime {
                Ok(_) => r matches Ok(task) && task@ == (TaskView {
                    id,
                    js_file: js_file@,
                    parent: Some(parent.id),
                    state: StateView::Created,
                }),
                Err(_) => r matches Err(e) && e@ == ErrorKindView::CouldNotCreateJavaScriptRuntime,
            },
    {
        Task::create(runtime, id, js_file, Some(parent))
    }

    fn create(
        runtime: Result<(), ()>,
        id: TaskId<Id>,
        js_file: String,
        parent: Option<TaskHandle<Id>>,
    ) -> (r: Result<Task<Id>, Error>)
        ensures
            match runtime {
                Ok(_) => r matches Ok(task) && task@ == (TaskView {
                    id,
                    js_file: js_file@,
                    parent: match parent {
                        Some(p) => Some(p.id),
                        None => None,
                    },
                    state: StateView::Created,
                }),
                Err(_) => r matches Err(e) && e@ == ErrorKindView::CouldNotCreateJavaScriptRuntime,
            },
    {
        match runtime {
            Ok(()) => Ok(
                Task { handle: TaskHandle { id }, js_file, parent, state: State::Created },
            ),
            Err(()) => Err(Error::from_kind(ErrorKind::CouldNotCreateJavaScriptRuntime)),
        }
    }
}

impl<Id: Copy> Task<Id> {
    /// A handle to the task.
    pub fn handle(&self) -> (h: TaskHandle<Id>)
        ensures
            h == self.handle,
            h.id == self@.id,
    {
        self.handle
    }

    fn id(&self) -> (id: TaskId<Id>)
        ensures
            id == self@.id,
    {
        self.handle.id()
    }
}

/// State transition helper methods called from [`Task::poll`].
impl<Id: Copy> Task<Id> {
    fn read_js_module(&mut self) -> (action: Action<Id>)
        requires
            old(self)@.state is Created,
        ensures
            final(self)@ == old(self)@.in_state(StateView::ReadingJsModule),
            action@ == ActionView::<Id>::ReadJsModule,
    {
        self.state = State::ReadingJsModule;
        Action::ReadJsModule
    }

    fn evaluate(&mut self, outcome: Result<(), Option<ThrownValue>>) -> (action: Action<Id>)
        ensures
            (final(self)@, action@) == old(self)@.evaluated(
                match outcome {
                    Ok(_) => Ok(()),
                    Err(Some(val)) => Err(Some(val@)),
                    Err(None) => Err(None),
                },
            ),
    {
        match outcome {
            Ok(()) => self.notify_starling_finished(),
            Err(pending) => {
                let kind = match ErrorKind::take_pending(pending) {
                    Some(kind) => kind,
                    None => ErrorKind::JavaScriptException(
                        JsException::Stringified("JavaScript exception".to_owned()),
                    ),
                };
                self.notify_starling_errored(Error::from_kind(kind))
            },
        }
    }

    fn notify_starling_finished(&mut self) -> (action: Action<Id>)
        ensures
            (final(self)@, action@) == old(self)@.telling_finished(),
    {
        let notify = StarlingMessage::TaskFinished(self.id());
        self.state = State::NotifyStarlingFinished;
        Action::NotifyStarling(notify)
    }

    fn notify_starling_errored(&mut self, error: Error) -> (action: Action<Id>)
        ensures
            (final(self)@, action@) == old(self)@.telling_errored(error@),
    {
        let notify = StarlingMessage::TaskErrored(self.id(), error.clone());
        self.state = State::NotifyStarlingErrored(error);
        Action::NotifyStarling(notify)
    }

    fn notify_parent_finished(&mut self) -> (action: Action<Id>)
        requires
            old(self)@.state is NotifyStarlingFinished,
        ensures
            match old(self)@.parent {
                Some(p) => {
                    &&& final(self)@ == old(self)@.in_state(StateView::NotifyParentFinished)
                    &&& action@ == ActionView::NotifyParent(
                        DeliveryView {
                            to: p,
                            msg: TaskMessageView::ChildTaskFinished(old(self)@.id),
                        },
                    )
                },
                None => {
                    &&& final(self)@ == old(self)@
                    &&& action@ == ActionView::<Id>::Return(Ok(Async::Ready(())))
                },
            },
    {
        if let Some(parent) = &self.parent {
            let notify = parent.send(TaskMessage::ChildTaskFinished(self.id()));
            self.state = State::NotifyParentFinished;
            Action::NotifyParent(notify)
        } else {
            // Don't have a parent to notify, so we're all done!
            Action::Return(Ok(Async::Ready(())))
        }
    }

    fn notify_parent_errored(&mut self, error: Error) -> (action: Action<Id>)
        requires
            old(self)@.state is NotifyStarlingErrored,
        ensures
            match old(self)@.parent {
                Some(p) => {
                    &&& final(self)@ == old(self)@.in_state(StateView::NotifyParentErrored)
                    &&& action@ == ActionView::NotifyParent(
                        DeliveryView {
                            to: p,
                            msg: TaskMessageView::ChildTaskErrored(old(self)@.id, error@),
                        },
                    )
                },
                None => {
                    &&& final(self)@ == old(self)@
                    &&& action@ == ActionView::<Id>::Return(Ok(Async::Ready(())))
                },
            },
    {
        if let Some(parent) = &self.parent {
            let notify = parent.send(TaskMessage::ChildTaskErrored(self.id(), error));
            self.state = State::NotifyParentErrored;
            Action::NotifyParent(notify)
        } else {
            // Don't have a parent to notify, so we're all done!
            Action::Return(Ok(Async::Ready(())))
        }
    }
}

/// What a task goes on to once its message has arrived.
enum NextState {
    NotifyParentFinished,
    NotifyParentErrored(Error),
    Done,
}

impl<Id: Copy> Task<Id> {
    /// Whether `event` can happen to the task.
    pub fn accepts(&self, event: &Event) -> (b: bool)
        ensures
            b == self@.accepts(event@),
    {
        match (event, &self.state) {
            (Event::Polled, _) => true,
            (Event::Read(_), State::ReadingJsModule) => true,
            (Event::Evaluated(_), State::ReadingJsModule) => true,
            (Event::Read(_), _) => false,
            (Event::Evaluated(_), _) => false,
            (Event::Notified(_), State::Created) => false,
            (Event::Notified(_), State::ReadingJsModule) => false,
            (Event::Notified(_), _) => true,
        }
    }

    /// Goes on from `event`, and gives what is to be done next.
    pub fn poll(&mut self, event: Event) -> (action: Action<Id>)
        requires
            old(self)@.accepts(event@),
        ensures
            (final(self)@, action@) == old(self)@.step(event@),
            event matches Event::Read(Ok(Async::Ready(s))) ==> (action matches Action::Evaluate {
                source,
                ..
            } && source == s),
            event matches Event::Read(Err(e)) ==> action == Action::<Id>::Return(Err(e)),
    {
        match event {
            Event::Polled => match self.state {
                State::Created => self.read_js_module(),
                State::ReadingJsModule => Action::PollRead,
                _ => Action::PollNotify,
            },
            Event::Read(Ok(Async::Ready(source))) => Action::Evaluate {
                source,
                filename: self.js_file.clone(),
                line: 1,
            },
            Event::Read(Ok(Async::NotReady)) => Action::Return(Ok(Async::NotReady)),
            Event::Read(Err(e)) => Action::Return(Err(e)),
            Event::Evaluated(outcome) => self.evaluate(outcome),
            Event::Notified(Ok(Async::Ready(()))) => {
                let next_state = match &self.state {
                    State::NotifyStarlingFinished => NextState::NotifyParentFinished,
                    State::NotifyStarlingErrored(error) => {
                        NextState::NotifyParentErrored(error.clone())
                    },
                    _ => NextState::Done,
                };
                match next_state {
                    NextState::NotifyParentFinished => self.notify_parent_finished(),
                    NextState::NotifyParentErrored(e) => self.notify_parent_errored(e),
                    NextState::Done => Action::Return(Ok(Async::Ready(()))),
                }
            },
            Event::Notified(Ok(Async::NotReady)) => Action::Return(Ok(Async::NotReady)),
            Event::Notified(Err(())) => {
                let text = match self.state {
                    State::NotifyStarlingFinished => "couldn't notify starling of task finished",
                    State::NotifyParentFinished => "couldn't notify parent of task finished",
                    State::NotifyStarlingErrored(_) => "couldn't notify starling of task errored",
                    _ => "couldn't notify parent of task errored",
                };
                Action::Return(Err(Error::from(text)))
            },
        }
    }
}

} // verus!
