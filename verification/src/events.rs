//! What the parts of the koordinator tell each other.

use vstd::prelude::*;

use crate::duration::Duration;
use crate::text::texts;

verus! {

/// How a child process ended: its exit code, unless a signal ended it.
#[derive(Clone, Copy, Debug, PartialEq, Eq, Structural)]
pub struct ExitStatus {
    pub code: Option<i32>,
}

/// The ready and the terminated containers of a pod.
#[derive(Debug)]
pub struct ContainersStatus {
    pub ready_containers: Vec<String>,
    pub terminated_containers: Vec<String>,
}

/// What the main loop is told.
#[derive(Debug)]
pub enum Event {
    /// The child process exited on its own.
    ChildProcessExited(ExitStatus),
    /// The child process exited in time after it was told to stop because of a stop
    /// dependency.
    ChildProcessTerminatedBecauseStopDependency(ExitStatus),
    /// The child process was killed because it did not stop in time.
    ChildProcessKilledBecauseStopDependency,
    /// The status of the containers of the pod changed.
    ContainersStatusChanged(ContainersStatus),
}

/// What the main loop tells the task that runs the child process.
#[derive(Clone, Copy, Debug, PartialEq, Eq, Structural)]
pub enum CommandToProcess {
    /// Start the child process.
    Start,
    /// Send the signal to the child process, and kill it if it has not exited after the
    /// given time.
    Stop(i32, Duration),
}

/// The contents of a `ContainersStatus`.
#[verifier::ext_equal]
pub struct ContainersStatusView {
    pub ready_containers: Seq<Seq<char>>,
    pub terminated_containers: Seq<Seq<char>>,
}

/// The contents of an `Event`.
pub enum EventView {
    ChildProcessExited(ExitStatus),
    ChildProcessTerminatedBecauseStopDependency(ExitStatus),
    ChildProcessKilledBecauseStopDependency,
    ContainersStatusChanged(ContainersStatusView),
}

impl View for ContainersStatus {
    type V = ContainersStatusView;

    open spec fn view(&self) -> ContainersStatusView {
        ContainersStatusView {
            ready_containers: texts(self.ready_containers@),
            terminated_containers: texts(self.terminated_containers@),
        }
    }
}

impl View for Event {
    type V = EventView;

    open spec fn view(&self) -> EventView {
        match self {
            Event::ChildProcessExited(status) => EventView::ChildProcessExited(*status),
            Event::ChildProcessTerminatedBecauseStopDependency(status) => {
                EventView::ChildProcessTerminatedBecauseStopDependency(*status)
            },
            Event::ChildProcessKilledBecauseStopDependency => {
                EventView::ChildProcessKilledBecauseStopDependency
            },
            Event::ContainersStatusChanged(status) => {
                EventView::ContainersStatusChanged(status@)
            },
        }
    }
}

impl ExitStatus {
    /// The exit code of a child process that ended in this way: 0 if a signal ended it.
    pub open spec fn code_or_zero(self) -> i32 {
        match self.code {
            Some(code) => code,
            None => 0,
        }
    }

    /// The exit code, or 0 if a signal ended the child process.
    pub fn exit_code(&self) -> (code: i32)
        ensures
            self.code matches Some(own) ==> code == own,
            self.code is None ==> code == 0,
            code == self.code_or_zero(),
    {
        match self.code {
            Some(code) => code,
            None => 0,
        }
    }
}

/// The exit code of a child process that exited is the one it exited with, whichever that is;
/// a child process that a signal ended counts as successful.
pub proof fn law_exit_code_is_that_of_the_child(status: ExitStatus, code: i32)
    ensures
        status.code == Some(code) ==> status.code_or_zero() == code,
        status.code is None ==> status.code_or_zero() == 0,
{
}

/// The contents of a status are its names, all of them and in their order.
pub proof fn law_status_holds_all_names(status: ContainersStatus)
    ensures
        status@.ready_containers.len() == status.ready_containers@.len(),
        status@.terminated_containers.len() == status.terminated_containers@.len(),
        forall|i: int|
            0 <= i < status.ready_containers@.len() ==> #[trigger] status@.ready_containers[i]
                == status.ready_containers@[i]@,
        forall|i: int|
            0 <= i < status.terminated_containers@.len()
                ==> #[trigger] status@.terminated_containers[i]
                == status.terminated_containers@[i]@,
{
}

/// The contents of an event say what happened, and carry what the event carries.
pub proof fn law_events_say_what_happened(event: Event, exit: ExitStatus)
    ensures
        event@ == EventView::ChildProcessExited(exit) <==> event == Event::ChildProcessExited(exit),
        event@ == EventView::ChildProcessTerminatedBecauseStopDependency(exit) <==> event
            == Event::ChildProcessTerminatedBecauseStopDependency(exit),
        event@ is ChildProcessKilledBecauseStopDependency
            <==> event is ChildProcessKilledBecauseStopDependency,
        event@ is ContainersStatusChanged <==> event is ContainersStatusChanged,
        event matches Event::ContainersStatusChanged(status) ==> event@
            == EventView::ContainersStatusChanged(status@),
{
}

} // verus!
