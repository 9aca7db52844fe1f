//! The task-list document and the operations that mutate it.
//!
//! Every executable type has a mathematical view: strings become sequences of
//! characters and the two task lists become sequences of task views. All
//! contracts in this crate are stated over these views.

use std::collections::VecDeque;
use vstd::prelude::*;

verus! {

/// How a finished task ended. The set is closed.
#[derive(Clone, Copy, Debug, PartialEq, Eq, Structural)]
pub enum TaskStatus {
    Succeeded,
    Failed,
    Cancelled,
    Obsoleted,
}

/// A task that is still to be done. Its position is a property of the list
/// that holds it.
#[derive(Debug, PartialEq, Eq)]
pub struct LiveTask {
    pub id: String,
    pub value: String,
}

/// A task that has left the live list, with the way it ended.
#[derive(Debug, PartialEq, Eq)]
pub struct FinishedTask {
    pub id: String,
    pub value: String,
    pub status: TaskStatus,
}

/// A user's whole document: the live tasks in priority order and the finished
/// tasks in the order in which they were finished.
#[derive(Debug, PartialEq, Eq)]
pub struct StateSnapshot {
    pub live: VecDeque<LiveTask>,
    pub finished: Vec<FinishedTask>,
}

/// One mutation of a snapshot.
#[derive(Debug, PartialEq, Eq)]
pub enum WebsocketOp {
    OverwriteState(StateSnapshot),
    LiveTaskInsNew { live_task_id: String, value: String, position: usize },
    LiveTaskInsRestore { finished_task_id: String },
    LiveTaskEdit { live_task_id: String, value: String },
    LiveTaskDel { live_task_id: String },
    LiveTaskDelIns { live_task_id_del: String, live_task_id_ins: String },
    FinishedTaskPush { finished_task_id: String, value: String, status: TaskStatus },
    FinishedTaskPushComplete { live_task_id: String, finished_task_id: String, status: TaskStatus },
}

/// What a live task stands for.
pub struct LiveTaskView {
    pub id: Seq<char>,
    pub value: Seq<char>,
}

/// What a finished task stands for.
pub struct FinishedTaskView {
    pub id: Seq<char>,
    pub value: Seq<char>,
    pub status: TaskStatus,
}

/// What a snapshot stands for: its two lists, in order.
pub struct SnapshotView {
    pub live: Seq<LiveTaskView>,
    pub finished: Seq<FinishedTaskView>,
}

/// What an operation stands for.
pub enum OpView {
    OverwriteState(SnapshotView),
    LiveTaskInsNew { live_task_id: Seq<char>, value: Seq<char>, position: nat },
    LiveTaskInsRestore { finished_task_id: Seq<char> },
    LiveTaskEdit { live_task_id: Seq<char>, value: Seq<char> },
    LiveTaskDel { live_task_id: Seq<char> },
    LiveTaskDelIns { live_task_id_del: Seq<char>, live_task_id_ins: Seq<char> },
    FinishedTaskPush { finished_task_id: Seq<char>, value: Seq<char>, status: TaskStatus },
    FinishedTaskPushComplete {
        live_task_id: Seq<char>,
        finished_task_id: Seq<char>,
        status: TaskStatus,
    },
}

impl View for LiveTask {
    type V = LiveTaskView;

    open spec fn view(&self) -> LiveTaskView {
        LiveTaskView { id: self.id@, value: self.value@ }
    }
}

impl View for FinishedTask {
    type V = FinishedTaskView;

    open spec fn view(&self) -> FinishedTaskView {
        FinishedTaskView { id: self.id@, value: self.value@, status: self.status }
    }
}

/// The views of a sequence of live tasks, element by element.
pub open spec fn live_views(tasks: Seq<LiveTask>) -> Seq<LiveTaskView> {
    tasks.map_values(|t: LiveTask| t@)
}

/// The views of a sequence of finished tasks, element by element.
pub open spec fn finished_views(tasks: Seq<FinishedTask>) -> Seq<FinishedTaskView> {
    tasks.map_values(|t: FinishedTask| t@)
}

impl View for StateSnapshot {
    type V = SnapshotView;

    open spec fn view(&self) -> SnapshotView {
        SnapshotView { live: live_views(self.live@), finished: finished_views(self.finished@) }
    }
}

impl View for WebsocketOp {
    type V = OpView;

    open spec fn view(&self) -> OpView {
        match *self {
            WebsocketOp::OverwriteState(s) => OpView::OverwriteState(s@),
            WebsocketOp::LiveTaskInsNew { live_task_id, value, position } => {
                OpView::LiveTaskInsNew {
                    live_task_id: live_task_id@,
                    value: value@,
                    position: position as nat,
                }
            },
            WebsocketOp::LiveTaskInsRestore { finished_task_id } => {
                OpView::LiveTaskInsRestore { finished_task_id: finished_task_id@ }
            },
            WebsocketOp::LiveTaskEdit { live_task_id, value } => {
                OpView::LiveTaskEdit { live_task_id: live_task_id@, value: value@ }
            },
            WebsocketOp::LiveTaskDel { live_task_id } => {
                OpView::LiveTaskDel { live_task_id: live_task_id@ }
            },
            WebsocketOp::LiveTaskDelIns { live_task_id_del, live_task_id_ins } => {
                OpView::LiveTaskDelIns {
                    live_task_id_del: live_task_id_del@,
                    live_task_id_ins: live_task_id_ins@,
                }
            },
            WebsocketOp::FinishedTaskPush { finished_task_id, value, status } => {
                OpView::FinishedTaskPush { finished_task_id: finished_task_id@, value: value@, status }
            },
            WebsocketOp::FinishedTaskPushComplete { live_task_id, finished_task_id, status } => {
                OpView::FinishedTaskPushComplete {
                    live_task_id: live_task_id@,
                    finished_task_id: finished_task_id@,
                    status,
                }
            },
        }
    }
}

impl Clone for LiveTask {
    fn clone(&self) -> (r: Self)
        ensures
            r@ == self@,
    {
        LiveTask { id: self.id.clone(), value: self.value.clone() }
    }
}

impl Clone for FinishedTask {
    fn clone(&self) -> (r: Self)
        ensures
            r@ == self@,
    {
        FinishedTask { id: self.id.clone(), value: self.value.clone(), status: self.status }
    }
}

impl StateSnapshot {
    /// The document of a user who has never been seen: no task in either list.
    pub fn empty() -> (r: Self)
        ensures
            r@.live.len() == 0,
            r@.finished.len() == 0,
    {
        StateSnapshot { live: VecDeque::new(), finished: Vec::new() }
    }
}

impl Clone for StateSnapshot {
    fn clone(&self) -> (r: Self)
        ensures
            r@ == self@,
    {
        let mut live: VecDeque<LiveTask> = VecDeque::new();
        let mut i: usize = 0;
        while i < self.live.len()
            invariant
                i <= self.live@.len(),
                live@.len() == i,
                forall|k: int| 0 <= k < i ==> (#[trigger] live@[k])@ == self.live@[k]@,
            decreases self.live@.len() - i,
        {
            live.push_back(self.live[i].clone());
            i += 1;
        }
        assert(live_views(live@) =~= live_views(self.live@));
        let mut finished: Vec<FinishedTask> = Vec::new();
        let mut j: usize = 0;
        while j < self.finished.len()
            invariant
                j <= self.finished@.len(),
                finished@.len() == j,
                forall|k: int| 0 <= k < j ==> (#[trigger] finished@[k])@ == self.finished@[k]@,
            decreases self.finished@.len() - j,
        {
            finished.push(self.finished[j].clone());
            j += 1;
        }
        assert(finished_views(finished@) =~= finished_views(self.finished@));
        StateSnapshot { live, finished }
    }
}

impl Clone for WebsocketOp {
    fn clone(&self) -> (r: Self)
        ensures
            r@ == self@,
    {
        match self {
            WebsocketOp::OverwriteState(s) => WebsocketOp::OverwriteState(s.clone()),
            WebsocketOp::LiveTaskInsNew { live_task_id, value, position } => {
                WebsocketOp::LiveTaskInsNew {
                    live_task_id: live_task_id.clone(),
                    value: value.clone(),
                    position: *position,
                }
            },
            WebsocketOp::LiveTaskInsRestore { finished_task_id } => {
                WebsocketOp::LiveTaskInsRestore { finished_task_id: finished_task_id.clone() }
            },
            WebsocketOp::LiveTaskEdit { live_task_id, value } => {
                WebsocketOp::LiveTaskEdit { live_task_id: live_task_id.clone(), value: value.clone() }
            },
            WebsocketOp::LiveTaskDel { live_task_id } => {
                WebsocketOp::LiveTaskDel { live_task_id: live_task_id.clone() }
            },
            WebsocketOp::LiveTaskDelIns { live_task_id_del, live_task_id_ins } => {
                WebsocketOp::LiveTaskDelIns {
                    live_task_id_del: live_task_id_del.clone(),
                    live_task_id_ins: live_task_id_ins.clone(),
                }
            },
            WebsocketOp::FinishedTaskPush { finished_task_id, value, status } => {
                WebsocketOp::FinishedTaskPush {
                    finished_task_id: finished_task_id.clone(),
                    value: value.clone(),
                    status: *status,
                }
            },
            WebsocketOp::FinishedTaskPushComplete { live_task_id, finished_task_id, status } => {
                WebsocketOp::FinishedTaskPushComplete {
                    live_task_id: live_task_id.clone(),
                    finished_task_id: finished_task_id.clone(),
                    status: *status,
                }
            },
        }
    }
}

} // verus!
