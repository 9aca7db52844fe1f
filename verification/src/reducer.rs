//! The reducer: how one operation changes a snapshot, and how a log of
//! operations is replayed on top of a checkpoint.
//!
//! `apply_op` is the mathematical definition; `apply_operation` is the
//! executable reducer, proved equal to it. An operation that names a task
//! that is not there, or a position past the end of the live list, leaves the
//! snapshot as it was, so replaying a log can never fail.

use crate::model::{
    finished_views, live_views, FinishedTask, FinishedTaskView, LiveTask, LiveTaskView, OpView,
    SnapshotView, StateSnapshot, TaskStatus, WebsocketOp,
};
use std::collections::VecDeque;
use vstd::prelude::*;

verus! {

/// Whether `i` is the first position of `live` that holds a task named `id`.
pub open spec fn is_first_live(live: Seq<LiveTaskView>, id: Seq<char>, i: int) -> bool {
    &&& 0 <= i < live.len()
    &&& live[i].id == id
    &&& forall|j: int| 0 <= j < i ==> (#[trigger] live[j]).id != id
}

/// Whether `i` is the first position of `finished` that holds a task named `id`.
pub open spec fn is_first_finished(finished: Seq<FinishedTaskView>, id: Seq<char>, i: int) -> bool {
    &&& 0 <= i < finished.len()
    &&& finished[i].id == id
    &&& forall|j: int| 0 <= j < i ==> (#[trigger] finished[j]).id != id
}

/// Whether some task of `live` is named `id`.
pub open spec fn live_has(live: Seq<LiveTaskView>, id: Seq<char>) -> bool {
    exists|j: int| 0 <= j < live.len() && (#[trigger] live[j]).id == id
}

/// Whether some task of `finished` is named `id`.
pub open spec fn finished_has(finished: Seq<FinishedTaskView>, id: Seq<char>) -> bool {
    exists|j: int| 0 <= j < finished.len() && (#[trigger] finished[j]).id == id
}

/// The first position of `live` that holds a task named `id`, if there is one.
pub open spec fn live_position(live: Seq<LiveTaskView>, id: Seq<char>) -> Option<int> {
    if exists|i: int| is_first_live(live, id, i) {
        Some(choose|i: int| is_first_live(live, id, i))
    } else {
        None
    }
}

/// The first position of `finished` that holds a task named `id`, if there is one.
pub open spec fn finished_position(finished: Seq<FinishedTaskView>, id: Seq<char>) -> Option<int> {
    if exists|i: int| is_first_finished(finished, id, i) {
        Some(choose|i: int| is_first_finished(finished, id, i))
    } else {
        None
    }
}

/// The live tasks that a deletion of `id` keeps: those with another name.
pub open spec fn named_other_than(id: Seq<char>) -> spec_fn(LiveTaskView) -> bool {
    |t: LiveTaskView| t.id != id
}

/// Where a moved task lands: before the task that stood at `ins` when the
/// task at `del` has been taken out.
pub open spec fn move_target(del: int, ins: int) -> int {
    if ins > del {
        ins - 1
    } else {
        ins
    }
}

/// The snapshot that results from applying `op` to `s`.
pub open spec fn apply_op(s: SnapshotView, op: OpView) -> SnapshotView {
    match op {
        OpView::OverwriteState(next) => next,
        OpView::LiveTaskInsNew { live_task_id, value, position } => {
            if position <= s.live.len() {
                SnapshotView {
                    live: s.live.insert(position as int, LiveTaskView { id: live_task_id, value }),
                    finished: s.finished,
                }
            } else {
                s
            }
        },
        OpView::LiveTaskInsRestore { finished_task_id } => {
            match finished_position(s.finished, finished_task_id) {
                Some(i) => SnapshotView {
                    live: seq![LiveTaskView { id: s.finished[i].id, value: s.finished[i].value }]
                        + s.live,
                    finished: s.finished.remove(i),
                },
                None => s,
            }
        },
        OpView::LiveTaskEdit { live_task_id, value } => {
            match live_position(s.live, live_task_id) {
                Some(i) => SnapshotView {
                    live: s.live.update(i, LiveTaskView { id: s.live[i].id, value }),
                    finished: s.finished,
                },
                None => s,
            }
        },
        OpView::LiveTaskDel { live_task_id } => SnapshotView {
            live: s.live.filter(named_other_than(live_task_id)),
            finished: s.finished,
        },
        OpView::LiveTaskDelIns { live_task_id_del, live_task_id_ins } => {
            match (live_position(s.live, live_task_id_ins), live_position(s.live, live_task_id_del)) {
                (Some(ins), Some(del)) => SnapshotView {
                    live: s.live.remove(del).insert(move_target(del, ins), s.live[del]),
                    finished: s.finished,
                },
                _ => s,
            }
        },
        OpView::FinishedTaskPush { finished_task_id, value, status } => SnapshotView {
            live: s.live,
            finished: s.finished.push(FinishedTaskView { id: finished_task_id, value, status }),
        },
        OpView::FinishedTaskPushComplete { live_task_id, finished_task_id, status } => {
            match live_position(s.live, live_task_id) {
                Some(i) => SnapshotView {
                    live: s.live.remove(i),
                    finished: s.finished.push(
                        FinishedTaskView { id: finished_task_id, value: s.live[i].value, status },
                    ),
                },
                None => s,
            }
        },
    }
}

/// A first position, once found, is the one `live_position` names.
pub proof fn lemma_live_position_found(live: Seq<LiveTaskView>, id: Seq<char>, i: int)
    requires
        is_first_live(live, id, i),
    ensures
        live_position(live, id) == Some(i),
{
    let c = choose|k: int| is_first_live(live, id, k);
    assert(is_first_live(live, id, c));
    if c < i {
        assert(live[c].id != id);
    } else if i < c {
        assert(live[i].id != id);
    }
}

/// Where no task is named `id`, `live_position` finds none.
pub proof fn lemma_live_position_absent(live: Seq<LiveTaskView>, id: Seq<char>)
    requires
        forall|j: int| 0 <= j < live.len() ==> (#[trigger] live[j]).id != id,
    ensures
        live_position(live, id) is None,
{
}

/// A first position, once found, is the one `finished_position` names.
pub proof fn lemma_finished_position_found(finished: Seq<FinishedTaskView>, id: Seq<char>, i: int)
    requires
        is_first_finished(finished, id, i),
    ensures
        finished_position(finished, id) == Some(i),
{
    let c = choose|k: int| is_first_finished(finished, id, k);
    assert(is_first_finished(finished, id, c));
    if c < i {
        assert(finished[c].id != id);
    } else if i < c {
        assert(finished[i].id != id);
    }
}

/// Where no task is named `id`, `finished_position` finds none.
pub proof fn lemma_finished_position_absent(finished: Seq<FinishedTaskView>, id: Seq<char>)
    requires
        forall|j: int| 0 <= j < finished.len() ==> (#[trigger] finished[j]).id != id,
    ensures
        finished_position(finished, id) is None,
{
}

/// Finds the first live task named `id`.
pub fn find_live(live: &VecDeque<LiveTask>, id: &String) -> (r: Option<usize>)
    ensures
        match r {
            Some(p) => p < live@.len() && live_position(live_views(live@), id@) == Some(p as int),
            None => live_position(live_views(live@), id@) is None,
        },
{
    let ghost views = live_views(live@);
    let mut i: usize = 0;
    while i < live.len()
        invariant
            i <= live@.len(),
            views == live_views(live@),
            forall|j: int| 0 <= j < i ==> (#[trigger] views[j]).id != id@,
        decreases live@.len() - i,
    {
        if live[i].id == *id {
            proof {
                assert(views[i as int].id == id@);
                lemma_live_position_found(views, id@, i as int);
            }
            return Some(i);
        }
        i += 1;
    }
    proof {
        lemma_live_position_absent(views, id@);
    }
    None
}

/// Finds the first finished task named `id`.
pub fn find_finished(finished: &Vec<FinishedTask>, id: &String) -> (r: Option<usize>)
    ensures
        match r {
            Some(p) => p < finished@.len() && finished_position(finished_views(finished@), id@)
                == Some(p as int),
            None => finished_position(finished_views(finished@), id@) is None,
        },
{
    let ghost views = finished_views(finished@);
    let mut i: usize = 0;
    while i < finished.len()
        invariant
            i <= finished@.len(),
            views == finished_views(finished@),
            forall|j: int| 0 <= j < i ==> (#[trigger] views[j]).id != id@,
        decreases finished@.len() - i,
    {
        if finished[i].id == *id {
            proof {
                assert(views[i as int].id == id@);
                lemma_finished_position_found(views, id@, i as int);
            }
            return Some(i);
        }
        i += 1;
    }
    proof {
        lemma_finished_position_absent(views, id@);
    }
    None
}

/// Takes every task named `id` out of `live`, keeping the others in order.
pub fn remove_live(live: &mut VecDeque<LiveTask>, id: &String)
    ensures
        live_views(final(live)@) == live_views(old(live)@).filter(named_other_than(id@)),
{
    let ghost orig = live_views(live@);
    let ghost keep = named_other_than(id@);
    let n = live.len();
    let mut kept: VecDeque<LiveTask> = VecDeque::new();
    let mut done: usize = 0;
    proof {
        reveal(Seq::filter);
        assert(live_views(live@) =~= orig.skip(0));
        assert(live_views(kept@) =~= orig.take(0).filter(keep));
    }
    while done < n
        invariant
            n == orig.len(),
            done <= n,
            keep == named_other_than(id@),
            live_views(live@) == orig.skip(done as int),
            live_views(kept@) == orig.take(done as int).filter(keep),
        decreases n - done,
    {
        let ghost before = live@;
        let ghost kept_before = kept@;
        assert(live_views(before).len() == n - done);
        let front = live.pop_front();
        if let Some(task) = front {
            proof {
                assert(task@ == live_views(before)[0]);
                assert(task@ == orig[done as int]);
                assert(orig.take(done + 1).drop_last() =~= orig.take(done as int));
                assert(orig.take(done + 1).last() == task@);
                reveal(Seq::filter);
                assert forall|k: int| 0 <= k < live@.len() implies live_views(live@)[k]
                    == orig.skip(done + 1)[k] by {
                    assert(live_views(before)[k + 1] == orig.skip(done as int)[k + 1]);
                }
                assert(live_views(live@) =~= orig.skip(done + 1));
            }
            if task.id != *id {
                kept.push_back(task);
                proof {
                    assert(live_views(kept@) =~= live_views(kept_before).push(task@));
                }
            }
        }
        done += 1;
    }
    proof {
        assert(orig.take(n as int) =~= orig);
    }
    *live = kept;
}

/// Puts a new live task at `position`, if the live list reaches that far.
fn insert_new(snapshot: &mut StateSnapshot, live_task_id: String, value: String, position: usize)
    ensures
        final(snapshot)@ == apply_op(
            old(snapshot)@,
            OpView::LiveTaskInsNew {
                live_task_id: live_task_id@,
                value: value@,
                position: position as nat,
            },
        ),
{
    let ghost before = snapshot@;
    if position <= snapshot.live.len() {
        let task = LiveTask { id: live_task_id, value };
        let ghost task_view = task@;
        snapshot.live.insert(position, task);
        proof {
            assert(live_views(snapshot.live@) =~= before.live.insert(position as int, task_view));
        }
    }
}

/// Moves a finished task back to the front of the live list.
fn restore(snapshot: &mut StateSnapshot, finished_task_id: String)
    ensures
        final(snapshot)@ == apply_op(
            old(snapshot)@,
            OpView::LiveTaskInsRestore { finished_task_id: finished_task_id@ },
        ),
{
    let ghost before = snapshot@;
    let ghost finished0 = snapshot.finished@;
    if let Some(position) = find_finished(&snapshot.finished, &finished_task_id) {
        let FinishedTask { id, value, .. } = snapshot.finished.remove(position);
        let task = LiveTask { id, value };
        let ghost task_view = task@;
        snapshot.live.push_front(task);
        proof {
            assert(before.finished[position as int] == finished0[position as int]@);
            assert(live_views(snapshot.live@) =~= seq![task_view] + before.live);
            assert(finished_views(snapshot.finished@) =~= before.finished.remove(position as int));
        }
    }
}

/// Gives the first live task named `live_task_id` a new value.
fn edit(snapshot: &mut StateSnapshot, live_task_id: String, value: String)
    ensures
        final(snapshot)@ == apply_op(
            old(snapshot)@,
            OpView::LiveTaskEdit { live_task_id: live_task_id@, value: value@ },
        ),
{
    let ghost before = snapshot@;
    let ghost live0 = snapshot.live@;
    if let Some(position) = find_live(&snapshot.live, &live_task_id) {
        if let Some(task) = snapshot.live.remove(position) {
            let edited = LiveTask { id: task.id, value };
            let ghost edited_view = edited@;
            snapshot.live.insert(position, edited);
            proof {
                assert(before.live[position as int] == live0[position as int]@);
                assert(live_views(snapshot.live@) =~= before.live.update(
                    position as int,
                    edited_view,
                ));
            }
        }
    }
}

/// Moves the task named `live_task_id_del` so that it stands just before the
/// task named `live_task_id_ins`.
fn move_before(snapshot: &mut StateSnapshot, live_task_id_del: String, live_task_id_ins: String)
    ensures
        final(snapshot)@ == apply_op(
            old(snapshot)@,
            OpView::LiveTaskDelIns {
                live_task_id_del: live_task_id_del@,
                live_task_id_ins: live_task_id_ins@,
            },
        ),
{
    let ghost before = snapshot@;
    let ghost live0 = snapshot.live@;
    let ins_pos = find_live(&snapshot.live, &live_task_id_ins);
    let del_pos = find_live(&snapshot.live, &live_task_id_del);
    if let (Some(ins_pos), Some(del_pos)) = (ins_pos, del_pos) {
        let target = if ins_pos > del_pos {
            ins_pos - 1
        } else {
            ins_pos
        };
        if let Some(removed) = snapshot.live.remove(del_pos) {
            let ghost removed_view = removed@;
            let ghost middle = snapshot.live@;
            proof {
                assert(before.live[del_pos as int] == live0[del_pos as int]@);
                assert(live_views(middle) =~= before.live.remove(del_pos as int));
            }
            snapshot.live.insert(target, removed);
            proof {
                assert(live_views(snapshot.live@) =~= live_views(middle).insert(
                    target as int,
                    removed_view,
                ));
            }
        }
    }
}

/// Appends a task to the finished list.
fn push_finished(
    snapshot: &mut StateSnapshot,
    finished_task_id: String,
    value: String,
    status: TaskStatus,
)
    ensures
        final(snapshot)@ == apply_op(
            old(snapshot)@,
            OpView::FinishedTaskPush { finished_task_id: finished_task_id@, value: value@, status },
        ),
{
    let ghost before = snapshot@;
    let task = FinishedTask { id: finished_task_id, value, status };
    let ghost task_view = task@;
    snapshot.finished.push(task);
    proof {
        assert(finished_views(snapshot.finished@) =~= before.finished.push(task_view));
    }
}

/// Finishes the first live task named `live_task_id`: it leaves the live list
/// and joins the finished list under a new name, keeping its value.
fn complete(
    snapshot: &mut StateSnapshot,
    live_task_id: String,
    finished_task_id: String,
    status: TaskStatus,
)
    ensures
        final(snapshot)@ == apply_op(
            old(snapshot)@,
            OpView::FinishedTaskPushComplete {
                live_task_id: live_task_id@,
                finished_task_id: finished_task_id@,
                status,
            },
        ),
{
    let ghost before = snapshot@;
    let ghost live0 = snapshot.live@;
    if let Some(pos_in_live) = find_live(&snapshot.live, &live_task_id) {
        if let Some(removed) = snapshot.live.remove(pos_in_live) {
            let task = FinishedTask { id: finished_task_id, value: removed.value, status };
            let ghost task_view = task@;
            snapshot.finished.push(task);
            proof {
                assert(before.live[pos_in_live as int] == live0[pos_in_live as int]@);
                assert(live_views(snapshot.live@) =~= before.live.remove(pos_in_live as int));
                assert(finished_views(snapshot.finished@) =~= before.finished.push(task_view));
            }
        }
    }
}

/// Applies one operation to a snapshot, in place.
///
/// An operation that refers to a task that is absent, or that inserts past the
/// end of the live list, changes nothing.
pub fn apply_operation(snapshot: &mut StateSnapshot, op: WebsocketOp)
    ensures
        final(snapshot)@ == apply_op(old(snapshot)@, op@),
{
    match op {
        WebsocketOp::OverwriteState(s) => {
            snapshot.live = s.live;
            snapshot.finished = s.finished;
        },
        WebsocketOp::LiveTaskInsNew { live_task_id, value, position } => {
            insert_new(snapshot, live_task_id, value, position);
        },
        WebsocketOp::LiveTaskInsRestore { finished_task_id } => {
            restore(snapshot, finished_task_id);
        },
        WebsocketOp::LiveTaskEdit { live_task_id, value } => {
            edit(snapshot, live_task_id, value);
        },
        WebsocketOp::LiveTaskDel { live_task_id } => {
            remove_live(&mut snapshot.live, &live_task_id);
        },
        WebsocketOp::LiveTaskDelIns { live_task_id_del, live_task_id_ins } => {
            move_before(snapshot, live_task_id_del, live_task_id_ins);
        },
        WebsocketOp::FinishedTaskPush { finished_task_id, value, status } => {
            push_finished(snapshot, finished_task_id, value, status);
        },
        WebsocketOp::FinishedTaskPushComplete { live_task_id, finished_task_id, status } => {
            complete(snapshot, live_task_id, finished_task_id, status);
        },
    }
}

/// The views of a sequence of operations, element by element.
pub open spec fn op_views(ops: Seq<WebsocketOp>) -> Seq<OpView> {
    ops.map_values(|op: WebsocketOp| op@)
}

/// The snapshot reached from `s` by applying `ops` one after the other,
/// first to last.
pub open spec fn replay_ops(s: SnapshotView, ops: Seq<OpView>) -> SnapshotView
    decreases ops.len(),
{
    if ops.len() == 0 {
        s
    } else {
        apply_op(replay_ops(s, ops.drop_last()), ops.last())
    }
}

/// Rebuilds the current snapshot from a checkpoint and the operations logged
/// since it was taken, oldest first.
pub fn replay(checkpoint: StateSnapshot, ops: Vec<WebsocketOp>) -> (r: StateSnapshot)
    ensures
        r@ == replay_ops(checkpoint@, op_views(ops@)),
{
    let mut snapshot = checkpoint;
    let ghost all = op_views(ops@);
    for op in it: ops
        invariant
            snapshot@ == replay_ops(checkpoint@, all.take(it.index() as int)),
            op_views(it.seq()) == all,
    {
        proof {
            let i = it.index() as int;
            assert(all.take(i + 1).drop_last() =~= all.take(i));
            assert(all.take(i + 1).last() == op@);
        }
        apply_operation(&mut snapshot, op);
    }
    proof {
        assert(all.take(all.len() as int) =~= all);
    }
    snapshot
}

} // verus!
