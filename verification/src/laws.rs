//! What holds of the reducer for every snapshot and every operation.

use crate::model::{FinishedTaskView, LiveTaskView, OpView, SnapshotView};
use crate::reducer::{
    apply_op, finished_has, finished_position, is_first_finished, is_first_live, live_has,
    live_position, move_target, named_other_than, replay_ops,
};
use vstd::prelude::*;

verus! {

/// Whether `op` refers to a task that `s` does not hold. An operation that
/// moves one task before another refers to both.
pub open spec fn refers_to_absent(s: SnapshotView, op: OpView) -> bool {
    match op {
        OpView::OverwriteState(_) => false,
        OpView::LiveTaskInsNew { .. } => false,
        OpView::LiveTaskInsRestore { finished_task_id } => {
            !finished_has(s.finished, finished_task_id)
        },
        OpView::LiveTaskEdit { live_task_id, .. } => !live_has(s.live, live_task_id),
        OpView::LiveTaskDel { live_task_id } => !live_has(s.live, live_task_id),
        OpView::LiveTaskDelIns { live_task_id_del, live_task_id_ins } => {
            ||| !live_has(s.live, live_task_id_del)
            ||| !live_has(s.live, live_task_id_ins)
        },
        OpView::FinishedTaskPush { .. } => false,
        OpView::FinishedTaskPushComplete { live_task_id, .. } => !live_has(s.live, live_task_id),
    }
}

/// Where a task named `id` stands at `j`, some position up to `j` is the
/// first that holds such a task.
proof fn lemma_first_live_exists(live: Seq<LiveTaskView>, id: Seq<char>, j: int)
    requires
        0 <= j < live.len(),
        live[j].id == id,
    ensures
        exists|i: int| is_first_live(live, id, i),
    decreases j,
{
    if exists|k: int| 0 <= k < j && (#[trigger] live[k]).id == id {
        let k = choose|k: int| 0 <= k < j && (#[trigger] live[k]).id == id;
        lemma_first_live_exists(live, id, k);
    } else {
        assert(is_first_live(live, id, j));
    }
}

/// Where a task named `id` stands at `j`, some position up to `j` is the
/// first that holds such a task.
proof fn lemma_first_finished_exists(finished: Seq<FinishedTaskView>, id: Seq<char>, j: int)
    requires
        0 <= j < finished.len(),
        finished[j].id == id,
    ensures
        exists|i: int| is_first_finished(finished, id, i),
    decreases j,
{
    if exists|k: int| 0 <= k < j && (#[trigger] finished[k]).id == id {
        let k = choose|k: int| 0 <= k < j && (#[trigger] finished[k]).id == id;
        lemma_first_finished_exists(finished, id, k);
    } else {
        assert(is_first_finished(finished, id, j));
    }
}

/// `live_position` finds a task named `id` exactly when `live` holds one, and
/// the position it gives is the first that holds one.
pub proof fn lemma_live_position_iff_present(live: Seq<LiveTaskView>, id: Seq<char>)
    ensures
        live_position(live, id) is Some <==> live_has(live, id),
        live_position(live, id) matches Some(i) ==> is_first_live(live, id, i),
{
    if live_has(live, id) {
        let j = choose|j: int| 0 <= j < live.len() && (#[trigger] live[j]).id == id;
        lemma_first_live_exists(live, id, j);
    }
    if live_position(live, id) is Some {
        let i = live_position(live, id).unwrap();
        assert(is_first_live(live, id, i));
        assert(live[i].id == id);
    }
}

/// `finished_position` finds a task named `id` exactly when `finished` holds
/// one, and the position it gives is the first that holds one.
pub proof fn lemma_finished_position_iff_present(finished: Seq<FinishedTaskView>, id: Seq<char>)
    ensures
        finished_position(finished, id) is Some <==> finished_has(finished, id),
        finished_position(finished, id) matches Some(i) ==> is_first_finished(finished, id, i),
{
    if finished_has(finished, id) {
        let j = choose|j: int| 0 <= j < finished.len() && (#[trigger] finished[j]).id == id;
        lemma_first_finished_exists(finished, id, j);
    }
    if finished_position(finished, id) is Some {
        let i = finished_position(finished, id).unwrap();
        assert(is_first_finished(finished, id, i));
        assert(finished[i].id == id);
    }
}

/// Deleting a name that no live task bears keeps the whole list.
pub proof fn lemma_delete_absent(live: Seq<LiveTaskView>, id: Seq<char>)
    requires
        !live_has(live, id),
    ensures
        live.filter(named_other_than(id)) == live,
    decreases live.len(),
{
    reveal(Seq::filter);
    if live.len() > 0 {
        let front = live.drop_last();
        assert forall|j: int| 0 <= j < front.len() implies (#[trigger] front[j]).id != id by {
            assert(live[j].id != id);
        }
        lemma_delete_absent(front, id);
        assert(live[live.len() - 1].id != id);
        assert(front.push(live.last()) =~= live);
    }
}

/// Whether no two tasks of `live` bear the same name.
pub open spec fn distinct_live(live: Seq<LiveTaskView>) -> bool {
    forall|i: int, j: int|
        0 <= i < j < live.len() ==> (#[trigger] live[i]).id != (#[trigger] live[j]).id
}

/// Where no two live tasks bear the same name, deleting a name that is
/// present takes out exactly one task, the one at its position.
pub proof fn lemma_delete_removes_one(live: Seq<LiveTaskView>, id: Seq<char>)
    requires
        distinct_live(live),
        live_has(live, id),
    ensures
        live_position(live, id) matches Some(p) && live.filter(named_other_than(id))
            == live.remove(p),
{
    lemma_live_position_iff_present(live, id);
    let p = live_position(live, id).unwrap();
    let keep = named_other_than(id);
    let before = live.take(p);
    let one = seq![live[p]];
    let after = live.skip(p + 1);
    assert(live =~= before + one + after);
    assert forall|j: int| 0 <= j < before.len() implies (#[trigger] before[j]).id != id by {
        assert(live[j].id != id);
    }
    assert forall|j: int| 0 <= j < after.len() implies (#[trigger] after[j]).id != id by {
        assert(after[j] == live[p + 1 + j]);
        assert(live[p].id != live[p + 1 + j].id);
    }
    lemma_delete_absent(before, id);
    lemma_delete_absent(after, id);
    assert(one.filter(keep) =~= Seq::<LiveTaskView>::empty()) by {
        reveal_with_fuel(Seq::filter, 2);
        assert(one.last().id == id);
        assert(!keep(one.last()));
    }
    Seq::filter_distributes_over_add(before + one, after, keep);
    Seq::filter_distributes_over_add(before, one, keep);
    assert(live.filter(keep) =~= before + after);
    assert(live.remove(p) =~= before + after);
}

/// An operation that refers to an absent task leaves the snapshot as it was.
pub proof fn lemma_absent_is_noop(s: SnapshotView, op: OpView)
    requires
        refers_to_absent(s, op),
    ensures
        apply_op(s, op) == s,
{
    match op {
        OpView::LiveTaskInsRestore { finished_task_id } => {
            lemma_finished_position_iff_present(s.finished, finished_task_id);
        },
        OpView::LiveTaskEdit { live_task_id, .. } => {
            lemma_live_position_iff_present(s.live, live_task_id);
        },
        OpView::LiveTaskDel { live_task_id } => {
            lemma_delete_absent(s.live, live_task_id);
        },
        OpView::LiveTaskDelIns { live_task_id_del, live_task_id_ins } => {
            lemma_live_position_iff_present(s.live, live_task_id_del);
            lemma_live_position_iff_present(s.live, live_task_id_ins);
        },
        OpView::FinishedTaskPushComplete { live_task_id, .. } => {
            lemma_live_position_iff_present(s.live, live_task_id);
        },
        _ => {},
    }
}

/// Inserting a new live task past the end of the live list leaves the
/// snapshot as it was.
pub proof fn lemma_insert_out_of_range(
    s: SnapshotView,
    live_task_id: Seq<char>,
    value: Seq<char>,
    position: nat,
)
    requires
        position > s.live.len(),
    ensures
        apply_op(s, OpView::LiveTaskInsNew { live_task_id, value, position }) == s,
{
}

/// Replaying a log that has grown by one operation gives what applying that
/// operation to the replay of the shorter log gives: a snapshot kept in
/// memory by applying each operation as it is logged equals the replay of the
/// whole log.
pub proof fn lemma_replay_push(base: SnapshotView, ops: Seq<OpView>, op: OpView)
    ensures
        replay_ops(base, ops.push(op)) == apply_op(replay_ops(base, ops), op),
{
    assert(ops.push(op).drop_last() =~= ops);
}

/// Replaying a log in two parts, the second on top of the result of the
/// first, gives what replaying it in one go gives.
pub proof fn lemma_replay_concat(base: SnapshotView, first: Seq<OpView>, second: Seq<OpView>)
    ensures
        replay_ops(base, first + second) == replay_ops(replay_ops(base, first), second),
    decreases second.len(),
{
    if second.len() == 0 {
        assert(first + second =~= first);
    } else {
        lemma_replay_concat(base, first, second.drop_last());
        assert((first + second).drop_last() =~= first + second.drop_last());
        assert((first + second).last() == second.last());
    }
}

/// Moving the task named `del` before the task named `ins`, both present and
/// distinct, puts it immediately before the task that bore the name `ins`,
/// whichever of the two stood first; every other task keeps its place among
/// the others, and the finished list is untouched.
pub proof fn lemma_move_lands_before(s: SnapshotView, del: Seq<char>, ins: Seq<char>)
    requires
        live_has(s.live, del),
        live_has(s.live, ins),
        del != ins,
    ensures
        ({
            let d = live_position(s.live, del).unwrap();
            let i = live_position(s.live, ins).unwrap();
            let t = move_target(d, i);
            let r = apply_op(
                s,
                OpView::LiveTaskDelIns { live_task_id_del: del, live_task_id_ins: ins },
            );
            &&& is_first_live(s.live, del, d)
            &&& is_first_live(s.live, ins, i)
            &&& 0 <= d < s.live.len()
            &&& 0 <= i < s.live.len()
            &&& d != i
            &&& r.live.len() == s.live.len()
            &&& 0 <= t < t + 1 < r.live.len()
            &&& r.live[t] == s.live[d]
            &&& r.live[t + 1] == s.live[i]
            &&& r.live.remove(t) == s.live.remove(d)
            &&& r.finished == s.finished
        }),
{
    lemma_live_position_iff_present(s.live, del);
    lemma_live_position_iff_present(s.live, ins);
    let d = live_position(s.live, del).unwrap();
    let i = live_position(s.live, ins).unwrap();
    assert(is_first_live(s.live, del, d));
    assert(is_first_live(s.live, ins, i));
    let t = move_target(d, i);
    let r = apply_op(s, OpView::LiveTaskDelIns { live_task_id_del: del, live_task_id_ins: ins });
    assert(r.live == s.live.remove(d).insert(t, s.live[d]));
    assert(r.live.remove(t) =~= s.live.remove(d));
}

} // verus!
