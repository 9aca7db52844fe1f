use std::collections::VecDeque;
use todoproxy::model::{FinishedTask, LiveTask, StateSnapshot, TaskStatus, WebsocketOp};
use todoproxy::reducer::{apply_operation, find_finished, find_live, remove_live, replay};

fn live(id: &str, value: &str) -> LiveTask {
    LiveTask { id: id.to_string(), value: value.to_string() }
}

fn finished(id: &str, value: &str, status: TaskStatus) -> FinishedTask {
    FinishedTask { id: id.to_string(), value: value.to_string(), status }
}

fn snapshot(live: Vec<LiveTask>, finished: Vec<FinishedTask>) -> StateSnapshot {
    StateSnapshot { live: VecDeque::from(live), finished }
}

fn abcd() -> StateSnapshot {
    snapshot(vec![live("A", "a"), live("B", "b"), live("C", "c"), live("D", "d")], vec![])
}

fn live_ids(s: &StateSnapshot) -> Vec<String> {
    s.live.iter().map(|t| t.id.clone()).collect()
}

fn move_op(del: &str, ins: &str) -> WebsocketOp {
    WebsocketOp::LiveTaskDelIns {
        live_task_id_del: del.to_string(),
        live_task_id_ins: ins.to_string(),
    }
}

fn ins_new(id: &str, value: &str, position: usize) -> WebsocketOp {
    WebsocketOp::LiveTaskInsNew { live_task_id: id.to_string(), value: value.to_string(), position }
}

#[test]
fn move_forward_lands_before_target() {
    let mut s = abcd();
    apply_operation(&mut s, move_op("A", "C"));
    assert_eq!(live_ids(&s), vec!["B", "A", "C", "D"]);
    assert_eq!(s.live[1], live("A", "a"));
    assert!(s.finished.is_empty());
}

#[test]
fn move_backward_lands_before_target() {
    let mut s = abcd();
    apply_operation(&mut s, move_op("D", "B"));
    assert_eq!(live_ids(&s), vec!["A", "D", "B", "C"]);
}

#[test]
fn move_to_next_neighbour_changes_nothing() {
    let mut s = abcd();
    apply_operation(&mut s, move_op("B", "C"));
    assert_eq!(s, abcd());
}

#[test]
fn move_before_itself_changes_nothing() {
    let mut s = abcd();
    apply_operation(&mut s, move_op("C", "C"));
    assert_eq!(s, abcd());
}

#[test]
fn move_last_before_first() {
    let mut s = abcd();
    apply_operation(&mut s, move_op("D", "A"));
    assert_eq!(live_ids(&s), vec!["D", "A", "B", "C"]);
}

#[test]
fn move_with_absent_task_changes_nothing() {
    let mut s = abcd();
    apply_operation(&mut s, move_op("A", "Z"));
    assert_eq!(s, abcd());
    apply_operation(&mut s, move_op("Z", "A"));
    assert_eq!(s, abcd());
    apply_operation(&mut s, move_op("Y", "Z"));
    assert_eq!(s, abcd());
}

#[test]
fn restore_moves_finished_task_to_live() {
    let mut s = snapshot(vec![], vec![finished("f1", "x", TaskStatus::Succeeded)]);
    apply_operation(&mut s, WebsocketOp::LiveTaskInsRestore { finished_task_id: "f1".to_string() });
    assert_eq!(s, snapshot(vec![live("f1", "x")], vec![]));
}

#[test]
fn restore_goes_to_the_front() {
    let mut s = snapshot(
        vec![live("A", "a"), live("B", "b")],
        vec![
            finished("f0", "w", TaskStatus::Failed),
            finished("f1", "x", TaskStatus::Cancelled),
            finished("f2", "y", TaskStatus::Obsoleted),
        ],
    );
    apply_operation(&mut s, WebsocketOp::LiveTaskInsRestore { finished_task_id: "f1".to_string() });
    let expected = snapshot(
        vec![live("f1", "x"), live("A", "a"), live("B", "b")],
        vec![finished("f0", "w", TaskStatus::Failed), finished("f2", "y", TaskStatus::Obsoleted)],
    );
    assert_eq!(s, expected);
}

#[test]
fn restore_of_absent_task_changes_nothing() {
    let before = snapshot(vec![live("A", "a")], vec![finished("f1", "x", TaskStatus::Succeeded)]);
    let mut s = before.clone();
    apply_operation(&mut s, WebsocketOp::LiveTaskInsRestore { finished_task_id: "A".to_string() });
    assert_eq!(s, before);
}

#[test]
fn complete_moves_live_task_to_finished() {
    let mut s = snapshot(vec![live("L1", "plan")], vec![]);
    apply_operation(
        &mut s,
        WebsocketOp::FinishedTaskPushComplete {
            live_task_id: "L1".to_string(),
            finished_task_id: "F1".to_string(),
            status: TaskStatus::Succeeded,
        },
    );
    assert_eq!(s, snapshot(vec![], vec![finished("F1", "plan", TaskStatus::Succeeded)]));
}

#[test]
fn complete_appends_after_earlier_finished_tasks() {
    let mut s = snapshot(
        vec![live("A", "a"), live("B", "b"), live("C", "c")],
        vec![finished("f0", "w", TaskStatus::Failed)],
    );
    apply_operation(
        &mut s,
        WebsocketOp::FinishedTaskPushComplete {
            live_task_id: "B".to_string(),
            finished_task_id: "fB".to_string(),
            status: TaskStatus::Cancelled,
        },
    );
    let expected = snapshot(
        vec![live("A", "a"), live("C", "c")],
        vec![finished("f0", "w", TaskStatus::Failed), finished("fB", "b", TaskStatus::Cancelled)],
    );
    assert_eq!(s, expected);
}

#[test]
fn complete_of_absent_task_changes_nothing() {
    let mut s = abcd();
    apply_operation(
        &mut s,
        WebsocketOp::FinishedTaskPushComplete {
            live_task_id: "Z".to_string(),
            finished_task_id: "F1".to_string(),
            status: TaskStatus::Succeeded,
        },
    );
    assert_eq!(s, abcd());
}

#[test]
fn insert_at_each_position() {
    let mut s = StateSnapshot::empty();
    apply_operation(&mut s, ins_new("t1", "buy milk", 0));
    assert_eq!(s, snapshot(vec![live("t1", "buy milk")], vec![]));
    apply_operation(&mut s, ins_new("t2", "second", 1));
    assert_eq!(live_ids(&s), vec!["t1", "t2"]);
    apply_operation(&mut s, ins_new("t3", "middle", 1));
    assert_eq!(live_ids(&s), vec!["t1", "t3", "t2"]);
    apply_operation(&mut s, ins_new("t0", "front", 0));
    assert_eq!(live_ids(&s), vec!["t0", "t1", "t3", "t2"]);
}

#[test]
fn insert_past_the_end_changes_nothing() {
    let mut s = abcd();
    apply_operation(&mut s, ins_new("E", "e", 5));
    assert_eq!(s, abcd());
    apply_operation(&mut s, ins_new("E", "e", usize::MAX));
    assert_eq!(s, abcd());
    let mut empty = StateSnapshot::empty();
    apply_operation(&mut empty, ins_new("E", "e", 1));
    assert_eq!(empty, StateSnapshot::empty());
}

#[test]
fn insert_at_the_end_appends() {
    let mut s = abcd();
    apply_operation(&mut s, ins_new("E", "e", 4));
    assert_eq!(live_ids(&s), vec!["A", "B", "C", "D", "E"]);
}

#[test]
fn edit_changes_the_value_of_the_first_match_only() {
    let mut s = snapshot(vec![live("A", "a"), live("B", "b"), live("B", "again")], vec![]);
    apply_operation(
        &mut s,
        WebsocketOp::LiveTaskEdit { live_task_id: "B".to_string(), value: "new".to_string() },
    );
    assert_eq!(s, snapshot(vec![live("A", "a"), live("B", "new"), live("B", "again")], vec![]));
}

#[test]
fn edit_of_absent_task_changes_nothing() {
    let mut s = abcd();
    apply_operation(
        &mut s,
        WebsocketOp::LiveTaskEdit { live_task_id: "Z".to_string(), value: "new".to_string() },
    );
    assert_eq!(s, abcd());
}

#[test]
fn delete_removes_every_task_of_that_name() {
    let mut s = snapshot(
        vec![live("B", "1"), live("A", "a"), live("B", "2"), live("C", "c"), live("B", "3")],
        vec![finished("B", "kept", TaskStatus::Succeeded)],
    );
    apply_operation(&mut s, WebsocketOp::LiveTaskDel { live_task_id: "B".to_string() });
    assert_eq!(
        s,
        snapshot(
            vec![live("A", "a"), live("C", "c")],
            vec![finished("B", "kept", TaskStatus::Succeeded)]
        )
    );
}

#[test]
fn delete_of_absent_task_changes_nothing() {
    let mut s = abcd();
    apply_operation(&mut s, WebsocketOp::LiveTaskDel { live_task_id: "Z".to_string() });
    assert_eq!(s, abcd());
}

#[test]
fn remove_live_keeps_the_order_of_the_rest() {
    let mut tasks = VecDeque::from(vec![live("x", "1"), live("y", "2"), live("x", "3"), live("z", "4")]);
    remove_live(&mut tasks, &"x".to_string());
    assert_eq!(tasks, VecDeque::from(vec![live("y", "2"), live("z", "4")]));
    remove_live(&mut tasks, &"x".to_string());
    assert_eq!(tasks, VecDeque::from(vec![live("y", "2"), live("z", "4")]));
}

#[test]
fn push_appends_to_finished() {
    let mut s = snapshot(vec![live("A", "a")], vec![finished("f0", "w", TaskStatus::Failed)]);
    apply_operation(
        &mut s,
        WebsocketOp::FinishedTaskPush {
            finished_task_id: "f1".to_string(),
            value: "x".to_string(),
            status: TaskStatus::Obsoleted,
        },
    );
    assert_eq!(
        s,
        snapshot(
            vec![live("A", "a")],
            vec![finished("f0", "w", TaskStatus::Failed), finished("f1", "x", TaskStatus::Obsoleted)]
        )
    );
}

#[test]
fn overwrite_replaces_both_lists() {
    let mut s = abcd();
    let next = snapshot(vec![live("N", "n")], vec![finished("f", "v", TaskStatus::Cancelled)]);
    apply_operation(&mut s, WebsocketOp::OverwriteState(next.clone()));
    assert_eq!(s, next);
    apply_operation(&mut s, WebsocketOp::OverwriteState(StateSnapshot::empty()));
    assert_eq!(s, StateSnapshot::empty());
}

#[test]
fn find_gives_the_first_position() {
    let tasks = VecDeque::from(vec![live("A", "a"), live("B", "b"), live("B", "c")]);
    assert_eq!(find_live(&tasks, &"A".to_string()), Some(0));
    assert_eq!(find_live(&tasks, &"B".to_string()), Some(1));
    assert_eq!(find_live(&tasks, &"C".to_string()), None);
    assert_eq!(find_live(&VecDeque::new(), &"A".to_string()), None);
    let done = vec![finished("f0", "w", TaskStatus::Failed), finished("f1", "x", TaskStatus::Failed)];
    assert_eq!(find_finished(&done, &"f1".to_string()), Some(1));
    assert_eq!(find_finished(&done, &"A".to_string()), None);
}

fn sample_log() -> Vec<WebsocketOp> {
    vec![
        ins_new("t1", "one", 0),
        ins_new("t2", "two", 1),
        ins_new("t3", "three", 7),
        ins_new("t4", "four", 0),
        move_op("t4", "t2"),
        WebsocketOp::LiveTaskEdit { live_task_id: "t1".to_string(), value: "uno".to_string() },
        WebsocketOp::FinishedTaskPushComplete {
            live_task_id: "t2".to_string(),
            finished_task_id: "f2".to_string(),
            status: TaskStatus::Succeeded,
        },
        WebsocketOp::LiveTaskDel { live_task_id: "missing".to_string() },
        WebsocketOp::LiveTaskInsRestore { finished_task_id: "f2".to_string() },
        WebsocketOp::FinishedTaskPush {
            finished_task_id: "f9".to_string(),
            value: "nine".to_string(),
            status: TaskStatus::Obsoleted,
        },
    ]
}

#[test]
fn replay_equals_applying_one_by_one() {
    let mut live_state = StateSnapshot::empty();
    for op in sample_log() {
        apply_operation(&mut live_state, op);
    }
    let replayed = replay(StateSnapshot::empty(), sample_log());
    assert_eq!(replayed, live_state);
    let expected = snapshot(
        vec![live("f2", "two"), live("t1", "uno"), live("t4", "four")],
        vec![finished("f9", "nine", TaskStatus::Obsoleted)],
    );
    assert_eq!(replayed, expected);
}

#[test]
fn replay_in_two_parts_equals_replay_in_one() {
    let log = sample_log();
    let first: Vec<WebsocketOp> = log[..4].to_vec();
    let second: Vec<WebsocketOp> = log[4..].to_vec();
    let middle = replay(abcd(), first);
    assert_eq!(replay(middle, second), replay(abcd(), log));
}

#[test]
fn replay_of_nothing_is_the_checkpoint() {
    assert_eq!(replay(abcd(), vec![]), abcd());
}

#[test]
fn clones_are_equal() {
    let s = snapshot(vec![live("A", "a")], vec![finished("f", "v", TaskStatus::Cancelled)]);
    assert_eq!(s.clone(), s);
    for op in sample_log() {
        assert_eq!(op.clone(), op);
    }
    let op = WebsocketOp::OverwriteState(s.clone());
    assert_eq!(op.clone(), WebsocketOp::OverwriteState(s));
}
