use std::collections::VecDeque;
use todoproxy::cell::{handle_ws_client_op, PerUserWorkerData, UPDATES_CAPACITY};
use todoproxy::errors::AppError;
use todoproxy::model::{LiveTask, StateSnapshot, WebsocketOp};
use todoproxy::reducer::replay;
use todoproxy::session::{
    manage_updates_ws, Action, Message, Phase, Session, SessionEvent,
};
use tokio::sync::broadcast;

fn live(id: &str, value: &str) -> LiveTask {
    LiveTask { id: id.to_string(), value: value.to_string() }
}

fn ins_new(id: &str, value: &str, position: usize) -> WebsocketOp {
    WebsocketOp::LiveTaskInsNew { live_task_id: id.to_string(), value: value.to_string(), position }
}

fn store_failure() -> tokio_postgres::Error {
    match "port=notanumber".parse::<tokio_postgres::Config>() {
        Ok(_) => panic!("the configuration should not parse"),
        Err(e) => e,
    }
}

fn joined() -> Session {
    let mut s = Session::new(0);
    manage_updates_ws(&mut s, 0, SessionEvent::ClientMessage(Message::Text("{\"api_key\":\"k\"}".to_string())));
    manage_updates_ws(&mut s, 0, SessionEvent::JoinDone(Ok(StateSnapshot::empty())));
    assert_eq!(s.phase, Phase::Joined);
    s
}

#[test]
fn capacity() {
    assert_eq!(UPDATES_CAPACITY, 1000);
}

#[test]
fn restore_replays_the_log() {
    let log = vec![ins_new("t1", "one", 0), ins_new("t2", "two", 0), ins_new("t3", "three", 9)];
    let cell = PerUserWorkerData::restore(7, 3, StateSnapshot::empty(), log);
    assert_eq!(cell.user_id(), 7);
    assert_eq!(cell.checkpoint_id(), 3);
    let expected = StateSnapshot {
        live: VecDeque::from(vec![live("t2", "two"), live("t1", "one")]),
        finished: vec![],
    };
    assert_eq!(cell.current(), expected);
}

#[test]
fn restore_without_log_is_the_checkpoint() {
    let checkpoint =
        StateSnapshot { live: VecDeque::from(vec![live("a", "b")]), finished: vec![] };
    let cell = PerUserWorkerData::restore(1, 2, checkpoint.clone(), vec![]);
    assert_eq!(cell.current(), checkpoint);
}

#[test]
fn appended_operation_is_applied_and_handed_back() {
    let mut cell = PerUserWorkerData::restore(1, 1, StateSnapshot::empty(), vec![]);
    let published = handle_ws_client_op(&mut cell, ins_new("t1", "buy milk", 0), Ok(()));
    assert_eq!(published, Ok(ins_new("t1", "buy milk", 0)));
    let expected = StateSnapshot {
        live: VecDeque::from(vec![live("t1", "buy milk")]),
        finished: vec![],
    };
    assert_eq!(cell.current(), expected);
}

#[test]
fn failed_append_leaves_the_cell_alone() {
    let log = vec![ins_new("t1", "one", 0)];
    let mut cell = PerUserWorkerData::restore(1, 1, StateSnapshot::empty(), log);
    let before = cell.current();
    let published = handle_ws_client_op(&mut cell, ins_new("t2", "two", 0), Err(store_failure()));
    assert_eq!(published, Err(AppError::InternalServerError));
    assert_eq!(cell.current(), before);
    assert_eq!(cell.user_id(), 1);
    assert_eq!(cell.checkpoint_id(), 1);
}

#[test]
fn restart_gives_the_snapshot_that_was_in_memory() {
    let submitted = vec![
        ins_new("t1", "one", 0),
        ins_new("t2", "two", 1),
        WebsocketOp::LiveTaskDelIns {
            live_task_id_del: "t2".to_string(),
            live_task_id_ins: "t1".to_string(),
        },
        WebsocketOp::LiveTaskDel { live_task_id: "t1".to_string() },
    ];
    let mut cell = PerUserWorkerData::restore(1, 1, StateSnapshot::empty(), vec![]);
    let mut log = vec![];
    for (n, op) in submitted.into_iter().enumerate() {
        let appended = if n == 1 { Err(store_failure()) } else { Ok(()) };
        if let Ok(published) = handle_ws_client_op(&mut cell, op, appended) {
            log.push(published);
        }
    }
    assert_eq!(log.len(), 3);
    let restarted = PerUserWorkerData::restore(1, 1, StateSnapshot::empty(), log.clone());
    assert_eq!(restarted.current(), cell.current());
    assert_eq!(replay(StateSnapshot::empty(), log), cell.current());
    assert_eq!(cell.current(), StateSnapshot::empty());
}

#[test]
fn fresh_user_then_reconnect() {
    let mut cell = PerUserWorkerData::restore(5, 1, StateSnapshot::empty(), vec![]);
    let mut session = Session::new(0);
    manage_updates_ws(&mut session, 0, SessionEvent::ClientMessage(Message::Text("{\"api_key\":\"k\"}".to_string())));
    let first = manage_updates_ws(&mut session, 0, SessionEvent::JoinDone(Ok(cell.current())));
    assert_eq!(first, Action::SendText(WebsocketOp::OverwriteState(StateSnapshot::empty())));

    let op = ins_new("t1", "buy milk", 0);
    let published = match handle_ws_client_op(&mut cell, op.clone(), Ok(())) {
        Ok(published) => published,
        Err(e) => panic!("unexpected failure {:?}", e),
    };
    assert_eq!(manage_updates_ws(&mut session, 1, SessionEvent::OpDone(Ok(()))), Action::Nothing);
    let echo = manage_updates_ws(&mut session, 1, SessionEvent::ServerUpdate(published));
    assert_eq!(echo, Action::SendText(op));

    let mut again = Session::new(2);
    manage_updates_ws(&mut again, 2, SessionEvent::ClientMessage(Message::Text("{\"api_key\":\"k\"}".to_string())));
    let first = manage_updates_ws(&mut again, 2, SessionEvent::JoinDone(Ok(cell.current())));
    let expected = StateSnapshot {
        live: VecDeque::from(vec![live("t1", "buy milk")]),
        finished: vec![],
    };
    assert_eq!(first, Action::SendText(WebsocketOp::OverwriteState(expected)));
}

#[test]
fn fan_out_reaches_every_session_in_order() {
    let (tx, mut rx_x) = broadcast::channel::<WebsocketOp>(UPDATES_CAPACITY);
    let mut rx_y = tx.subscribe();
    let mut cell = PerUserWorkerData::restore(1, 1, StateSnapshot::empty(), vec![]);
    let mut x = joined();
    let mut y = joined();

    let submitted: Vec<WebsocketOp> =
        (0..10).map(|n| ins_new(&format!("t{}", n), &format!("task {}", n), n)).collect();
    for op in submitted.iter() {
        match handle_ws_client_op(&mut cell, op.clone(), Ok(())) {
            Ok(published) => {
                assert!(tx.send(published).is_ok());
            }
            Err(e) => panic!("unexpected failure {:?}", e),
        }
        assert_eq!(manage_updates_ws(&mut x, 1, SessionEvent::OpDone(Ok(()))), Action::Nothing);
    }

    let mut seen_by_x = vec![];
    while let Ok(op) = rx_x.try_recv() {
        if let Action::SendText(sent) = manage_updates_ws(&mut x, 2, SessionEvent::ServerUpdate(op)) {
            seen_by_x.push(sent);
        }
    }
    let mut seen_by_y = vec![];
    while let Ok(op) = rx_y.try_recv() {
        if let Action::SendText(sent) = manage_updates_ws(&mut y, 2, SessionEvent::ServerUpdate(op)) {
            seen_by_y.push(sent);
        }
    }
    assert_eq!(seen_by_x, submitted);
    assert_eq!(seen_by_y, submitted);
    assert_eq!(cell.current().live.len(), 10);
}
