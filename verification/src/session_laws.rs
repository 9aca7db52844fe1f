//! What holds of a session in every state and for every event.

use crate::model::OpView;
use crate::session::{
    idle_time, published_ops, run, sent_ops, step_spec, timed_out, ActionView, MessageView, Phase,
    Session, SessionEventView, Timed, CLIENT_TIMEOUT_NANOS, HEARTBEAT_INTERVAL_NANOS,
};
use vstd::prelude::*;

verus! {

/// How far a session has come: a session never goes back to an earlier phase.
pub open spec fn progress(phase: Phase) -> int {
    match phase {
        Phase::Handshake => 0,
        Phase::Joining => 1,
        Phase::Joined => 2,
        Phase::Closed => 3,
    }
}

/// A closed session stays as it is and asks for nothing.
pub proof fn lemma_closed_is_final(s: Session, now: u64, event: SessionEventView)
    requires
        s.phase == Phase::Closed,
    ensures
        step_spec(s, now, event) == (s, ActionView::Nothing),
{
}

/// A session asks for the socket to be closed exactly when it becomes closed,
/// hence at most once; and no step takes it back to an earlier phase.
pub proof fn lemma_closes_once(s: Session, now: u64, event: SessionEventView)
    ensures
        ({
            let (next, action) = step_spec(s, now, event);
            &&& action is Close <==> s.phase != Phase::Closed && next.phase == Phase::Closed
            &&& progress(s.phase) <= progress(next.phase)
        }),
{
}

/// Only a ping or a pong from the peer counts as a heartbeat, and it counts
/// from the moment at which it arrives.
pub proof fn lemma_heartbeat_comes_from_peer(s: Session, now: u64, event: SessionEventView)
    ensures
        ({
            let (next, action) = step_spec(s, now, event);
            let open = s.phase == Phase::Handshake || s.phase == Phase::Joined;
            let heard = open && match event {
                SessionEventView::ClientMessage(m) => m is Ping || m is Pong,
                _ => false,
            };
            next.last_heartbeat == if heard {
                now
            } else {
                s.last_heartbeat
            }
        }),
{
}

/// A ping is answered with a pong that carries the same payload.
pub proof fn lemma_pong_echoes_ping(s: Session, now: u64, payload: Seq<u8>)
    requires
        s.phase == Phase::Handshake || s.phase == Phase::Joined,
    ensures
        step_spec(s, now, SessionEventView::ClientMessage(MessageView::Ping(payload))).1
            == ActionView::Pong(payload),
{
}

/// A joined session sends an operation to its peer exactly when the cell
/// publishes one, and then it sends that operation. In particular the
/// operation that the session itself submitted reaches its peer by no other
/// way than the cell, and a notice of lag sends nothing and changes nothing.
pub proof fn lemma_joined_forwards(s: Session, now: u64, event: SessionEventView)
    requires
        s.phase == Phase::Joined,
    ensures
        ({
            let (next, action) = step_spec(s, now, event);
            &&& match action {
                ActionView::SendText(op) => event == SessionEventView::ServerUpdate(op),
                _ => !(event is ServerUpdate),
            }
            &&& event is ServerUpdate ==> next == s
            &&& event is ServerLagged ==> action is Nothing && next == s
        }),
{
}

/// Whether `event` reports that the session has joined its cell.
pub open spec fn is_join_success(event: SessionEventView) -> bool {
    match event {
        SessionEventView::JoinDone(Ok(_)) => true,
        _ => false,
    }
}

/// A session becomes joined exactly when it is told, while joining, that the
/// join succeeded; and the only thing that a session sends before it is
/// joined is, at that moment, the whole snapshot that it was given.
pub proof fn lemma_join_sends_snapshot(s: Session, now: u64, event: SessionEventView)
    requires
        s.phase != Phase::Joined,
    ensures
        ({
            let (next, action) = step_spec(s, now, event);
            &&& next.phase == Phase::Joined <==> s.phase == Phase::Joining && is_join_success(
                event,
            )
            &&& match action {
                ActionView::SendText(op) => match event {
                    SessionEventView::JoinDone(Ok(snapshot)) => {
                        next.phase == Phase::Joined && op == OpView::OverwriteState(snapshot)
                    },
                    _ => false,
                },
                _ => !is_join_success(event) || s.phase != Phase::Joining,
            }
        }),
{
}

/// A session that is joined at the end of a run was joined throughout, if it
/// was joined at the start.
proof fn lemma_joined_throughout(s: Session, events: Seq<Timed>)
    requires
        s.phase == Phase::Joined,
        events.len() > 0,
        run(s, events).0.phase == Phase::Joined,
    ensures
        run(s, events.drop_last()).0.phase == Phase::Joined,
    decreases events.len(),
{
    let before = run(s, events.drop_last()).0;
    lemma_run_progress(s, events.drop_last());
    lemma_closes_once(before, events.last().now, events.last().event);
}

/// No run takes a session back to an earlier phase.
pub proof fn lemma_run_progress(s: Session, events: Seq<Timed>)
    ensures
        progress(s.phase) <= progress(run(s, events).0.phase),
        run(s, events).1.len() == events.len(),
    decreases events.len(),
{
    if events.len() > 0 {
        lemma_run_progress(s, events.drop_last());
        lemma_closes_once(
            run(s, events.drop_last()).0,
            events.last().now,
            events.last().event,
        );
    }
}

/// As long as a joined session stays joined, what it sends to its peer is
/// what the cell published, operation by operation and in the same order,
/// whatever else happens in between. Two sessions that are handed the same
/// operations by the cell therefore show their peers the same operations in
/// the same order.
pub proof fn lemma_forwards_in_order(s: Session, events: Seq<Timed>)
    requires
        s.phase == Phase::Joined,
        run(s, events).0.phase == Phase::Joined,
    ensures
        sent_ops(run(s, events).1) == published_ops(events),
    decreases events.len(),
{
    if events.len() > 0 {
        let front = events.drop_last();
        lemma_joined_throughout(s, events);
        lemma_forwards_in_order(s, front);
        let (before, actions) = run(s, front);
        let (after, action) = step_spec(before, events.last().now, events.last().event);
        lemma_joined_forwards(before, events.last().now, events.last().event);
        assert(run(s, events).1 == actions.push(action));
        assert(actions.push(action).drop_last() =~= actions);
        assert(actions.push(action).last() == action);
    }
}

/// Whatever happens to a joined session, what it sends to its peer is the
/// beginning of what the cell published: nothing is made up, left out in the
/// middle or put in another order.
pub proof fn lemma_sends_a_prefix(s: Session, events: Seq<Timed>)
    requires
        s.phase == Phase::Joined,
    ensures
        sent_ops(run(s, events).1).len() <= published_ops(events).len(),
        sent_ops(run(s, events).1) == published_ops(events).take(
            sent_ops(run(s, events).1).len() as int,
        ),
    decreases events.len(),
{
    if events.len() > 0 {
        let front = events.drop_last();
        lemma_sends_a_prefix(s, front);
        lemma_run_progress(s, front);
        let (before, actions) = run(s, front);
        let (after, action) = step_spec(before, events.last().now, events.last().event);
        assert(run(s, events).1 == actions.push(action));
        assert(actions.push(action).drop_last() =~= actions);
        assert(actions.push(action).last() == action);
        let sent = sent_ops(actions);
        let published = published_ops(front);
        if before.phase == Phase::Joined {
            if after.phase == Phase::Joined || action is SendText {
                lemma_forwards_in_order(s, front);
                lemma_joined_forwards(before, events.last().now, events.last().event);
                assert(sent == published);
                assert(published_ops(events).take(sent_ops(run(s, events).1).len() as int)
                    =~= sent_ops(run(s, events).1));
            } else {
                lemma_joined_forwards(before, events.last().now, events.last().event);
                assert(sent_ops(actions.push(action)) == sent);
                assert(published_ops(events).take(sent.len() as int) =~= published.take(
                    sent.len() as int,
                ));
            }
        } else {
            lemma_closed_is_final(before, events.last().now, events.last().event);
            assert(sent_ops(actions.push(action)) == sent);
            assert(published_ops(events).take(sent.len() as int) =~= published.take(
                sent.len() as int,
            ));
        }
    } else {
        assert(published_ops(events).take(0) =~= Seq::<OpView>::empty());
    }
}

/// A tick that finds the peer silent for more than the timeout closes the
/// session without a reason; any other tick sends a ping.
pub proof fn lemma_tick(s: Session, now: u64)
    requires
        s.phase == Phase::Handshake || s.phase == Phase::Joined,
    ensures
        ({
            let (next, action) = step_spec(s, now, SessionEventView::HeartbeatTick);
            if timed_out(s, now) {
                next.phase == Phase::Closed && action == ActionView::Close(None)
            } else {
                next == s && action == ActionView::Ping
            }
        }),
{
}

/// The three ticks that follow the moment at which the peer falls silent, one
/// heartbeat interval apart and with nothing from the peer in between, close
/// the session, the last of them no later than fifteen seconds after that
/// moment.
pub proof fn lemma_silent_peer_is_closed(s: Session, first_tick: u64)
    requires
        s.phase == Phase::Handshake || s.phase == Phase::Joined,
        s.last_heartbeat < first_tick <= s.last_heartbeat + HEARTBEAT_INTERVAL_NANOS,
        first_tick + 2 * HEARTBEAT_INTERVAL_NANOS <= u64::MAX,
    ensures
        ({
            let second_tick = (first_tick + HEARTBEAT_INTERVAL_NANOS) as u64;
            let third_tick = (first_tick + 2 * HEARTBEAT_INTERVAL_NANOS) as u64;
            let ticks = seq![
                Timed { now: first_tick, event: SessionEventView::HeartbeatTick },
                Timed { now: second_tick, event: SessionEventView::HeartbeatTick },
                Timed { now: third_tick, event: SessionEventView::HeartbeatTick },
            ];
            &&& run(s, ticks).0.phase == Phase::Closed
            &&& third_tick - s.last_heartbeat <= CLIENT_TIMEOUT_NANOS + HEARTBEAT_INTERVAL_NANOS
        }),
{
    let second_tick = (first_tick + HEARTBEAT_INTERVAL_NANOS) as u64;
    let third_tick = (first_tick + 2 * HEARTBEAT_INTERVAL_NANOS) as u64;
    let t1 = Timed { now: first_tick, event: SessionEventView::HeartbeatTick };
    let t2 = Timed { now: second_tick, event: SessionEventView::HeartbeatTick };
    let t3 = Timed { now: third_tick, event: SessionEventView::HeartbeatTick };
    let ticks = seq![t1, t2, t3];
    let none = Seq::<Timed>::empty();
    assert(ticks.drop_last() =~= seq![t1, t2]);
    assert(seq![t1, t2].drop_last() =~= seq![t1]);
    assert(seq![t1].drop_last() =~= none);
    assert(run(s, none).0 == s);
    let s1 = step_spec(s, first_tick, SessionEventView::HeartbeatTick).0;
    assert(run(s, seq![t1]).0 == s1);
    assert(idle_time(s, first_tick) <= HEARTBEAT_INTERVAL_NANOS);
    assert(s1 == s);
    let s2 = step_spec(s1, second_tick, SessionEventView::HeartbeatTick).0;
    assert(run(s, seq![t1, t2]).0 == s2);
    assert(s2 == s);
    let s3 = step_spec(s2, third_tick, SessionEventView::HeartbeatTick).0;
    assert(run(s, ticks).0 == s3);
    assert(idle_time(s, third_tick) > CLIENT_TIMEOUT_NANOS);
}

} // verus!
