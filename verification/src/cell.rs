//! The per-user cell: a user's current snapshot, kept in step with the log of
//! operations that were appended under the user's current checkpoint.
//!
//! A cell is rebuilt on first use by replaying the log on top of the
//! checkpoint. After that, an operation enters the snapshot only together
//! with the outcome of its append to the log, and only a successful append
//! lets it through; the operation to publish comes out of that same step. So
//! whatever subscribers are shown has been logged, and the snapshot in memory
//! stays what a fresh replay of checkpoint and log would give.

use crate::errors::{report_postgres_err, AppError};
use crate::model::{OpView, SnapshotView, StateSnapshot, WebsocketOp};
use crate::reducer::{apply_op, apply_operation, op_views, replay, replay_ops};
use vstd::prelude::*;

verus! {

/// How many published operations a subscriber may have pending before it
/// starts to miss some.
pub const UPDATES_CAPACITY: usize = 1000;

/// A user's cell.
pub struct PerUserWorkerData {
    user_id: i64,
    checkpoint_id: i64,
    snapshot: StateSnapshot,
    base: Ghost<SnapshotView>,
    log: Ghost<Seq<OpView>>,
}

/// What a cell stands for: whose it is, the checkpoint it builds on, the
/// snapshot of that checkpoint, the operations appended since, and the
/// snapshot held in memory.
pub struct CellView {
    pub user_id: i64,
    pub checkpoint_id: i64,
    pub base: SnapshotView,
    pub log: Seq<OpView>,
    pub snapshot: SnapshotView,
}

impl CellView {
    /// Whether the snapshot in memory is the replay of the log on top of the
    /// checkpoint.
    pub open spec fn in_step(self) -> bool {
        self.snapshot == replay_ops(self.base, self.log)
    }

    /// The cell after it has let `op` through: `op` is the last entry of the
    /// log and has been applied to the snapshot.
    pub open spec fn let_through(self, op: OpView) -> CellView {
        CellView { log: self.log.push(op), snapshot: apply_op(self.snapshot, op), ..self }
    }

    /// The cell after it has let `ops` through, one after the other.
    pub open spec fn let_through_all(self, ops: Seq<OpView>) -> CellView
        decreases ops.len(),
    {
        if ops.len() == 0 {
            self
        } else {
            self.let_through_all(ops.drop_last()).let_through(ops.last())
        }
    }
}

impl View for PerUserWorkerData {
    type V = CellView;

    closed spec fn view(&self) -> CellView {
        CellView {
            user_id: self.user_id,
            checkpoint_id: self.checkpoint_id,
            base: self.base@,
            log: self.log@,
            snapshot: self.snapshot@,
        }
    }
}

impl PerUserWorkerData {
    /// Rebuilds a user's cell from the most recent checkpoint and the
    /// operations appended under it, oldest first.
    pub fn restore(
        user_id: i64,
        checkpoint_id: i64,
        checkpoint: StateSnapshot,
        ops: Vec<WebsocketOp>,
    ) -> (cell: Self)
        ensures
            cell@.user_id == user_id,
            cell@.checkpoint_id == checkpoint_id,
            cell@.base == checkpoint@,
            cell@.log == op_views(ops@),
            cell@.snapshot == replay_ops(checkpoint@, op_views(ops@)),
            cell@.in_step(),
    {
        let ghost base = checkpoint@;
        let ghost log = op_views(ops@);
        let snapshot = replay(checkpoint, ops);
        PerUserWorkerData { user_id, checkpoint_id, snapshot, base: Ghost(base), log: Ghost(log) }
    }

    /// The user whose cell this is.
    pub fn user_id(&self) -> (id: i64)
        ensures
            id == self@.user_id,
    {
        self.user_id
    }

    /// The checkpoint under which this cell's operations are appended.
    pub fn checkpoint_id(&self) -> (id: i64)
        ensures
            id == self@.checkpoint_id,
    {
        self.checkpoint_id
    }

    /// A copy of the current snapshot, for a session that joins.
    pub fn current(&self) -> (snapshot: StateSnapshot)
        ensures
            snapshot@ == self@.snapshot,
    {
        self.snapshot.clone()
    }

    /// Takes in an operation whose append to the log has succeeded.
    fn commit(&mut self, op: WebsocketOp)
        ensures
            final(self)@ == old(self)@.let_through(op@),
            old(self)@.in_step() ==> final(self)@.in_step(),
    {
        proof {
            assert(self.log@.push(op@).drop_last() =~= self.log@);
            self.log = Ghost(self.log@.push(op@));
        }
        apply_operation(&mut self.snapshot, op);
    }
}

/// Carries a client's operation through the user's cell, given the outcome of
/// appending it to the log under the cell's checkpoint.
///
/// If the append succeeded, the operation is applied to the snapshot and
/// handed back to be published to the cell's subscribers. If it failed, the
/// cell is left as it was and nothing is to be published.
pub fn handle_ws_client_op(
    per_user_worker_data: &mut PerUserWorkerData,
    op: WebsocketOp,
    appended: Result<(), tokio_postgres::Error>,
) -> (published: Result<WebsocketOp, AppError>)
    ensures
        old(per_user_worker_data)@.in_step() ==> final(per_user_worker_data)@.in_step(),
        match appended {
            Ok(_) => {
                &&& published matches Ok(out)
                &&& out@ == op@
                &&& final(per_user_worker_data)@ == old(per_user_worker_data)@.let_through(op@)
            },
            Err(_) => {
                &&& published == Err::<WebsocketOp, AppError>(AppError::InternalServerError)
                &&& final(per_user_worker_data)@ == old(per_user_worker_data)@
            },
        },
{
    match appended {
        Ok(_) => {
            per_user_worker_data.commit(op.clone());
            Ok(op)
        },
        Err(e) => Err(report_postgres_err(e)),
    }
}

/// A cell that is in step stays in step when it lets an operation through,
/// and a replay of its checkpoint and log then ends with that operation.
pub proof fn lemma_let_through_keeps_step(cell: CellView, op: OpView)
    requires
        cell.in_step(),
    ensures
        cell.let_through(op).in_step(),
        cell.let_through(op).log.last() == op,
        replay_ops(cell.base, cell.let_through(op).log) == apply_op(cell.snapshot, op),
{
    assert(cell.log.push(op).drop_last() =~= cell.log);
}

/// A cell that lets operations through one by one, as they are appended to
/// its log, holds at every moment the snapshot that a replay of its
/// checkpoint and its log gives: the operations let through come after those
/// that were in the log before, in the order in which they were let through.
pub proof fn lemma_memory_equals_replay(cell: CellView, ops: Seq<OpView>)
    requires
        cell.in_step(),
    ensures
        cell.let_through_all(ops).in_step(),
        cell.let_through_all(ops).base == cell.base,
        cell.let_through_all(ops).log == cell.log + ops,
        cell.let_through_all(ops).snapshot == replay_ops(cell.base, cell.log + ops),
    decreases ops.len(),
{
    if ops.len() == 0 {
        assert(cell.log + ops =~= cell.log);
    } else {
        lemma_memory_equals_replay(cell, ops.drop_last());
        lemma_let_through_keeps_step(cell.let_through_all(ops.drop_last()), ops.last());
        assert((cell.log + ops.drop_last()).push(ops.last()) =~= cell.log + ops);
    }
}

/// Two cells in step that build on the same checkpoint and hold the same log
/// hold the same snapshot: a cell that is rebuilt from the store takes up
/// where the cell in memory left off.
pub proof fn lemma_restart_agrees(before: CellView, after: CellView)
    requires
        before.in_step(),
        after.in_step(),
        after.base == before.base,
        after.log == before.log,
    ensures
        after.snapshot == before.snapshot,
{
}

} // verus!
