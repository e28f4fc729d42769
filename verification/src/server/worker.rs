//! The worker threads, which handle connections one after the other.

use vstd::prelude::*;

verus! {

/// The distance between the connection ids of two workers.
pub const WORKER_STRIDE: usize = 100_000;

/// How many connections can wait for a worker. This prevents drops when a connection comes to a
/// worker that is busy for a moment.
pub const WORKER_QUEUE: usize = 8;

/// A worker and the number of connections it has handled.
#[derive(Clone, Copy, Debug, PartialEq, Eq, Structural)]
pub struct Worker {
    pub id: usize,
    pub conn_seq: usize,
}

/// What has happened to a worker.
#[derive(Clone, Copy, Debug, PartialEq, Eq, Structural)]
pub enum WorkerEvent {
    /// It has nothing to do: it has just started, has handled a connection, or has waited
    /// for a job in vain. `shutdown` tells whether the server is shutting down.
    Idle { shutdown: bool },
    /// No job will come any more.
    Disconnected,
    /// It was told to stop.
    Shutdown,
    /// It was given a connection.
    Connection,
}

/// What a worker does next.
#[derive(Clone, Copy, Debug, PartialEq, Eq, Structural)]
pub enum WorkerAction {
    /// Wait for a job.
    Receive,
    /// Handle the connection under this id.
    Handle { conn_id: usize },
    /// Stop.
    Stop,
}

/// The id of a worker's connection, used for log correlation.
pub open spec fn conn_id_of(worker: int, seq: int) -> int {
    worker * WORKER_STRIDE + seq
}

/// One step of a worker.
pub open spec fn worker_step(w: Worker, event: WorkerEvent) -> (Worker, WorkerAction) {
    match event {
        WorkerEvent::Idle { shutdown: true } => (w, WorkerAction::Stop),
        WorkerEvent::Idle { shutdown: false } => (w, WorkerAction::Receive),
        WorkerEvent::Disconnected => (w, WorkerAction::Stop),
        WorkerEvent::Shutdown => (w, WorkerAction::Stop),
        WorkerEvent::Connection => {
            let seq = w.conn_seq + 1;
            (
                Worker { id: w.id, conn_seq: seq as usize },
                WorkerAction::Handle { conn_id: conn_id_of(w.id as int, seq) as usize },
            )
        },
    }
}

impl Worker {
    /// A worker that has handled no connection yet.
    pub fn new(id: usize) -> (r: Worker)
        ensures
            r == (Worker { id, conn_seq: 0 }),
    {
        Worker { id, conn_seq: 0 }
    }
}

/// One step of a worker: takes what has happened and yields what to do next.
pub fn worker_loop(w: &mut Worker, event: WorkerEvent) -> (r: WorkerAction)
    requires
        event == WorkerEvent::Connection ==> conn_id_of(old(w).id as int, old(w).conn_seq + 1)
            <= usize::MAX,
    ensures
        (*final(w), r) == worker_step(*old(w), event),
{
    match event {
        WorkerEvent::Idle { shutdown } => if shutdown {
            WorkerAction::Stop
        } else {
            WorkerAction::Receive
        },
        WorkerEvent::Disconnected => WorkerAction::Stop,
        WorkerEvent::Shutdown => WorkerAction::Stop,
        WorkerEvent::Connection => {
            assert(w.id * WORKER_STRIDE >= 0) by (nonlinear_arith);
            w.conn_seq = w.conn_seq + 1;
            WorkerAction::Handle { conn_id: w.id * WORKER_STRIDE + w.conn_seq }
        },
    }
}

/// The connections of all workers have different ids, as long as no worker handles more than
/// `WORKER_STRIDE` of them.
pub proof fn law_conn_ids_differ(a: Worker, b: Worker)
    requires
        a.conn_seq < WORKER_STRIDE,
        b.conn_seq < WORKER_STRIDE,
        conn_id_of(a.id as int, a.conn_seq + 1) <= usize::MAX,
        conn_id_of(b.id as int, b.conn_seq + 1) <= usize::MAX,
        a != b,
    ensures
        worker_step(a, WorkerEvent::Connection).1 != worker_step(b, WorkerEvent::Connection).1,
{
    let i = a.id as int;
    let j = b.id as int;
    assert(i * 100_000 >= 0 && j * 100_000 >= 0);
    assert(i != j ==> i * 100_000 - j * 100_000 >= 100_000 || j * 100_000 - i * 100_000
        >= 100_000);
}

} // verus!
