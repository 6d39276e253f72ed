use vstd::prelude::*;

verus! {

/// What flows through the work queue: a job to run, or the order to stop.
pub enum Message<J> {
    NewJob(J),
    Terminate,
}

/// Where a worker's receive loop stands.
#[derive(PartialEq, Eq, Structural, Clone, Copy, Debug)]
pub enum WorkerState {
    Running,
    Stopped,
}

/// The bookkeeping of one worker: its index in the pool and its loop state.
pub struct Worker {
    pub id: usize,
    pub state: WorkerState,
}

impl Worker {
    /// A freshly started worker with index `id`, waiting for messages.
    pub fn new(id: usize) -> (r: Worker)
        ensures
            r.id == id,
            r.state == WorkerState::Running,
    {
        Worker { id, state: WorkerState::Running }
    }

    /// One turn of the receive loop. A job is handed back to be run once,
    /// and the worker keeps running; the stop order ends the loop and
    /// hands back nothing.
    pub fn receive<J>(&mut self, msg: Message<J>) -> (r: Option<J>)
        requires
            old(self).state == WorkerState::Running,
        ensures
            final(self).id == old(self).id,
            match msg {
                Message::NewJob(job) => r == Some(job) && final(self).state == WorkerState::Running,
                Message::Terminate => r is None && final(self).state == WorkerState::Stopped,
            },
    {
        match msg {
            Message::NewJob(job) => Some(job),
            Message::Terminate => {
                self.state = WorkerState::Stopped;
                None
            },
        }
    }

    /// Whether the loop has ended and the worker's thread may be joined.
    pub fn is_stopped(&self) -> (r: bool)
        ensures
            r <==> self.state == WorkerState::Stopped,
    {
        self.state == WorkerState::Stopped
    }
}

} // verus!
