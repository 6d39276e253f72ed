use vstd::prelude::*;

verus! {

/// One action of a pool's teardown.
#[derive(PartialEq, Eq, Structural, Clone, Copy, Debug)]
pub enum ShutdownStep {
    /// Queue one stop order.
    SendTerminate,
    /// Wait for the worker with this index to exit.
    Join(usize),
    /// Every worker has been told to stop and has been joined.
    Done,
}

/// The `k`-th action (from zero) of the teardown of a pool of `n` workers:
/// first `n` stop orders, then the joins in the order the workers were
/// created, then nothing more to do.
pub open spec fn step_at(n: nat, k: nat) -> ShutdownStep {
    if k < n {
        ShutdownStep::SendTerminate
    } else if k < 2 * n {
        ShutdownStep::Join((k - n) as usize)
    } else {
        ShutdownStep::Done
    }
}

/// The teardown of a pool, one action at a time. All stop orders go out
/// before the first join, so a worker is never waited for while its stop
/// order is still unsent.
pub struct Shutdown {
    workers: usize,
    sent: usize,
    joined: usize,
}

impl Shutdown {
    /// The number of workers being shut down.
    pub closed spec fn workers(&self) -> nat {
        self.workers as nat
    }

    /// How many actions have been handed out so far.
    pub closed spec fn progress(&self) -> nat {
        (self.sent + self.joined) as nat
    }

    pub closed spec fn wf(&self) -> bool {
        &&& self.sent <= self.workers
        &&& self.joined <= self.workers
        &&& self.joined > 0 ==> self.sent == self.workers
    }

    /// The teardown of a pool of `workers` workers, before its first action.
    pub fn new(workers: usize) -> (r: Shutdown)
        ensures
            r.wf(),
            r.workers() == workers,
            r.progress() == 0,
    {
        Shutdown { workers, sent: 0, joined: 0 }
    }

    /// The next action. After `Done` it keeps answering `Done`.
    pub fn next(&mut self) -> (r: ShutdownStep)
        requires
            old(self).wf(),
        ensures
            final(self).wf(),
            final(self).workers() == old(self).workers(),
            r == step_at(old(self).workers(), old(self).progress()),
            final(self).progress() == if old(self).progress() < 2 * old(self).workers() {
                old(self).progress() + 1
            } else {
                old(self).progress()
            },
    {
        if self.sent < self.workers {
            self.sent = self.sent + 1;
            ShutdownStep::SendTerminate
        } else if self.joined < self.workers {
            let id = self.joined;
            self.joined = self.joined + 1;
            ShutdownStep::Join(id)
        } else {
            ShutdownStep::Done
        }
    }
}

/// Shutting down `n` workers sends exactly `n` stop orders, all of them
/// before the first join; joins each worker exactly once, in creation
/// order; and reports `Done` only after every worker has been joined.
pub proof fn lemma_shutdown_complete(n: nat)
    requires
        n <= usize::MAX,
    ensures
        forall|k: nat| k < n ==> #[trigger] step_at(n, k) == ShutdownStep::SendTerminate,
        forall|k: nat| #[trigger] step_at(n, k) == ShutdownStep::SendTerminate ==> k < n,
        forall|i: nat| i < n ==> #[trigger] step_at(n, n + i) == ShutdownStep::Join(i as usize),
        forall|k1: nat, k2: nat|
            #![trigger step_at(n, k1), step_at(n, k2)]
            step_at(n, k1) is Join && step_at(n, k2) is Join && step_at(n, k1) == step_at(n, k2) ==> k1 == k2,
        forall|k: nat| #[trigger] step_at(n, k) == ShutdownStep::Done <==> k >= 2 * n,
{
    assert forall|k1: nat, k2: nat|
        #![trigger step_at(n, k1), step_at(n, k2)]
        step_at(n, k1) is Join && step_at(n, k2) is Join && step_at(n, k1) == step_at(n, k2) implies k1 == k2 by {
        assert(n <= k1 < 2 * n && n <= k2 < 2 * n);
        assert((k1 - n) as usize == k1 - n && (k2 - n) as usize == k2 - n);
    }
}

} // verus!
