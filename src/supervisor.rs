//! The supervisor: the single slot that holds the persistent worker, and the
//! rules by which requests use it, crashes empty it and restarts refill it.
use vstd::prelude::*;

use crate::executor::ExecError;
use crate::launch::LaunchError;
use crate::wire::TaskResult;

verus! {

/// Seconds the background restart waits after a failure, so that a worker
/// that crashes at once is not restarted in a tight loop.
pub const RESTART_DELAY_SECS: u64 = 1;

/// What a non-blocking poll of the worker process said.
pub enum Liveness {
    Running,
    Exited,
    ProbeFailed,
}

/// The supervisor's state: whether a worker is stored, and whether one is
/// handed out to a request in flight.
pub struct SupervisorView {
    pub live: bool,
    pub busy: bool,
}

impl SupervisorView {
    /// A worker handed out to a request is not in the slot at the same time.
    pub open spec fn wf(self) -> bool {
        self.busy ==> !self.live
    }

    /// A launch (at start, on demand, or in the background) is called for.
    pub open spec fn needs_launch(self) -> bool {
        !self.live && !self.busy
    }
}

/// The operations on the supervisor, for reasoning about runs of them.
pub enum SupervisorOp {
    /// A liveness poll of the stored worker; whether it was kept.
    Probe(bool),
    /// A launch that succeeded or failed.
    Launch(bool),
    /// A request asks for the worker.
    Begin,
    /// The request in flight ended, well or not.
    Finish(bool),
}

/// The state after `op`.
pub open spec fn next_state(s: SupervisorView, op: SupervisorOp) -> SupervisorView {
    match op {
        SupervisorOp::Probe(keep) => if s.busy {
            s
        } else {
            SupervisorView { live: s.live && keep, busy: false }
        },
        SupervisorOp::Launch(ok) => if s.needs_launch() && ok {
            SupervisorView { live: true, busy: false }
        } else {
            s
        },
        SupervisorOp::Begin => if s.live && !s.busy {
            SupervisorView { live: false, busy: true }
        } else {
            s
        },
        SupervisorOp::Finish(ok) => if s.busy {
            SupervisorView { live: ok, busy: false }
        } else {
            s
        },
    }
}

/// `op` sends a command to the worker: a request got it.
pub open spec fn sends(s: SupervisorView, op: SupervisorOp) -> bool {
    op is Begin && s.live && !s.busy
}

/// The state after the first `n` operations of `ops`.
pub open spec fn state_after(s: SupervisorView, ops: Seq<SupervisorOp>, n: int) -> SupervisorView
    decreases n,
{
    if n <= 0 {
        s
    } else {
        next_state(state_after(s, ops, n - 1), ops[n - 1])
    }
}

/// How a request on the persistent path ended, for the caller.
pub enum RequestEnd {
    /// The worker answered; it stays in the slot.
    Done(TaskResult),
    /// The request failed and the worker was discarded: the caller schedules
    /// a background restart and serves this request on the one-shot path.
    Recover { crashed: bool, error: ExecError },
}

/// The single slot for the persistent worker `W`.
pub struct Supervisor<W> {
    slot: Option<W>,
    busy: bool,
}

impl<W> View for Supervisor<W> {
    type V = SupervisorView;

    closed spec fn view(&self) -> SupervisorView {
        SupervisorView { live: self.slot is Some, busy: self.busy }
    }
}

impl<W> Supervisor<W> {
    /// The worker in the slot, if any.
    pub closed spec fn stored(&self) -> Option<W> {
        self.slot
    }

    /// An empty slot, before the first launch.
    pub fn new() -> (r: Self)
        ensures
            r@ == (SupervisorView { live: false, busy: false }),
            r.stored() is None,
    {
        Supervisor { slot: None, busy: false }
    }

    pub fn has_worker(&self) -> (r: bool)
        ensures
            r == self@.live,
    {
        self.slot.is_some()
    }

    pub fn is_busy(&self) -> (r: bool)
        ensures
            r == self@.busy,
    {
        self.busy
    }

    /// Whether a launch is called for: no worker stored, none in use. The
    /// background restart launches only then, so it never replaces a worker
    /// that a later call already brought up.
    pub fn needs_launch(&self) -> (r: bool)
        ensures
            r == self@.needs_launch(),
    {
        self.slot.is_none() && !self.busy
    }

    /// Hands the stored worker out for a liveness poll.
    pub fn take_for_probe(&mut self) -> (r: Option<W>)
        requires
            !old(self)@.busy,
        ensures
            r == old(self).stored(),
            r is Some == old(self)@.live,
            final(self)@ == (SupervisorView { live: false, busy: false }),
            final(self).stored() is None,
    {
        self.slot.take()
    }

    /// Takes the polled worker back. It is kept only while it still runs; a
    /// worker that exited, or whose poll failed, is dropped, which ends it.
    pub fn after_probe(&mut self, w: W, probe: Liveness) -> (kept: bool)
        requires
            old(self)@ == (SupervisorView { live: false, busy: false }),
        ensures
            kept == (probe is Running),
            final(self)@ == next_state(
                SupervisorView { live: true, busy: false },
                SupervisorOp::Probe(kept),
            ),
            final(self).stored() == if kept {
                Some(w)
            } else {
                None
            },
    {
        match probe {
            Liveness::Running => {
                self.slot = Some(w);
                true
            },
            _ => false,
        }
    }

    /// Stores a freshly launched worker. A failed launch leaves the slot
    /// empty: the caller then serves the request on the one-shot path, and the
    /// next call tries again. Returns whether a worker is now stored.
    pub fn install_launched(&mut self, launched: Result<W, LaunchError>) -> (ready: bool)
        requires
            old(self)@.needs_launch(),
        ensures
            ready == launched is Ok,
            final(self)@ == next_state(old(self)@, SupervisorOp::Launch(ready)),
            final(self).stored() == match launched {
                Ok(w) => Some(w),
                Err(_) => None,
            },
    {
        match launched {
            Ok(w) => {
                self.slot = Some(w);
                true
            },
            Err(_) => false,
        }
    }

    /// Hands the worker to one request. While that request is in flight no
    /// other gets it: every request is sent, then drained to its result,
    /// before the next.
    pub fn begin_request(&mut self) -> (r: Option<W>)
        ensures
            r is Some == sends(old(self)@, SupervisorOp::Begin),
            final(self)@ == next_state(old(self)@, SupervisorOp::Begin),
            r is Some ==> r == old(self).stored() && final(self).stored() is None,
            r is None ==> final(self).stored() == old(self).stored(),
    {
        if self.busy {
            None
        } else {
            match self.slot.take() {
                Some(w) => {
                    self.busy = true;
                    Some(w)
                },
                None => None,
            }
        }
    }

    /// Ends the request in flight. On success the worker goes back to the
    /// slot; on any failure it is dropped and the slot stays empty.
    pub fn finish_request(&mut self, w: W, outcome: Result<TaskResult, ExecError>) -> (r: RequestEnd)
        requires
            old(self)@.busy,
        ensures
            final(self)@ == next_state(old(self)@, SupervisorOp::Finish(outcome is Ok)),
            final(self).stored() == if outcome is Ok {
                Some(w)
            } else {
                None
            },
            match outcome {
                Ok(t) => r == RequestEnd::Done(t),
                Err(e) => r == (RequestEnd::Recover { crashed: e is Crashed, error: e }),
            },
    {
        self.busy = false;
        match outcome {
            Ok(t) => {
                self.slot = Some(w);
                RequestEnd::Done(t)
            },
            Err(e) => {
                self.slot = None;
                let crashed = e.is_crash();
                RequestEnd::Recover { crashed, error: e }
            },
        }
    }
}

/// Every operation keeps the supervisor well formed.
pub proof fn lemma_next_state_wf(s: SupervisorView, op: SupervisorOp)
    requires
        s.wf(),
    ensures
        next_state(s, op).wf(),
{
}

/// A request that fails, by a crash or otherwise, leaves the slot empty:
/// no later request gets the discarded worker, and a launch is called for.
pub proof fn lemma_failure_clears_slot(s: SupervisorView)
    requires
        s.busy,
    ensures
        !next_state(s, SupervisorOp::Finish(false)).live,
        next_state(s, SupervisorOp::Finish(false)).needs_launch(),
        !sends(next_state(s, SupervisorOp::Finish(false)), SupervisorOp::Begin),
{
}

proof fn lemma_busy_until_finish(s: SupervisorView, ops: Seq<SupervisorOp>, i: int, k: int)
    requires
        0 <= i < k <= ops.len(),
        sends(state_after(s, ops, i), ops[i]),
        forall|m: int| i < m < k ==> !(#[trigger] ops[m] is Finish),
    ensures
        state_after(s, ops, k).busy,
    decreases k - i,
{
    if k > i + 1 {
        lemma_busy_until_finish(s, ops, i, k - 1);
        assert(!(ops[k - 1] is Finish));
    }
}

/// Requests are serialised: in any run of the supervisor, between two
/// operations that send a command to the worker lies the finish of the
/// first request.
pub proof fn lemma_requests_serialized(s: SupervisorView, ops: Seq<SupervisorOp>, i: int, j: int)
    requires
        0 <= i < j < ops.len(),
        sends(state_after(s, ops, i), ops[i]),
        sends(state_after(s, ops, j), ops[j]),
    ensures
        exists|k: int| i < k < j && (#[trigger] ops[k] is Finish),
{
    if !(exists|k: int| i < k < j && (#[trigger] ops[k] is Finish)) {
        lemma_busy_until_finish(s, ops, i, j);
    }
}

} // verus!
