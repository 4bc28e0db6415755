use vstd::prelude::*;
use crate::batch::SubmitOutcome;

verus! {

/// What the worker does at the top of its loop.
#[derive(Debug, Clone, Copy, PartialEq, Eq, Structural)]
pub enum Step {
    /// Nothing to do: block until a submission or the shutdown signal comes.
    Idle,
    /// Submit what is queued or left over, then reap.
    Submit,
    /// Shutdown was asked and everything is drained, or the kernel context
    /// has failed: leave the loop.
    Exit,
}

/// The number of control blocks of an outcome that the kernel now holds.
pub open spec fn taken<P>(o: SubmitOutcome<P>) -> nat {
    match o {
        SubmitOutcome::Accepted(k) => k as nat,
        SubmitOutcome::Rejected(_, _) => 0,
    }
}

/// Whether an outcome moved anything forward, so that another submission is
/// worth a try.
pub open spec fn progressed<P>(o: SubmitOutcome<P>) -> bool {
    match o {
        SubmitOutcome::Accepted(k) => k > 0,
        SubmitOutcome::Rejected(_, _) => true,
    }
}

/// Whether an outcome moved anything forward.
pub fn made_progress<P>(o: &SubmitOutcome<P>) -> (r: bool)
    ensures
        r == progressed(*o),
{
    match o {
        SubmitOutcome::Accepted(k) => *k > 0,
        SubmitOutcome::Rejected(_, _) => true,
    }
}

/// The background worker's own state: how many submitted operations the
/// kernel has not reported yet, whether shutdown was asked, and whether the
/// kernel context has failed, which ends the worker for good.
pub struct WorkerState {
    ongoing: usize,
    shutting_down: bool,
    failed: bool,
}

/// What the worker does at the top of its loop, given whether anything is
/// left over from an earlier submission and whether the queue is empty.
pub open spec fn next_step(
    ongoing: nat,
    shutting_down: bool,
    failed: bool,
    left_over: bool,
    queued: bool,
) -> Step {
    if failed {
        Step::Exit
    } else if ongoing == 0 && !left_over && !queued {
        if shutting_down {
            Step::Exit
        } else {
            Step::Idle
        }
    } else {
        Step::Submit
    }
}

impl WorkerState {
    pub closed spec fn ongoing(&self) -> nat {
        self.ongoing as nat
    }

    pub closed spec fn shutting_down(&self) -> bool {
        self.shutting_down
    }

    pub closed spec fn failed(&self) -> bool {
        self.failed
    }

    pub fn new() -> (r: Self)
        ensures
            r.ongoing() == 0,
            !r.shutting_down(),
            !r.failed(),
    {
        WorkerState { ongoing: 0, shutting_down: false, failed: false }
    }

    /// The kernel context has failed: nothing it held will be reported, and
    /// the worker leaves its loop.
    pub fn fail(&mut self)
        ensures
            final(self).failed(),
            final(self).ongoing() == 0,
            final(self).shutting_down() == old(self).shutting_down(),
    {
        self.failed = true;
        self.ongoing = 0;
    }

    /// The number of operations that the kernel holds.
    pub fn ongoing_count(&self) -> (r: usize)
        ensures
            r == self.ongoing(),
    {
        self.ongoing
    }

    /// The next step, given whether anything is left over and whether
    /// anything is queued.
    pub fn step(&self, left_over: bool, queued: bool) -> (r: Step)
        ensures
            r == next_step(self.ongoing(), self.shutting_down(), self.failed(), left_over, queued),
    {
        if self.failed {
            Step::Exit
        } else if self.ongoing == 0 && !left_over && !queued {
            if self.shutting_down {
                Step::Exit
            } else {
                Step::Idle
            }
        } else {
            Step::Submit
        }
    }

    /// The shutdown signal has come.
    pub fn shut_down(&mut self)
        ensures
            final(self).ongoing() == old(self).ongoing(),
            final(self).shutting_down(),
            final(self).failed() == old(self).failed(),
    {
        self.shutting_down = true;
    }

    /// Counts what a submission handed to the kernel. Returns false, and
    /// changes nothing, where the count would not fit.
    pub fn submitted<P>(&mut self, o: &SubmitOutcome<P>) -> (r: bool)
        ensures
            r == (old(self).ongoing() + taken(*o) <= usize::MAX),
            r ==> final(self).ongoing() == old(self).ongoing() + taken(*o),
            !r ==> final(self).ongoing() == old(self).ongoing(),
            final(self).shutting_down() == old(self).shutting_down(),
            final(self).failed() == old(self).failed(),
    {
        let k: usize = match o {
            SubmitOutcome::Accepted(k) => *k,
            SubmitOutcome::Rejected(_, _) => 0,
        };
        if k <= usize::MAX - self.ongoing {
            self.ongoing = self.ongoing + k;
            true
        } else {
            false
        }
    }

    /// Whether to wait for completions: the kernel holds something.
    pub fn should_reap(&self) -> (r: bool)
        ensures
            r == (self.ongoing() > 0),
    {
        self.ongoing > 0
    }

    /// Counts the result `ret` of `io_getevents`: the number of completions
    /// to dispatch, zero on a timeout. A negative result, or more completions
    /// than were outstanding, is returned as an error and changes nothing.
    pub fn reaped(&mut self, ret: i64) -> (r: Result<usize, i64>)
        ensures
            0 <= ret <= old(self).ongoing() ==> r == Ok::<usize, i64>(ret as usize)
                && final(self).ongoing() == old(self).ongoing() - ret,
            !(0 <= ret <= old(self).ongoing()) ==> r == Err::<usize, i64>(ret)
                && final(self).ongoing() == old(self).ongoing(),
            final(self).shutting_down() == old(self).shutting_down(),
            final(self).failed() == old(self).failed(),
    {
        if ret >= 0 && ret as u64 <= self.ongoing as u64 {
            let m = ret as usize;
            self.ongoing = self.ongoing - m;
            Ok(m)
        } else {
            Err(ret)
        }
    }
}

/// Unless the kernel context failed, the worker leaves its loop only once
/// shutdown was asked and nothing is outstanding, left over or queued; once
/// all of that holds, it leaves. After a failure it always leaves.
pub proof fn lemma_exit_only_when_drained(
    ongoing: nat,
    shutting_down: bool,
    failed: bool,
    left_over: bool,
    queued: bool,
)
    ensures
        (next_step(ongoing, shutting_down, failed, left_over, queued) == Step::Exit) <==> (failed
            || (shutting_down && ongoing == 0 && !left_over && !queued)),
        next_step(ongoing, shutting_down, failed, left_over, queued) == Step::Idle ==> !shutting_down,
{
}

} // verus!
