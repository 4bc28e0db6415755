use vstd::prelude::*;
use crossbeam_channel::Receiver;

verus! {

#[verifier::external_type_specification]
#[verifier::external_body]
#[verifier::reject_recursive_types(T)]
pub struct ExReceiver<T>(crossbeam_channel::Receiver<T>);

/// Relies on `crossbeam_channel::Receiver::try_recv`: takes a message that is
/// there without blocking. Other threads send meanwhile, so nothing is stated
/// of what comes back.
#[verifier::external_body]
fn try_recv<T>(queue: &Receiver<T>) -> (m: Option<T>) {
    queue.try_recv().ok()
}

/// What one call of `io_submit` did with a batch.
#[derive(Debug, PartialEq, Eq)]
pub enum SubmitOutcome<P> {
    /// The kernel took this many control blocks from the front of the batch.
    Accepted(usize),
    /// The kernel refused the first control block with this negated errno; it
    /// will never complete, so its result is reported at once.
    Rejected(P, i64),
}

/// How many control blocks from the front of a batch of `len` the kernel took,
/// given the result `ret` of `io_submit`: `EAGAIN` and errors count as none.
pub open spec fn accepted_count(len: nat, ret: int) -> nat {
    if ret < 0 {
        0
    } else if ret > len {
        len
    } else {
        ret as nat
    }
}

/// Whether `ret` says that the first control block was refused, `eagain`
/// being the platform's code for "try again".
pub open spec fn refuses_head(len: nat, ret: int, eagain: int) -> bool {
    ret < 0 && ret != -eagain && len > 0
}

/// What is left of `batch` for a later submission after `io_submit` answered `ret`.
pub open spec fn left_after<P>(batch: Seq<P>, ret: int, eagain: int) -> Seq<P> {
    if refuses_head(batch.len(), ret, eagain) {
        batch.drop_first()
    } else {
        batch.subrange(accepted_count(batch.len(), ret) as int, batch.len() as int)
    }
}

/// The worker's side of submission: the batch cap, and the control blocks that
/// an earlier `io_submit` did not take, in their order.
pub struct AIOBatchSchedulerOut<P> {
    max_nbatched: usize,
    eagain: i32,
    leftover: Vec<P>,
}

impl<P> AIOBatchSchedulerOut<P> {
    pub closed spec fn cap(&self) -> nat {
        self.max_nbatched as nat
    }

    /// The platform's code for "try again".
    pub closed spec fn again(&self) -> int {
        self.eagain as int
    }

    pub closed spec fn pending(&self) -> Seq<P> {
        self.leftover@
    }

    /// The leftover never holds more than one batch.
    pub open spec fn wf(&self) -> bool {
        self.pending().len() <= self.cap()
    }

    pub fn new(max_nbatched: usize, eagain: i32) -> (r: Self)
        ensures
            r.cap() == max_nbatched,
            r.again() == eagain,
            r.pending() == Seq::<P>::empty(),
            r.wf(),
    {
        AIOBatchSchedulerOut { max_nbatched, eagain, leftover: Vec::new() }
    }

    /// Whether no control block is left over.
    pub fn is_empty(&self) -> (r: bool)
        ensures
            r == (self.pending().len() == 0),
    {
        self.leftover.len() == 0
    }

    /// How many control blocks may be drawn from the queue for the next batch.
    pub fn quota(&self) -> (r: usize)
        requires
            self.wf(),
        ensures
            r == self.cap() - self.pending().len(),
    {
        self.max_nbatched - self.leftover.len()
    }

    /// The next batch: the leftover, then the control blocks drawn from the
    /// queue, in order.
    pub fn take_batch(&mut self, drawn: Vec<P>) -> (batch: Vec<P>)
        requires
            old(self).wf(),
            drawn@.len() <= old(self).cap() - old(self).pending().len(),
        ensures
            batch@ == old(self).pending() + drawn@,
            batch@.len() <= old(self).cap(),
            final(self).pending() == Seq::<P>::empty(),
            final(self).cap() == old(self).cap(),
            final(self).again() == old(self).again(),
            final(self).wf(),
    {
        let mut batch = Vec::new();
        batch.append(&mut self.leftover);
        let mut drawn = drawn;
        batch.append(&mut drawn);
        batch
    }

    /// The next batch: the leftover, then as many control blocks as the
    /// batch cap leaves room for, drawn from `queue` without blocking.
    pub fn next_batch(&mut self, queue: &Receiver<P>) -> (batch: Vec<P>)
        requires
            old(self).wf(),
        ensures
            batch@.len() <= old(self).cap(),
            old(self).pending().len() <= batch@.len(),
            batch@.subrange(0, old(self).pending().len() as int) == old(self).pending(),
            final(self).pending() == Seq::<P>::empty(),
            final(self).cap() == old(self).cap(),
            final(self).again() == old(self).again(),
            final(self).wf(),
    {
        let quota = self.quota();
        let mut drawn: Vec<P> = Vec::new();
        while drawn.len() < quota
            invariant
                drawn@.len() <= quota,
            decreases quota - drawn@.len(),
        {
            match try_recv(queue) {
                Some(p) => drawn.push(p),
                None => break,
            }
        }
        let ghost before = self.pending();
        let batch = self.take_batch(drawn);
        assert(batch@.subrange(0, before.len() as int) =~= before);
        batch
    }

    /// Takes back what `io_submit` did not accept of `batch`, given its
    /// result `ret`.
    pub fn settle(&mut self, batch: Vec<P>, ret: i64) -> (r: SubmitOutcome<P>)
        requires
            old(self).pending() == Seq::<P>::empty(),
            batch@.len() <= old(self).cap(),
        ensures
            final(self).cap() == old(self).cap(),
            final(self).again() == old(self).again(),
            final(self).pending() == left_after(batch@, ret as int, old(self).again()),
            final(self).wf(),
            refuses_head(batch@.len(), ret as int, old(self).again()) ==> r == SubmitOutcome::Rejected(batch@[0], ret),
            !refuses_head(batch@.len(), ret as int, old(self).again()) ==> r == SubmitOutcome::<P>::Accepted(
                accepted_count(batch@.len(), ret as int) as usize,
            ),
    {
        let ghost b0 = batch@;
        let mut batch = batch;
        if ret < 0 && ret != -(self.eagain as i64) && batch.len() > 0 {
            let head = batch.remove(0);
            self.leftover = batch;
            proof {
                assert(self.leftover@ =~= b0.drop_first());
            }
            SubmitOutcome::Rejected(head, ret)
        } else {
            let k: usize = if ret < 0 {
                0
            } else if ret as u64 > batch.len() as u64 {
                batch.len()
            } else {
                ret as usize
            };
            let rest = batch.split_off(k);
            self.leftover = rest;
            SubmitOutcome::Accepted(k)
        }
    }
}

/// No control block is lost or repeated: what the kernel took, then the one it
/// refused if any, then what is left over, is the batch in its order.
pub proof fn lemma_batch_conserved<P>(batch: Seq<P>, ret: int, eagain: int)
    ensures
        refuses_head(batch.len(), ret, eagain) ==> seq![batch[0]] + left_after(batch, ret, eagain) == batch,
        !refuses_head(batch.len(), ret, eagain) ==> batch.subrange(
            0,
            accepted_count(batch.len(), ret) as int,
        ) + left_after(batch, ret, eagain) == batch,
        left_after(batch, ret, eagain).len() <= batch.len(),
{
    if refuses_head(batch.len(), ret, eagain) {
        assert(seq![batch[0]] + left_after(batch, ret, eagain) =~= batch);
    } else {
        assert(batch.subrange(0, accepted_count(batch.len(), ret) as int) + left_after(batch, ret, eagain)
            =~= batch);
    }
}

} // verus!
