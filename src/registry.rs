use vstd::prelude::*;
use std::collections::HashMap;
use vstd::std_specs::iter::IteratorSpec;
use crate::record::AIO;

verus! {

broadcast use vstd::std_specs::hash::group_hash_axioms;

/// The outcome of one operation: the byte count and the operation's own
/// buffer, or a positive errno.
pub type AIOResult<B> = Result<(usize, B), i32>;

/// The state of one registered operation.
pub enum AIOState<W, B, C> {
    /// Registered; the awaiter has not polled yet. The flag says that the
    /// awaiter has gone away.
    FutureInit(AIO<B, C>, bool),
    /// The awaiter has polled and left the waker `W` to be woken.
    FuturePending(AIO<B, C>, W, bool),
    /// The kernel has completed the operation.
    FutureDone(AIOResult<B>),
}

/// True of a state that still waits for the kernel.
pub open spec fn is_live<W, B, C>(s: AIOState<W, B, C>) -> bool {
    !(s is FutureDone)
}

/// The result of a completion with kernel result `res` for record `aio`.
pub open spec fn completed<B, C>(aio: AIO<B, C>, res: i64) -> AIOResult<B> {
    if res >= 0 {
        Ok((res as usize, aio.data))
    } else {
        Err((-res) as i32)
    }
}

/// The registry after the awaiter of `id` polls with waker `w`.
pub open spec fn polled<W, B, C>(m: Map<u64, AIOState<W, B, C>>, id: u64, w: W) -> Map<
    u64,
    AIOState<W, B, C>,
> {
    match m[id] {
        AIOState::FutureInit(a, _) => m.insert(id, AIOState::FuturePending(a, w, false)),
        AIOState::FuturePending(a, _, d) => m.insert(id, AIOState::FuturePending(a, w, d)),
        AIOState::FutureDone(_) => m.remove(id),
    }
}

/// What a poll of `id` returns.
pub open spec fn poll_result<W, B, C>(m: Map<u64, AIOState<W, B, C>>, id: u64) -> Option<AIOResult<B>> {
    match m[id] {
        AIOState::FutureDone(r) => Some(r),
        _ => None,
    }
}

/// The registry after the awaiter of `id` goes away.
pub open spec fn after_drop<W, B, C>(m: Map<u64, AIOState<W, B, C>>, id: u64) -> Map<
    u64,
    AIOState<W, B, C>,
> {
    if !m.contains_key(id) {
        m
    } else {
        match m[id] {
            AIOState::FutureInit(a, _) => m.insert(id, AIOState::FutureInit(a, true)),
            AIOState::FuturePending(a, w, _) => m.insert(id, AIOState::FuturePending(a, w, true)),
            AIOState::FutureDone(_) => m.remove(id),
        }
    }
}

/// The registry after the kernel completes `id` with result `res`.
pub open spec fn finished<W, B, C>(m: Map<u64, AIOState<W, B, C>>, id: u64, res: i64) -> Map<
    u64,
    AIOState<W, B, C>,
> {
    match m[id] {
        AIOState::FutureInit(a, d) => if d {
            m.remove(id)
        } else {
            m.insert(id, AIOState::FutureDone(completed(a, res)))
        },
        AIOState::FuturePending(a, _, d) => if d {
            m.remove(id)
        } else {
            m.insert(id, AIOState::FutureDone(completed(a, res)))
        },
        AIOState::FutureDone(_) => m,
    }
}

/// The waker that a completion of `id` must wake.
pub open spec fn to_wake<W, B, C>(m: Map<u64, AIOState<W, B, C>>, id: u64) -> Option<W> {
    match m[id] {
        AIOState::FuturePending(_, w, d) => if d {
            None
        } else {
            Some(w)
        },
        _ => None,
    }
}

/// A kernel result that fits the errno type when negated.
pub open spec fn res_in_range(res: i64) -> bool {
    res >= -(i32::MAX as int)
}

/// The registry after the kernel context failed with errno `e`: every
/// operation still waiting holds that error, the orphans are gone, and the
/// stored results stay.
pub open spec fn failed<W, B, C>(m: Map<u64, AIOState<W, B, C>>, e: i32) -> Map<
    u64,
    AIOState<W, B, C>,
> {
    Map::new(
        |k: u64| m.contains_key(k) && !is_orphan(m[k]),
        |k: u64|
            if is_live(m[k]) {
                AIOState::FutureDone(Err(e))
            } else {
                m[k]
            },
    )
}

/// The completion registry: each registered identifier's state, and the
/// errno of a failure of the kernel context once there is one.
pub struct AIONotifier<W, B, C> {
    waiting: HashMap<u64, AIOState<W, B, C>>,
    failure: Option<i32>,
}

impl<W, B, C> View for AIONotifier<W, B, C> {
    type V = Map<u64, AIOState<W, B, C>>;

    closed spec fn view(&self) -> Self::V {
        self.waiting@
    }
}

fn keys_of<V>(m: &HashMap<u64, V>) -> (ids: Vec<u64>)
    ensures
        ids@.to_set() == m@.dom(),
        ids@.no_duplicates(),
{
    let mut ids: Vec<u64> = Vec::new();
    for k in it: m.keys()
        invariant
            ids@ == it.history().map_values(|r: &u64| *r),
    {
        ids.push(*k);
    }
    proof {
        let ks = m.keys().remaining();
        assert(ids@ =~= ks.map_values(|r: &u64| *r));
        assert(ks.map_values(|r: &u64| *r) =~= ks.unref());
    }
    ids
}

/// The registry part way through a failure with errno `e`, once the
/// identifiers in `done` are handled.
pub open spec fn failing<W, B, C>(m: Map<u64, AIOState<W, B, C>>, e: i32, done: Set<u64>) -> Map<
    u64,
    AIOState<W, B, C>,
> {
    Map::new(
        |k: u64| m.contains_key(k) && !(done.contains(k) && is_orphan(m[k])),
        |k: u64|
            if done.contains(k) && is_live(m[k]) {
                AIOState::FutureDone(Err(e))
            } else {
                m[k]
            },
    )
}

fn complete<B, C>(aio: AIO<B, C>, res: i64) -> (r: AIOResult<B>)
    requires
        res_in_range(res),
    ensures
        r == completed(aio, res),
{
    if res >= 0 {
        Ok((res as usize, aio.data))
    } else {
        Err((-res) as i32)
    }
}

impl<W, B, C> AIONotifier<W, B, C> {
    /// The errno of the kernel context's failure, once it failed.
    pub closed spec fn failure(&self) -> Option<i32> {
        self.failure
    }

    pub fn new() -> (r: Self)
        ensures
            r@ == Map::<u64, AIOState<W, B, C>>::empty(),
            r.failure() is None,
    {
        AIONotifier { waiting: HashMap::new(), failure: None }
    }

    /// The errno of the kernel context's failure, once it failed.
    pub fn failed_with(&self) -> (r: Option<i32>)
        ensures
            r == self.failure(),
    {
        self.failure
    }

    /// The kernel context has failed with errno `e`. Every operation still
    /// waiting now holds that error, orphans leave, and later registrations
    /// hold it at once. Hands back each operation that was waiting, once: its
    /// identifier, the waker to wake, and its record, which the kernel may
    /// still be using.
    pub fn fail_all(&mut self, e: i32) -> (out: Vec<(u64, Option<W>, AIO<B, C>)>)
        ensures
            final(self)@ == failed(old(self)@, e),
            final(self).failure() == Some(e),
            forall|i: int|
                0 <= i < out@.len() ==> {
                    let k = #[trigger] out@[i].0;
                    &&& old(self)@.contains_key(k)
                    &&& is_live(old(self)@[k])
                    &&& out@[i].1 == to_wake(old(self)@, k)
                    &&& out@[i].2 == record_of(old(self)@[k])
                },
            forall|k: u64|
                #![trigger old(self)@[k]]
                old(self)@.contains_key(k) && is_live(old(self)@[k]) ==> exists|i: int|
                    0 <= i < out@.len() && #[trigger] out@[i].0 == k,
            forall|i: int, j: int| 0 <= i < j < out@.len() ==> out@[i].0 != out@[j].0,
    {
        let ids = keys_of(&self.waiting);
        let ghost m0 = self.waiting@;
        let ghost mut done: Set<u64> = Set::empty();
        let mut out: Vec<(u64, Option<W>, AIO<B, C>)> = Vec::new();
        let mut i: usize = 0;
        proof {
            assert(self.waiting@ =~= failing(m0, e, done));
        }
        while i < ids.len()
            invariant
                ids@.to_set() == m0.dom(),
                ids@.no_duplicates(),
                i <= ids@.len(),
                done == ids@.subrange(0, i as int).to_set(),
                self.waiting@ == failing(m0, e, done),
                forall|j: int|
                    0 <= j < out@.len() ==> {
                        let k = #[trigger] out@[j].0;
                        &&& done.contains(k)
                        &&& m0.contains_key(k)
                        &&& is_live(m0[k])
                        &&& out@[j].1 == to_wake(m0, k)
                        &&& out@[j].2 == record_of(m0[k])
                    },
                forall|k: u64|
                    #![trigger m0[k]]
                    done.contains(k) && m0.contains_key(k) && is_live(m0[k]) ==> exists|j: int|
                        0 <= j < out@.len() && #[trigger] out@[j].0 == k,
                forall|a: int, b: int| 0 <= a < b < out@.len() ==> out@[a].0 != out@[b].0,
            decreases ids@.len() - i,
        {
            let k = ids[i];
            proof {
                assert(ids@.contains(k));
                assert(ids@.to_set().contains(k));
                if done.contains(k) {
                    let j = choose|j: int| 0 <= j < i && ids@.subrange(0, i as int)[j] == k;
                    assert(ids@[j] == ids@[i as int]);
                }
                assert(!done.contains(k));
            }
            let ghost old_out = out@;
            match self.waiting.remove(&k) {
                Some(AIOState::FutureInit(aio, d)) => {
                    if !d {
                        self.waiting.insert(k, AIOState::FutureDone(Err(e)));
                    }
                    out.push((k, None, aio));
                },
                Some(AIOState::FuturePending(aio, w, d)) => {
                    if !d {
                        self.waiting.insert(k, AIOState::FutureDone(Err(e)));
                        out.push((k, Some(w), aio));
                    } else {
                        out.push((k, None, aio));
                    }
                },
                Some(AIOState::FutureDone(r)) => {
                    self.waiting.insert(k, AIOState::FutureDone(r));
                },
                None => {},
            }
            proof {
                let nd = done.insert(k);
                assert(ids@.subrange(0, i + 1) =~= ids@.subrange(0, i as int).push(k));
                ids@.subrange(0, i as int).lemma_push_to_set_commute(k);
                assert(ids@.subrange(0, i + 1).to_set() =~= nd);
                assert(self.waiting@ =~= failing(m0, e, nd));
                assert forall|kk: u64|
                    #![trigger m0[kk]]
                    nd.contains(kk) && m0.contains_key(kk) && is_live(m0[kk]) implies exists|j: int|
                        0 <= j < out@.len() && #[trigger] out@[j].0 == kk by {
                    if kk == k {
                        assert(out@[out@.len() - 1].0 == k);
                    } else {
                        let j = choose|j: int| 0 <= j < old_out.len() && #[trigger] old_out[j].0 == kk;
                        assert(out@[j].0 == kk);
                    }
                }
                done = nd;
            }
            i = i + 1;
        }
        proof {
            assert(ids@.subrange(0, ids@.len() as int) =~= ids@);
            assert(self.waiting@ =~= failed(m0, e));
        }
        self.failure = Some(e);
        out
    }

    /// Whether `id` is registered.
    pub fn contains(&self, id: u64) -> (r: bool)
        ensures
            r == self@.contains_key(id),
    {
        self.waiting.contains_key(&id)
    }

    /// Whether a completion of `id` with `res` is expected: `id` waits for
    /// the kernel, and `res` is a byte count or a negated errno.
    pub fn can_finish(&self, id: u64, res: i64) -> (r: bool)
        ensures
            r == (self@.contains_key(id) && is_live(self@[id]) && res_in_range(res)),
    {
        match self.waiting.get(&id) {
            Some(AIOState::FutureDone(_)) => false,
            Some(_) => res >= -(i32::MAX as i64),
            None => false,
        }
    }

    /// The number of registered identifiers.
    pub fn len(&self) -> (r: usize)
        ensures
            r == self@.len(),
    {
        self.waiting.len()
    }

    /// Registers a new operation, not yet polled. Once the kernel context
    /// has failed, the operation holds that failure's errno at once, and its
    /// record, which the kernel never sees, is released.
    pub fn register_notify(&mut self, aio: AIO<B, C>)
        requires
            !old(self)@.contains_key(aio.id),
        ensures
            old(self).failure() is None ==> final(self)@ == old(self)@.insert(
                aio.id,
                AIOState::FutureInit(aio, false),
            ),
            old(self).failure() matches Some(e) ==> final(self)@ == old(self)@.insert(
                aio.id,
                AIOState::FutureDone(Err(e)),
            ),
            final(self).failure() == old(self).failure(),
    {
        let id = aio.id;
        match self.failure {
            None => {
                self.waiting.insert(id, AIOState::FutureInit(aio, false));
            },
            Some(e) => {
                self.waiting.insert(id, AIOState::FutureDone(Err(e)));
            },
        }
    }

    /// The awaiter of `id` has gone away. The record stays until the kernel
    /// completes; a stored result is discarded.
    pub fn dropped(&mut self, id: u64)
        ensures
            final(self)@ == after_drop(old(self)@, id),
            final(self).failure() == old(self).failure(),
    {
        match self.waiting.remove(&id) {
            Some(AIOState::FutureInit(aio, _)) => {
                self.waiting.insert(id, AIOState::FutureInit(aio, true));
            },
            Some(AIOState::FuturePending(aio, w, _)) => {
                self.waiting.insert(id, AIOState::FuturePending(aio, w, true));
            },
            Some(AIOState::FutureDone(_)) => {},
            None => {},
        }
    }

    /// The awaiter of `id` polls with `waker`: the result if it is there
    /// (which leaves the registry), else the waker is stored.
    pub fn poll(&mut self, id: u64, waker: W) -> (r: Option<AIOResult<B>>)
        requires
            old(self)@.contains_key(id),
        ensures
            final(self)@ == polled(old(self)@, id, waker),
            final(self).failure() == old(self).failure(),
            r == poll_result(old(self)@, id),
    {
        match self.waiting.remove(&id) {
            Some(AIOState::FutureInit(aio, _)) => {
                self.waiting.insert(id, AIOState::FuturePending(aio, waker, false));
                None
            },
            Some(AIOState::FuturePending(aio, _, dropped)) => {
                self.waiting.insert(id, AIOState::FuturePending(aio, waker, dropped));
                None
            },
            Some(AIOState::FutureDone(res)) => Some(res),
            None => None,
        }
    }

    /// The kernel has completed `id` with `res`. The result is stored for the
    /// awaiter, or the entry leaves if the awaiter has gone. Returns the
    /// waker to wake, once the result is stored.
    pub fn finish(&mut self, id: u64, res: i64) -> (woken: Option<W>)
        requires
            old(self)@.contains_key(id),
            is_live(old(self)@[id]),
            res_in_range(res),
        ensures
            final(self)@ == finished(old(self)@, id, res),
            final(self).failure() == old(self).failure(),
            woken == to_wake(old(self)@, id),
    {
        match self.waiting.remove(&id) {
            Some(AIOState::FutureInit(aio, dropped)) => {
                if !dropped {
                    let r = complete(aio, res);
                    self.waiting.insert(id, AIOState::FutureDone(r));
                }
                None
            },
            Some(AIOState::FuturePending(aio, waker, dropped)) => {
                if !dropped {
                    let r = complete(aio, res);
                    self.waiting.insert(id, AIOState::FutureDone(r));
                    Some(waker)
                } else {
                    None
                }
            },
            Some(AIOState::FutureDone(_)) => None,
            None => None,
        }
    }
}

/// The record held by a state that waits for the kernel.
pub open spec fn record_of<W, B, C>(s: AIOState<W, B, C>) -> AIO<B, C>
    recommends
        is_live(s),
{
    match s {
        AIOState::FutureInit(a, _) => a,
        AIOState::FuturePending(a, _, _) => a,
        AIOState::FutureDone(_) => arbitrary(),
    }
}

/// Whether the awaiter of a live state has gone away.
pub open spec fn is_orphan<W, B, C>(s: AIOState<W, B, C>) -> bool {
    match s {
        AIOState::FutureInit(_, d) => d,
        AIOState::FuturePending(_, _, d) => d,
        AIOState::FutureDone(_) => false,
    }
}

/// Every registered operation settles once: whichever of the completion and
/// the awaiter's departure comes second removes the entry, as does the
/// awaiter's poll of a stored result; no other identifier is touched.
pub proof fn lemma_settles_once<W, B, C>(m: Map<u64, AIOState<W, B, C>>, id: u64, res: i64, w: W)
    requires
        m.contains_key(id),
        is_live(m[id]),
    ensures
        !after_drop(finished(m, id, res), id).contains_key(id),
        !finished(after_drop(m, id), id, res).contains_key(id),
        !is_orphan(m[id]) ==> !polled(finished(m, id, res), id, w).contains_key(id),
        is_orphan(m[id]) ==> !finished(m, id, res).contains_key(id),
        forall|k: u64|
            k != id ==> (#[trigger] finished(m, id, res).contains_key(k) == m.contains_key(k))
                && after_drop(m, id).contains_key(k) == m.contains_key(k) && (m.contains_key(k)
                ==> finished(m, id, res)[k] == m[k] && after_drop(m, id)[k] == m[k]),
{
}

/// A completion with a byte count hands the awaiter that count and the very
/// buffer of the record.
pub proof fn lemma_result_delivered<W, B, C>(m: Map<u64, AIOState<W, B, C>>, id: u64, res: i64, w: W)
    requires
        m.contains_key(id),
        is_live(m[id]),
        !is_orphan(m[id]),
        res >= 0,
    ensures
        finished(m, id, res).contains_key(id),
        poll_result(finished(m, id, res), id) == Some(
            Ok::<(usize, B), i32>((res as usize, record_of(m[id]).data)),
        ),
        !polled(finished(m, id, res), id, w).contains_key(id),
{
}

/// A completion with a negated errno hands the awaiter the positive errno.
pub proof fn lemma_error_delivered<W, B, C>(m: Map<u64, AIOState<W, B, C>>, id: u64, res: i64)
    requires
        m.contains_key(id),
        is_live(m[id]),
        !is_orphan(m[id]),
        res < 0,
        res_in_range(res),
    ensures
        poll_result(finished(m, id, res), id) == Some(Err::<(usize, B), i32>((-res) as i32)),
        (-res) as i32 > 0,
{
}

/// No wakeup is lost: a completion of a polled operation whose awaiter is
/// still there hands back the stored waker, and the result it stores is what
/// the next poll returns.
pub proof fn lemma_no_lost_wakeup<W, B, C>(m: Map<u64, AIOState<W, B, C>>, id: u64, res: i64)
    requires
        m.contains_key(id),
        m[id] is FuturePending,
        !is_orphan(m[id]),
    ensures
        to_wake(m, id) == Some(m[id]->FuturePending_1),
        poll_result(finished(m, id, res), id) == Some(completed(record_of(m[id]), res)),
{
}

/// The awaiter's departure before completion keeps the record, buffer and
/// control block, in the registry until the kernel is done with it.
pub proof fn lemma_drop_keeps_record<W, B, C>(m: Map<u64, AIOState<W, B, C>>, id: u64)
    requires
        m.contains_key(id),
        is_live(m[id]),
    ensures
        after_drop(m, id).contains_key(id),
        is_live(after_drop(m, id)[id]),
        is_orphan(after_drop(m, id)[id]),
        record_of(after_drop(m, id)[id]) == record_of(m[id]),
{
}

/// Every entry that waits for the kernel is filed under its own record's
/// identifier, the one that the kernel echoes back.
pub open spec fn keyed_by_id<W, B, C>(m: Map<u64, AIOState<W, B, C>>) -> bool {
    forall|k: u64| #[trigger]
        m.contains_key(k) && is_live(m[k]) ==> record_of(m[k]).id == k
}

/// Registration, polling, departure and completion all keep each waiting
/// entry under its record's identifier.
pub proof fn lemma_keyed_by_id_kept<W, B, C>(
    m: Map<u64, AIOState<W, B, C>>,
    aio: AIO<B, C>,
    id: u64,
    res: i64,
    w: W,
)
    requires
        keyed_by_id(m),
    ensures
        keyed_by_id(m.insert(aio.id, AIOState::FutureInit(aio, false))),
        keyed_by_id(after_drop(m, id)),
        m.contains_key(id) ==> keyed_by_id(polled(m, id, w)),
        m.contains_key(id) ==> keyed_by_id(finished(m, id, res)),
{
    assert forall|k: u64| #[trigger]
        after_drop(m, id).contains_key(k) && is_live(after_drop(m, id)[k]) implies record_of(
        after_drop(m, id)[k],
    ).id == k by {
        if k != id {
            assert(m.contains_key(k));
        }
    }
    if m.contains_key(id) {
        assert forall|k: u64| #[trigger]
            polled(m, id, w).contains_key(k) && is_live(polled(m, id, w)[k]) implies record_of(
            polled(m, id, w)[k],
        ).id == k by {
            if k != id {
                assert(m.contains_key(k));
            }
        }
        assert forall|k: u64| #[trigger]
            finished(m, id, res).contains_key(k) && is_live(finished(m, id, res)[k]) implies record_of(
            finished(m, id, res)[k],
        ).id == k by {
            if k != id {
                assert(m.contains_key(k));
            }
        }
    }
}

/// After a failure of the kernel context nothing waits any more: each entry
/// left holds a result, so every handle resolves at its next poll.
pub proof fn lemma_failure_settles_all<W, B, C>(m: Map<u64, AIOState<W, B, C>>, e: i32)
    ensures
        forall|k: u64| #[trigger]
            failed(m, e).contains_key(k) ==> !is_live(failed(m, e)[k]),
        forall|k: u64| #[trigger]
            m.contains_key(k) && is_live(m[k]) && !is_orphan(m[k]) ==> poll_result(failed(m, e), k)
                == Some(Err::<(usize, B), i32>(e)),
{
}

} // verus!
