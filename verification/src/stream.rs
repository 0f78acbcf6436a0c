//! The event-stream primitive: a message queue shared between producers and
//! one consumer loop, with an advisory emission lock, a cooperative
//! termination flag and an ordered observer list.
//!
//! Observers here are narrower than an arbitrary callback: registering an
//! observer fixes its behaviour to one thing — forward every accepted
//! message into the target stream's queue (respecting the target's own
//! lock, but without cascading to the target's observers).  A stored
//! arbitrary callback, free to re-enter any stream, is beyond what can be
//! verified; the fixed forwarding is the canonical use of the feature.

use vstd::prelude::*;

verus! {

/// Error returned by [`EventStream::get_event`] once every sender-side
/// handle is gone and the queue has been drained: no further message can
/// ever arrive.
#[derive(Clone, Copy, PartialEq, Eq, Structural, Debug)]
pub struct EndOfStream;

/// A guard witnessing that a stream has been locked.  While a stream is
/// locked, `emit` discards messages silently.  Passing the guard to
/// [`EventStream::unlock`] clears the lock unconditionally: overlapping
/// guards are not reference-counted, so releasing an inner guard also
/// unlocks the outer scope.
///
/// The guard is a pure token, not bound to the stream that issued it:
/// `unlock` accepts any guard, consistent with its unconditional,
/// uncounted effect.
#[must_use]
pub struct Lock {
    _private: (),
}

/// An entry of a stream's observer list.  The observing stream owns the
/// target stream; every message the observing stream accepts is forwarded
/// to the target's queue before it is queued locally.
struct Observer<M> {
    target: EventStream<M>,
}

/// A stream of messages used for component and inter-widget communication.
///
/// Logically: a FIFO queue of pending messages, a `locked` flag that makes
/// `emit` a silent no-op, a `terminated` flag (a cooperative hint for
/// dispatch loops), a count of live sender-side handles, and an ordered
/// list of observers notified on every accepted message.
pub struct EventStream<M> {
    pending: Vec<M>,
    locked: bool,
    terminated: bool,
    senders: usize,
    observers: Vec<Observer<M>>,
}

impl<M> EventStream<M> {
    /// The messages queued for the consumer, front first.
    pub closed spec fn queued(self) -> Seq<M> {
        self.pending@
    }

    /// Whether emission is currently suppressed.
    pub closed spec fn locked(self) -> bool {
        self.locked
    }

    /// Whether the stream has been cooperatively closed.
    pub closed spec fn terminated(self) -> bool {
        self.terminated
    }

    /// The number of live sender-side handles.
    pub closed spec fn senders(self) -> nat {
        self.senders as nat
    }

    /// The observer targets, in registration order.
    pub closed spec fn observer_targets(self) -> Seq<EventStream<M>> {
        self.observers@.map_values(|ob: Observer<M>| ob.target)
    }

    /// Create a new event stream: empty queue, unlocked, not terminated,
    /// one sender-side handle, no observers.
    pub fn new() -> (s: Self)
        ensures
            s.queued() == Seq::<M>::empty(),
            !s.locked(),
            !s.terminated(),
            s.senders() == 1,
            s.observer_targets() == Seq::<EventStream<M>>::empty(),
    {
        let s = EventStream {
            pending: Vec::new(),
            locked: false,
            terminated: false,
            senders: 1,
            observers: Vec::new(),
        };
        proof {
            assert(s.observer_targets() =~= Seq::<EventStream<M>>::empty());
        }
        s
    }

    /// Close the stream: set the cooperative termination flag.  This does
    /// not drain the queue and does not stop senders from enqueueing; it is
    /// a hint that dispatch loops check between iterations.
    pub fn close(&mut self)
        ensures
            final(self).terminated(),
            final(self).queued() == old(self).queued(),
            final(self).locked() == old(self).locked(),
            final(self).senders() == old(self).senders(),
            final(self).observer_targets() == old(self).observer_targets(),
    {
        self.terminated = true;
    }

    /// Whether the stream has been cooperatively closed with [`close`].
    ///
    /// [`close`]: EventStream::close
    pub fn is_terminated(&self) -> (r: bool)
        ensures
            r == self.terminated(),
    {
        self.terminated
    }

    /// The number of messages currently queued for the consumer.
    pub fn queue_len(&self) -> (n: usize)
        ensures
            n == self.queued().len(),
    {
        self.pending.len()
    }

    /// Whether emission is currently suppressed by a [`Lock`].
    pub fn is_locked(&self) -> (r: bool)
        ensures
            r == self.locked(),
    {
        self.locked
    }

    /// The number of live sender-side handles.
    pub fn sender_count(&self) -> (n: usize)
        ensures
            n == self.senders(),
    {
        self.senders
    }

    /// Record that one more sender-side handle exists.
    pub fn add_sender(&mut self)
        requires
            old(self).senders() < usize::MAX,
        ensures
            final(self).senders() == old(self).senders() + 1,
            final(self).queued() == old(self).queued(),
            final(self).locked() == old(self).locked(),
            final(self).terminated() == old(self).terminated(),
            final(self).observer_targets() == old(self).observer_targets(),
    {
        self.senders = self.senders + 1;
    }

    /// Record that a sender-side handle was dropped.  Once the count
    /// reaches zero and the queue is drained, `get_event` reports
    /// [`EndOfStream`].
    pub fn drop_sender(&mut self)
        requires
            old(self).senders() > 0,
        ensures
            final(self).senders() == old(self).senders() - 1,
            final(self).queued() == old(self).queued(),
            final(self).locked() == old(self).locked(),
            final(self).terminated() == old(self).terminated(),
            final(self).observer_targets() == old(self).observer_targets(),
    {
        self.senders = self.senders - 1;
    }

    /// Lock the stream: until the guard is passed to [`unlock`], `emit`
    /// discards every message silently.
    ///
    /// [`unlock`]: EventStream::unlock
    pub fn lock(&mut self) -> (guard: Lock)
        ensures
            lock_rel(*old(self), *final(self)),
    {
        self.locked = true;
        Lock { _private: () }
    }

    /// Release a lock guard.  The lock is cleared unconditionally:
    /// overlapping guards are not counted, so releasing any one of them
    /// re-enables emission for the whole stream.
    pub fn unlock(&mut self, guard: Lock)
        ensures
            unlock_rel(*old(self), *final(self)),
    {
        let Lock { _private } = guard;
        self.locked = false;
    }

    /// Receive the next message.  Returns the front of the queue, or
    /// [`EndOfStream`] when the queue is empty and no sender remains.
    ///
    /// The case "queue empty but senders remain" is excluded: there a
    /// consumer would block until a producer emits, which a sequentially
    /// owned stream cannot do.
    pub fn get_event(&mut self) -> (r: Result<M, EndOfStream>)
        requires
            old(self).queued().len() > 0 || old(self).senders() == 0,
        ensures
            get_rel(*old(self), *final(self), r),
    {
        if self.pending.len() > 0 {
            let m = self.pending.remove(0);
            Ok(m)
        } else {
            Err(EndOfStream)
        }
    }

    /// Register an observer.  Every message this stream subsequently
    /// accepts is forwarded to `target`'s queue, in registration order,
    /// before the message is queued locally.  There is no deduplication
    /// and no way to unregister.
    pub fn observe(&mut self, target: EventStream<M>)
        ensures
            final(self).observer_targets() == old(self).observer_targets().push(target),
            final(self).queued() == old(self).queued(),
            final(self).locked() == old(self).locked(),
            final(self).terminated() == old(self).terminated(),
            final(self).senders() == old(self).senders(),
    {
        let ghost pre = *self;
        self.observers.push(Observer { target });
        proof {
            assert(self.observer_targets() =~= pre.observer_targets().push(self.observers@.last().target));
        }
    }

    /// Publish a message.  If the stream is locked, the message is
    /// discarded silently and nothing at all happens.  Otherwise every
    /// observer target is notified in registration order — each unlocked
    /// target's queue receives a clone of the message, a locked target
    /// receives nothing — and only then is the message itself queued for
    /// the consumer.
    pub fn emit(&mut self, event: M) where M: Clone
        ensures
            emit_rel(*old(self), event, *final(self)),
    {
        let ghost pre = *self;
        if !self.locked {
            let n = self.observers.len();
            let mut idx: usize = 0;
            while idx < n
                invariant
                    idx <= n,
                    n == self.observers.len(),
                    n == pre.observers@.len(),
                    self.pending == pre.pending,
                    self.locked == pre.locked,
                    !pre.locked,
                    self.terminated == pre.terminated,
                    self.senders == pre.senders,
                    forall|j: int|
                        0 <= j < idx ==> delivered_rel(
                            pre.observer_targets()[j],
                            event,
                            #[trigger] self.observer_targets()[j],
                        ),
                    forall|j: int|
                        idx <= j < n ==> #[trigger] self.observers@[j] == pre.observers@[j],
                decreases n - idx,
            {
                let ghost before = *self;
                let mut ob = self.observers.remove(idx);
                let ghost target_pre = ob.target;
                if !ob.target.locked {
                    let copy = event.clone();
                    proof {
                        assert(cloned(event, copy));
                    }
                    ob.target.pending.push(copy);
                }
                proof {
                    assert(delivered_rel(target_pre, event, ob.target));
                }
                self.observers.insert(idx, ob);
                proof {
                    assert forall|j: int| 0 <= j < idx + 1 implies delivered_rel(
                        pre.observer_targets()[j],
                        event,
                        #[trigger] self.observer_targets()[j],
                    ) by {
                        assert(self.observers@[j].target == self.observer_targets()[j]);
                        if j < idx {
                            assert(self.observers@[j] == before.observers@[j]);
                            assert(before.observers@[j].target == before.observer_targets()[j]);
                        } else {
                            assert(self.observers@[j].target == ob.target);
                            assert(before.observers@[idx as int] == pre.observers@[idx as int]);
                            assert(target_pre == pre.observer_targets()[j]);
                        }
                    }
                    assert forall|j: int| idx + 1 <= j < n implies #[trigger] self.observers@[j]
                        == pre.observers@[j] by {
                        assert(self.observers@[j] == before.observers@[j]);
                    }
                }
                idx = idx + 1;
            }
            let ghost drained = *self;
            self.pending.push(event);
            proof {
                assert(self.queued() =~= pre.queued().push(event));
                assert(self.observers@ == drained.observers@);
                assert forall|i: int| 0 <= i < pre.observer_targets().len() implies delivered_rel(
                    pre.observer_targets()[i],
                    event,
                    #[trigger] self.observer_targets()[i],
                ) by {
                    assert(self.observer_targets()[i] == drained.observer_targets()[i]);
                    assert(delivered_rel(pre.observer_targets()[i], event, drained.observer_targets()[i]));
                }
            }
        }
    }

    /// Borrow the target stream of observer `i` (in registration order).
    pub fn observer_target(&self, i: usize) -> (t: &EventStream<M>)
        requires
            i < self.observer_targets().len(),
        ensures
            *t == self.observer_targets()[i as int],
    {
        &self.observers[i].target
    }

    /// Consume the front of observer `i`'s target queue: the oldest
    /// message forwarded to that observer, or `None` if it has received
    /// nothing (or has consumed everything).  Nothing else changes.
    pub fn take_observed(&mut self, i: usize) -> (r: Option<M>)
        requires
            i < old(self).observer_targets().len(),
        ensures
            final(self).queued() == old(self).queued(),
            final(self).locked() == old(self).locked(),
            final(self).terminated() == old(self).terminated(),
            final(self).senders() == old(self).senders(),
            final(self).observer_targets().len() == old(self).observer_targets().len(),
            forall|j: int|
                0 <= j < old(self).observer_targets().len() && j != i
                    ==> #[trigger] final(self).observer_targets()[j]
                    == old(self).observer_targets()[j],
            ({
                let tpre = old(self).observer_targets()[i as int];
                let tpost = final(self).observer_targets()[i as int];
                if tpre.queued().len() == 0 {
                    r is None && tpost == tpre
                } else {
                    &&& r == Some(tpre.queued()[0])
                    &&& tpost.queued() == tpre.queued().subrange(1, tpre.queued().len() as int)
                    &&& tpost.locked() == tpre.locked()
                    &&& tpost.terminated() == tpre.terminated()
                    &&& tpost.senders() == tpre.senders()
                    &&& tpost.observer_targets() == tpre.observer_targets()
                }
            }),
    {
        let ghost pre = *self;
        let mut ob = self.observers.remove(i);
        let r = if ob.target.pending.len() > 0 {
            Some(ob.target.pending.remove(0))
        } else {
            None
        };
        self.observers.insert(i, ob);
        proof {
            assert forall|j: int|
                0 <= j < pre.observer_targets().len() && j != i implies #[trigger] self
                .observer_targets()[j] == pre.observer_targets()[j] by {
                assert(self.observers@[j] == pre.observers@[j]);
            }
        }
        r
    }
}

/// One message has been appended to the stream's queue: exactly one new
/// entry, a clone of `m`, at the back.
pub open spec fn notified_once<M: Clone>(pre: EventStream<M>, m: M, post: EventStream<M>) -> bool {
    exists|c: M| cloned(m, c) && post.queued() == pre.queued().push(c)
}

/// The relation between an observer's target stream before and after one
/// message delivery: a locked target is left exactly as it was; an
/// unlocked target's queue is extended by exactly one clone of the
/// message, and nothing else about the target changes.
pub open spec fn delivered_rel<M: Clone>(
    pre: EventStream<M>,
    m: M,
    post: EventStream<M>,
) -> bool {
    if pre.locked() {
        post == pre
    } else {
        &&& notified_once(pre, m, post)
        &&& post.locked() == pre.locked()
        &&& post.terminated() == pre.terminated()
        &&& post.senders() == pre.senders()
        &&& post.observer_targets() == pre.observer_targets()
    }
}

/// The relation between a stream before and after an `emit` call.  A
/// locked stream is left exactly as it was: the message is discarded and
/// no observer hears of it.  On an unlocked stream every observer target
/// is notified exactly once, in registration order, and the message is
/// queued at the back — behind everything queued before it, so a consumer
/// sees it only after the observers already hold their copies.
pub open spec fn emit_rel<M: Clone>(pre: EventStream<M>, m: M, post: EventStream<M>) -> bool {
    if pre.locked() {
        post == pre
    } else {
        &&& post.queued() == pre.queued().push(m)
        &&& post.locked() == pre.locked()
        &&& post.terminated() == pre.terminated()
        &&& post.senders() == pre.senders()
        &&& post.observer_targets().len() == pre.observer_targets().len()
        &&& forall|i: int|
            0 <= i < pre.observer_targets().len() ==> delivered_rel(
                pre.observer_targets()[i],
                m,
                #[trigger] post.observer_targets()[i],
            )
    }
}

/// The relation between a stream before and after a `get_event` call and
/// the returned value: the front of the queue leaves first; once the queue
/// is empty, the call reports the end of the stream and changes nothing.
pub open spec fn get_rel<M>(
    pre: EventStream<M>,
    post: EventStream<M>,
    r: Result<M, EndOfStream>,
) -> bool {
    if pre.queued().len() > 0 {
        &&& r == Ok::<M, EndOfStream>(pre.queued()[0])
        &&& post.queued() == pre.queued().subrange(1, pre.queued().len() as int)
        &&& post.locked() == pre.locked()
        &&& post.terminated() == pre.terminated()
        &&& post.senders() == pre.senders()
        &&& post.observer_targets() == pre.observer_targets()
    } else {
        &&& r == Err::<M, EndOfStream>(EndOfStream)
        &&& post == pre
    }
}

/// The relation between a stream before and after a `lock` call: emission
/// becomes suppressed and nothing else changes.
pub open spec fn lock_rel<M>(pre: EventStream<M>, post: EventStream<M>) -> bool {
    &&& post.locked()
    &&& post.queued() == pre.queued()
    &&& post.terminated() == pre.terminated()
    &&& post.senders() == pre.senders()
    &&& post.observer_targets() == pre.observer_targets()
}

/// The relation between a stream before and after releasing a guard with
/// `unlock`: emission is re-enabled unconditionally — whether or not other
/// guards are still alive — and nothing else changes.
pub open spec fn unlock_rel<M>(pre: EventStream<M>, post: EventStream<M>) -> bool {
    &&& !post.locked()
    &&& post.queued() == pre.queued()
    &&& post.terminated() == pre.terminated()
    &&& post.senders() == pre.senders()
    &&& post.observer_targets() == pre.observer_targets()
}

/// Any finite sequence of `emit` calls, applied in order.
pub open spec fn emits_rel<M: Clone>(
    pre: EventStream<M>,
    ms: Seq<M>,
    post: EventStream<M>,
) -> bool
    decreases ms.len(),
{
    if ms.len() == 0 {
        post == pre
    } else {
        exists|mid: EventStream<M>|
            #[trigger] emit_rel(pre, ms[0], mid) && emits_rel(
                mid,
                ms.subrange(1, ms.len() as int),
                post,
            )
    }
}

/// A locked stream absorbs emissions without a trace: any number of
/// `emit` calls on a locked stream leaves it exactly as it was — no
/// message is queued and no observer is notified.
pub proof fn lemma_locked_stream_drops_emits<M: Clone>(
    pre: EventStream<M>,
    ms: Seq<M>,
    post: EventStream<M>,
)
    requires
        pre.locked(),
        emits_rel(pre, ms, post),
    ensures
        post == pre,
    decreases ms.len(),
{
    if ms.len() > 0 {
        let mid = choose|mid: EventStream<M>|
            #[trigger] emit_rel(pre, ms[0], mid) && emits_rel(
                mid,
                ms.subrange(1, ms.len() as int),
                post,
            );
        lemma_locked_stream_drops_emits(pre, ms.subrange(1, ms.len() as int), post);
    }
}

/// On an unlocked stream, a sequence of emissions queues exactly those
/// messages, in emission order, behind whatever was queued before — the
/// general form of per-producer FIFO: what one producer emits is consumed
/// in the order it was emitted.
pub proof fn lemma_unlocked_stream_queues_all_emits<M: Clone>(
    pre: EventStream<M>,
    ms: Seq<M>,
    post: EventStream<M>,
)
    requires
        !pre.locked(),
        emits_rel(pre, ms, post),
    ensures
        post.queued() == pre.queued() + ms,
        !post.locked(),
    decreases ms.len(),
{
    if ms.len() == 0 {
        assert(pre.queued() + ms =~= pre.queued());
    } else {
        let tail = ms.subrange(1, ms.len() as int);
        let mid = choose|mid: EventStream<M>|
            #[trigger] emit_rel(pre, ms[0], mid) && emits_rel(mid, tail, post);
        lemma_unlocked_stream_queues_all_emits(mid, tail, post);
        assert(post.queued() =~= pre.queued() + ms);
    }
}

/// Locking suppresses delivery entirely: after `lock`, any number of
/// emits results in zero messages reaching the queue, and once the guard
/// is released a subsequent emit is delivered normally again.
pub proof fn lemma_lock_suppresses_until_release<M: Clone>(
    s0: EventStream<M>,
    s1: EventStream<M>,
    ms: Seq<M>,
    s2: EventStream<M>,
    s3: EventStream<M>,
    m: M,
    s4: EventStream<M>,
)
    requires
        lock_rel(s0, s1),
        emits_rel(s1, ms, s2),
        unlock_rel(s2, s3),
        emit_rel(s3, m, s4),
    ensures
        s2.queued() == s0.queued(),
        s4.queued() == s0.queued().push(m),
{
    lemma_locked_stream_drops_emits(s1, ms, s2);
}

/// Emitting on an unlocked stream notifies every observer exactly once,
/// in registration order — observer `i`'s target receives exactly one new
/// message, a clone of `m`, at the back of its queue, unless that target
/// is itself locked — strictly before `m` becomes visible to the
/// consumer: `m` is queued behind everything queued before it, so by the
/// time `get_event` can return `m`, every observer already holds its copy.
pub proof fn lemma_emit_notifies_observers_first<M: Clone>(
    pre: EventStream<M>,
    m: M,
    post: EventStream<M>,
)
    requires
        !pre.locked(),
        emit_rel(pre, m, post),
    ensures
        post.observer_targets().len() == pre.observer_targets().len(),
        forall|i: int|
            0 <= i < pre.observer_targets().len() && !pre.observer_targets()[i].locked()
                ==> notified_once(
                pre.observer_targets()[i],
                m,
                #[trigger] post.observer_targets()[i],
            ),
        forall|i: int|
            0 <= i < pre.observer_targets().len() && pre.observer_targets()[i].locked()
                ==> #[trigger] post.observer_targets()[i] == pre.observer_targets()[i],
        post.queued() == pre.queued().push(m),
        post.queued().len() == pre.queued().len() + 1,
        forall|j: int| 0 <= j < pre.queued().len() ==> #[trigger] post.queued()[j] == pre.queued()[j],
{
    assert forall|i: int|
        0 <= i < pre.observer_targets().len() && !pre.observer_targets()[i].locked()
            implies notified_once(
        pre.observer_targets()[i],
        m,
        #[trigger] post.observer_targets()[i],
    ) by {
        assert(delivered_rel(pre.observer_targets()[i], m, post.observer_targets()[i]));
    }
    assert forall|i: int|
        0 <= i < pre.observer_targets().len() && pre.observer_targets()[i].locked()
            implies #[trigger] post.observer_targets()[i] == pre.observer_targets()[i] by {
        assert(delivered_rel(pre.observer_targets()[i], m, post.observer_targets()[i]));
    }
}

/// Per-producer FIFO: emitting `m1` and then `m2` on an unlocked stream
/// whose queue starts empty makes `get_event` return `m1` first and `m2`
/// second, never the other order.
pub proof fn lemma_fifo_two_emits<M: Clone>(
    s0: EventStream<M>,
    m1: M,
    m2: M,
    s1: EventStream<M>,
    s2: EventStream<M>,
    s3: EventStream<M>,
    s4: EventStream<M>,
    r1: Result<M, EndOfStream>,
    r2: Result<M, EndOfStream>,
)
    requires
        !s0.locked(),
        s0.queued().len() == 0,
        emit_rel(s0, m1, s1),
        emit_rel(s1, m2, s2),
        get_rel(s2, s3, r1),
        get_rel(s3, s4, r2),
    ensures
        r1 == Ok::<M, EndOfStream>(m1),
        r2 == Ok::<M, EndOfStream>(m2),
        s4.queued().len() == 0,
{
    assert(s2.queued()[0] == m1);
    assert(s3.queued() =~= seq![m2]);
    assert(s4.queued() =~= Seq::<M>::empty());
}

/// Once every sender-side handle has been dropped and the queue is
/// drained, `get_event` reports `EndOfStream` — by `get_event`'s
/// precondition such a call is legal, so the consumer is never left
/// blocking forever — and the stream is unchanged.
pub proof fn lemma_end_of_stream<M>(
    pre: EventStream<M>,
    post: EventStream<M>,
    r: Result<M, EndOfStream>,
)
    requires
        pre.senders() == 0,
        pre.queued().len() == 0,
        get_rel(pre, post, r),
    ensures
        r == Err::<M, EndOfStream>(EndOfStream),
        post == pre,
{
}

} // verus!
