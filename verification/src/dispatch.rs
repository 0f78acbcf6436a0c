//! The component model and its dispatch loop: a component owns a model
//! that is mutated exclusively by messages received from its event
//! stream.  The dispatch functions drain the stream serially, apply the
//! component's update function to each message, and report updates that
//! ran for too long to a warning sink, with the message's display tag
//! truncated for the report.

use vstd::prelude::*;

use crate::stream::EventStream;

verus! {

/// Character limit for a message tag in a slow-update warning: longer
/// tags are cut at this many characters and marked as truncated.
pub const TAG_LIMIT: usize = 100;

/// Threshold, in milliseconds, above which an update is reported as slow.
pub const SLOW_UPDATE_MS: u64 = 200;

/// A short human-readable label for a message's variant, used only for
/// diagnostics.  Similar to `Debug`, but meant to name the variant alone,
/// without its payload.
pub trait DisplayVariant {
    /// The label, as specification-level text.
    spec fn variant_tag(&self) -> Seq<char>;

    /// Produce the label of the current variant.
    fn display_variant(&self) -> (r: &'static str)
        ensures
            r@ == self.variant_tag(),
    ;
}

impl DisplayVariant for () {
    open spec fn variant_tag(&self) -> Seq<char> {
        ""@
    }

    fn display_variant(&self) -> (r: &'static str) {
        ""
    }
}

/// A basic (non-widget) component: a model mutated by messages received
/// through the dispatch loop.  `next` is the specification of the update
/// function; implementors prove that `update` follows it.
pub trait Update where Self: Sized, Self::Msg: DisplayVariant {
    /// The type of the model.
    type Model;

    /// The type of the parameter used to initialize the model.
    type ModelParam;

    /// The type of the messages dispatched to `update`.
    type Msg;

    /// What one message does to the component.
    spec fn next(pre: Self, event: Self::Msg) -> Self;

    /// The initial model, as a function of the model parameter.
    spec fn initial_model(param: Self::ModelParam) -> Self::Model;

    /// What wiring the subscriptions leaves in the component.
    spec fn after_subscriptions(pre: Self) -> Self;

    /// Create the initial model.
    fn model(relm: &Relm<Self>, param: Self::ModelParam) -> (m: Self::Model)
        ensures
            m == Self::initial_model(param),
    ;

    /// Wire the subscriptions: event sources connected when the
    /// component is created, before the first message is dispatched.
    /// For most components this is a no-op, with `after_subscriptions`
    /// the identity.
    fn subscriptions(&mut self, relm: &Relm<Self>)
        ensures
            *final(self) == Self::after_subscriptions(*old(self)),
    ;

    /// Apply one message to the component.
    fn update(&mut self, event: Self::Msg)
        ensures
            *final(self) == Self::next(*old(self), event),
    ;
}

/// An [`Update`] component that can be created directly from its model,
/// without a widget tree.
pub trait UpdateNew: Update {
    /// The component built from a model.
    spec fn created(model: Self::Model) -> Self;

    /// Create the component.
    fn new(relm: &Relm<Self>, model: Self::Model) -> (c: Self)
        ensures
            c == Self::created(model),
    ;
}

/// Handle owning a component's event stream; user code reaches the
/// stream through it to emit messages or to wire message sources.
pub struct Relm<C: Update> {
    /// The component's event stream.
    pub stream: EventStream<C::Msg>,
}

impl<C: Update> Relm<C> {
    /// Create a new handle around a stream.
    pub fn new(stream: EventStream<C::Msg>) -> (r: Self)
        ensures
            r.stream == stream,
    {
        Relm { stream }
    }

    /// Borrow the event stream of this handle.
    pub fn stream(&self) -> (s: &EventStream<C::Msg>)
        ensures
            *s == self.stream,
    {
        &self.stream
    }
}

/// A warning produced when a component's update function ran for at
/// least [`SLOW_UPDATE_MS`] milliseconds.
pub struct SlowWarning {
    /// The display tag of the offending message, truncated to
    /// [`TAG_LIMIT`] characters.
    pub tag: String,
    /// How long the update ran, in milliseconds.
    pub elapsed_ms: u64,
}

/// A leveled logging sink for slow-update warnings.  The dispatch loop
/// hands every warning to the sink; what the sink does with it is the
/// caller's business.
pub trait WarningSink {
    /// Record one warning.
    fn warn(&mut self, warning: &SlowWarning);
}

/// A tag cut down for logging: unchanged if at most [`TAG_LIMIT`]
/// characters, else its first [`TAG_LIMIT`] characters followed by a
/// single ellipsis marker.
pub open spec fn truncated_tag(tag: Seq<char>) -> Seq<char> {
    if tag.len() <= TAG_LIMIT {
        tag
    } else {
        tag.subrange(0, TAG_LIMIT as int).push('…')
    }
}

/// Cut a message tag down for logging, per [`truncated_tag`].
pub fn truncate_tag(tag: &str) -> (r: String)
    ensures
        r@ == truncated_tag(tag@),
{
    let n = tag.unicode_len();
    if n <= TAG_LIMIT {
        String::from_str(tag)
    } else {
        let head = tag.substring_char(0, TAG_LIMIT);
        let mut r = String::from_str(head);
        r.append("…");
        proof {
            reveal_strlit("…");
            assert(r@ =~= tag@.subrange(0, TAG_LIMIT as int).push('…'));
        }
        r
    }
}

#[verifier::external_type_specification]
#[verifier::external_body]
pub struct ExInstant(std::time::Instant);

/// Relies on std::time::Instant::now: a reading of the monotonic clock.
/// Nothing can be promised of a clock reading.
pub assume_specification[ std::time::Instant::now ]() -> std::time::Instant;

/// Relies on std::time::Instant::elapsed: the time since the instant was
/// taken.  Nothing can be promised of a clock reading.
pub assume_specification[ std::time::Instant::elapsed ](i: &std::time::Instant) -> std::time::Duration;

/// Relies on std::time::Duration::as_millis: the duration in whole
/// milliseconds.  The value depends on the clock readings alone, of which
/// nothing is promised.
pub assume_specification[ std::time::Duration::as_millis ](d: &std::time::Duration) -> u128;

/// Milliseconds since `start`, saturated to the `u64` range.
fn elapsed_millis(start: &std::time::Instant) -> u64 {
    let d = start.elapsed();
    let big = d.as_millis();
    if big > u64::MAX as u128 {
        u64::MAX
    } else {
        big as u64
    }
}

/// What an instrumented dispatch reports for a given tag and measured
/// time: a warning carrying exactly that tag and that time if the update
/// ran for at least [`SLOW_UPDATE_MS`] milliseconds, and nothing
/// otherwise.
pub open spec fn warning_decision(tag: Seq<char>, elapsed_ms: u64, w: Option<SlowWarning>) -> bool {
    if elapsed_ms >= SLOW_UPDATE_MS {
        w matches Some(sw) && sw.tag@ == tag && sw.elapsed_ms == elapsed_ms
    } else {
        w is None
    }
}

/// Decide whether an update was slow: a warning is produced if and only
/// if the measured time reaches [`SLOW_UPDATE_MS`], and it carries the
/// tag and the time unchanged.  The measurement itself comes from the
/// clock; this function fixes what is reported for every value it can
/// have measured.
pub fn slow_warning(tag: String, elapsed_ms: u64) -> (w: Option<SlowWarning>)
    ensures
        warning_decision(tag@, elapsed_ms, w),
        w is Some <==> elapsed_ms >= SLOW_UPDATE_MS,
{
    if elapsed_ms >= SLOW_UPDATE_MS {
        Some(SlowWarning { tag, elapsed_ms })
    } else {
        None
    }
}

/// Dispatch one message to a component.  The model transition is exactly
/// the component's `next` specification.  When `instrumented` is set, the
/// update is timed and the result is [`slow_warning`]'s decision for the
/// measured time: a warning, carrying that time and the message's display
/// tag truncated per [`truncated_tag`], if and only if the update ran for
/// at least [`SLOW_UPDATE_MS`] milliseconds.  Which time is measured is
/// the clock's business, so the contract fixes the result only relative
/// to it.  Without instrumentation no timing happens and no warning is
/// produced.
pub fn update_component<C: Update>(component: &mut C, event: C::Msg, instrumented: bool) -> (w:
    Option<SlowWarning>)
    ensures
        *final(component) == C::next(*old(component), event),
        instrumented ==> exists|ms: u64|
            warning_decision(truncated_tag(event.variant_tag()), ms, w),
        match w {
            Some(sw) => instrumented && sw.elapsed_ms >= SLOW_UPDATE_MS && sw.tag@
                == truncated_tag(event.variant_tag()),
            None => true,
        },
        !instrumented ==> w is None,
{
    if instrumented {
        let start = std::time::Instant::now();
        let tag = truncate_tag(event.display_variant());
        component.update(event);
        let elapsed = elapsed_millis(&start);
        let w = slow_warning(tag, elapsed);
        proof {
            assert(warning_decision(truncated_tag(event.variant_tag()), elapsed, w));
        }
        w
    } else {
        component.update(event);
        None
    }
}

/// A sequence of messages folded over a component, oldest first: the
/// state after the dispatch loop has applied each message in order.
pub open spec fn fold_updates<C: Update>(c: C, ms: Seq<C::Msg>) -> C
    decreases ms.len(),
{
    if ms.len() == 0 {
        c
    } else {
        fold_updates(C::next(c, ms[0]), ms.subrange(1, ms.len() as int))
    }
}

/// Folding one more message equals applying `next` to the fold so far.
pub proof fn lemma_fold_updates_take_step<C: Update>(c: C, ms: Seq<C::Msg>, i: int)
    requires
        0 <= i < ms.len(),
    ensures
        fold_updates(c, ms.take(i + 1)) == C::next(fold_updates(c, ms.take(i)), ms[i]),
    decreases i,
{
    if i == 0 {
        assert(ms.take(1) =~= seq![ms[0]]);
        assert(ms.take(1).subrange(1, 1) =~= Seq::<C::Msg>::empty());
        assert(ms.take(0) =~= Seq::<C::Msg>::empty());
        assert(fold_updates(c, ms.take(0)) == c);
        assert(ms.take(1).len() == 1);
        assert(ms.take(1)[0] == ms[0]);
        assert(fold_updates(c, ms.take(1)) == fold_updates(
            C::next(c, ms[0]),
            ms.take(1).subrange(1, 1),
        ));
        assert(fold_updates(c, ms.take(1)) == C::next(c, ms[0]));
    } else {
        let c1 = C::next(c, ms[0]);
        let tail = ms.subrange(1, ms.len() as int);
        lemma_fold_updates_take_step::<C>(c1, tail, i - 1);
        assert(ms.take(i + 1).subrange(1, i + 1) =~= tail.take(i));
        assert(ms.take(i).subrange(1, i) =~= tail.take(i - 1));
        assert(ms.take(i + 1)[0] == ms[0]);
        assert(ms.take(i)[0] == ms[0]);
        assert(fold_updates(c, ms.take(i + 1)) == fold_updates(c1, tail.take(i)));
        assert(fold_updates(c, ms.take(i)) == fold_updates(c1, tail.take(i - 1)));
        assert(tail[i - 1] == ms[i]);
    }
}

/// Drain every queued message of a stream into a component, in FIFO
/// order, handing each slow-update warning to the sink.  The component
/// ends in exactly the state given by folding the queued messages over
/// its update specification; the queue ends empty; nothing else about
/// the stream changes.
///
/// The stream must be terminated or without senders: this is the
/// situation in which the dispatch loop of a sequentially owned stream
/// can finish rather than wait for further messages.
pub fn dispatch_pending<C: Update, S: WarningSink>(
    stream: &mut EventStream<C::Msg>,
    component: &mut C,
    instrumented: bool,
    sink: &mut S,
)
    requires
        old(stream).senders() == 0 || old(stream).terminated(),
    ensures
        *final(component) == fold_updates(*old(component), old(stream).queued()),
        final(stream).queued().len() == 0,
        final(stream).locked() == old(stream).locked(),
        final(stream).terminated() == old(stream).terminated(),
        final(stream).senders() == old(stream).senders(),
        final(stream).observer_targets() == old(stream).observer_targets(),
{
    let ghost q = stream.queued();
    let ghost c0 = *component;
    let ghost s0 = *stream;
    let ghost mut i: int = 0;
    while stream.queue_len() > 0
        invariant
            0 <= i <= q.len(),
            stream.queued() == q.subrange(i, q.len() as int),
            *component == fold_updates(c0, q.take(i)),
            stream.locked() == s0.locked(),
            stream.terminated() == s0.terminated(),
            stream.senders() == s0.senders(),
            stream.observer_targets() == s0.observer_targets(),
        decreases q.len() - i,
    {
        let ghost before = *stream;
        let r = stream.get_event();
        match r {
            Ok(event) => {
                proof {
                    assert(before.queued()[0] == q[i]);
                }
                let warning = update_component(component, event, instrumented);
                match warning {
                    Some(w) => sink.warn(&w),
                    None => (),
                }
                proof {
                    lemma_fold_updates_take_step::<C>(c0, q, i);
                    assert(stream.queued() =~= q.subrange(i + 1, q.len() as int));
                    i = i + 1;
                }
            },
            Err(_) => {
                proof {
                    assert(false);
                }
            },
        }
    }
    proof {
        assert(q.take(i) =~= q);
    }
}

/// Initialize a component: wire its subscriptions, then drain the queued
/// messages of its stream into it, as [`dispatch_pending`] does.  The
/// component ends in exactly the state given by folding the queued
/// messages, in FIFO order, over its update specification, starting from
/// `after_subscriptions` of its initial state.
pub fn init_component<C: Update, S: WarningSink>(
    relm: &mut Relm<C>,
    component: &mut C,
    instrumented: bool,
    sink: &mut S,
)
    requires
        old(relm).stream.senders() == 0 || old(relm).stream.terminated(),
    ensures
        *final(component) == fold_updates(
            C::after_subscriptions(*old(component)),
            old(relm).stream.queued(),
        ),
        final(relm).stream.queued().len() == 0,
        final(relm).stream.locked() == old(relm).stream.locked(),
        final(relm).stream.terminated() == old(relm).stream.terminated(),
        final(relm).stream.senders() == old(relm).stream.senders(),
        final(relm).stream.observer_targets() == old(relm).stream.observer_targets(),
{
    component.subscriptions(relm);
    dispatch_pending(&mut relm.stream, component, instrumented, sink);
}

/// Create a bare component: a fresh stream, a handle around it, the
/// initial model, and the component built from the model — exactly
/// `created` of `initial_model` of the parameter.  Messages can then be
/// emitted on the returned handle's stream and dispatched with
/// [`init_component`].
pub fn execute<C: UpdateNew>(model_param: C::ModelParam) -> (r: (Relm<C>, C))
    ensures
        r.1 == C::created(C::initial_model(model_param)),
        r.0.stream.queued().len() == 0,
        !r.0.stream.locked(),
        !r.0.stream.terminated(),
        r.0.stream.senders() == 1,
        r.0.stream.observer_targets().len() == 0,
{
    let stream = EventStream::new();
    let relm = Relm::new(stream);
    let model = C::model(&relm, model_param);
    let component = C::new(&relm, model);
    (relm, component)
}

} // verus!
