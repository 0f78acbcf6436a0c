use relm_core::counter::Counter;
use relm_core::counter::CounterMsg;
use relm_core::dispatch::execute;
use relm_core::dispatch::init_component;
use relm_core::dispatch::slow_warning;
use relm_core::dispatch::truncate_tag;
use relm_core::dispatch::update_component;
use relm_core::dispatch::SlowWarning;
use relm_core::dispatch::WarningSink;
use relm_core::DisplayVariant;
use relm_core::EventStream;
use relm_core::Relm;

struct RecordingSink {
    entries: Vec<(String, u64)>,
}

impl RecordingSink {
    fn new() -> Self {
        RecordingSink { entries: Vec::new() }
    }
}

impl WarningSink for RecordingSink {
    fn warn(&mut self, warning: &SlowWarning) {
        self.entries.push((warning.tag.clone(), warning.elapsed_ms));
    }
}

#[test]
fn counter_dispatch_scenario() {
    let (mut relm, mut counter) = execute::<Counter>(0);
    assert_eq!(counter.count, 0);
    relm.stream.emit(CounterMsg::Increment);
    relm.stream.emit(CounterMsg::Increment);
    relm.stream.emit(CounterMsg::Decrement);
    relm.stream.close();
    let mut sink = RecordingSink::new();
    init_component(&mut relm, &mut counter, false, &mut sink);
    assert_eq!(counter.count, 1);
    assert_eq!(relm.stream.queue_len(), 0);
    assert!(sink.entries.is_empty());
}

#[test]
fn slow_update_logs_one_warning() {
    let mut relm = Relm::<Counter>::new(EventStream::new());
    let mut counter = Counter { count: 0, work_ms: 250 };
    relm.stream.emit(CounterMsg::Increment);
    relm.stream.drop_sender();
    let mut sink = RecordingSink::new();
    init_component(&mut relm, &mut counter, true, &mut sink);
    assert_eq!(counter.count, 1);
    assert_eq!(sink.entries.len(), 1);
    assert_eq!(sink.entries[0].0, "Increment");
    assert!(sink.entries[0].1 >= 200);
}

#[test]
fn fast_update_logs_nothing() {
    let mut relm = Relm::<Counter>::new(EventStream::new());
    let mut counter = Counter { count: 0, work_ms: 0 };
    relm.stream.emit(CounterMsg::Increment);
    relm.stream.drop_sender();
    let mut sink = RecordingSink::new();
    init_component(&mut relm, &mut counter, true, &mut sink);
    assert_eq!(counter.count, 1);
    assert!(sink.entries.is_empty());
}

#[test]
fn uninstrumented_slow_update_logs_nothing() {
    let mut counter = Counter { count: 0, work_ms: 250 };
    let w = update_component(&mut counter, CounterMsg::Increment, false);
    assert!(w.is_none());
    assert_eq!(counter.count, 1);
}

#[test]
fn update_component_applies_message() {
    let mut counter = Counter { count: 41, work_ms: 0 };
    let w = update_component(&mut counter, CounterMsg::Increment, true);
    assert!(w.is_none());
    assert_eq!(counter.count, 42);
    let w = update_component(&mut counter, CounterMsg::Decrement, false);
    assert!(w.is_none());
    assert_eq!(counter.count, 41);
}

#[test]
fn counter_saturates_at_bounds() {
    let mut counter = Counter { count: i64::MAX, work_ms: 0 };
    update_component(&mut counter, CounterMsg::Increment, false);
    assert_eq!(counter.count, i64::MAX);
    let mut counter = Counter { count: i64::MIN, work_ms: 0 };
    update_component(&mut counter, CounterMsg::Decrement, false);
    assert_eq!(counter.count, i64::MIN);
}

#[test]
fn truncation_scenario() {
    let tag: String = "x".repeat(150);
    let cut = truncate_tag(&tag);
    let chars: Vec<char> = cut.chars().collect();
    assert_eq!(chars.len(), 101);
    assert_eq!(chars[100], '…');
    for i in 0..100 {
        assert_eq!(chars[i], 'x');
    }
}

#[test]
fn short_tag_is_untouched() {
    assert_eq!(truncate_tag("Increment"), "Increment");
    let exactly: String = "y".repeat(100);
    assert_eq!(truncate_tag(&exactly), exactly);
    assert_eq!(truncate_tag(""), "");
}

#[test]
fn tag_just_over_the_limit_is_marked() {
    let tag: String = "z".repeat(101);
    let cut = truncate_tag(&tag);
    assert_eq!(cut.chars().count(), 101);
    assert_eq!(cut.chars().last(), Some('…'));
}

#[test]
fn display_variant_names_the_variant() {
    assert_eq!(CounterMsg::Increment.display_variant(), "Increment");
    assert_eq!(CounterMsg::Decrement.display_variant(), "Decrement");
    assert_eq!(().display_variant(), "");
}

#[test]
fn slow_warning_iff_threshold() {
    let w = slow_warning(String::from("Tick"), 200);
    let w = w.expect("a warning is owed at the threshold");
    assert_eq!(w.tag, "Tick");
    assert_eq!(w.elapsed_ms, 200);
    assert!(slow_warning(String::from("Tick"), 199).is_none());
    assert!(slow_warning(String::from("Tick"), 0).is_none());
    assert!(slow_warning(String::from("Tick"), u64::MAX).is_some());
}

#[test]
fn execute_builds_the_component_from_the_parameter() {
    let (relm, counter) = execute::<Counter>(7);
    assert_eq!(counter.count, 7);
    assert_eq!(counter.work_ms, 0);
    assert_eq!(relm.stream().queue_len(), 0);
}

#[test]
fn relm_exposes_its_stream() {
    let relm = Relm::<Counter>::new(EventStream::new());
    assert_eq!(relm.stream().queue_len(), 0);
    assert_eq!(relm.stream().sender_count(), 1);
}
