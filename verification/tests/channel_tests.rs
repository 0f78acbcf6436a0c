use relm_core::channel::run_component_step;
use relm_core::counter::Counter;
use relm_core::counter::CounterMsg;
use relm_core::dispatch::SlowWarning;
use relm_core::dispatch::WarningSink;

struct CountingSink {
    warnings: usize,
}

impl WarningSink for CountingSink {
    fn warn(&mut self, _warning: &SlowWarning) {
        self.warnings += 1;
    }
}

#[test]
fn channel_dispatch_is_fifo() {
    let (tx, rx) = may::sync::mpsc::channel();
    tx.send(CounterMsg::Increment).unwrap();
    tx.send(CounterMsg::Increment).unwrap();
    tx.send(CounterMsg::Decrement).unwrap();
    drop(tx);
    let mut counter = Counter { count: 0, work_ms: 0 };
    let mut sink = CountingSink { warnings: 0 };
    let mut steps = 0;
    while run_component_step(&rx, &mut counter, false, &mut sink) {
        steps += 1;
    }
    assert_eq!(steps, 3);
    assert_eq!(counter.count, 1);
    assert_eq!(sink.warnings, 0);
}

#[test]
fn channel_end_of_stream_stops_the_loop() {
    let (tx, rx) = may::sync::mpsc::channel::<CounterMsg>();
    drop(tx);
    let mut counter = Counter { count: 5, work_ms: 0 };
    let mut sink = CountingSink { warnings: 0 };
    assert!(!run_component_step(&rx, &mut counter, true, &mut sink));
    assert_eq!(counter.count, 5);
}

#[test]
fn channel_slow_update_warns() {
    let (tx, rx) = may::sync::mpsc::channel();
    tx.send(CounterMsg::Increment).unwrap();
    drop(tx);
    let mut counter = Counter { count: 0, work_ms: 250 };
    let mut sink = CountingSink { warnings: 0 };
    while run_component_step(&rx, &mut counter, true, &mut sink) {}
    assert_eq!(counter.count, 1);
    assert_eq!(sink.warnings, 1);
}
