//! A minimal counter component: the model is an integer moved up and
//! down by messages.  It is the crate's own implementor of the
//! [`Update`] capability, and its optional simulated work delay lets a
//! dispatch loop's slow-update instrumentation be exercised.

use vstd::prelude::*;

use crate::dispatch::{DisplayVariant, Relm, Update, UpdateNew};

verus! {

/// Messages understood by [`Counter`].
#[derive(Clone, Copy, PartialEq, Eq, Structural, Debug)]
pub enum CounterMsg {
    /// Increase the count by one.
    Increment,
    /// Decrease the count by one.
    Decrement,
}

impl DisplayVariant for CounterMsg {
    open spec fn variant_tag(&self) -> Seq<char> {
        match self {
            CounterMsg::Increment => "Increment"@,
            CounterMsg::Decrement => "Decrement"@,
        }
    }

    fn display_variant(&self) -> (r: &'static str) {
        match self {
            CounterMsg::Increment => "Increment",
            CounterMsg::Decrement => "Decrement",
        }
    }
}

/// Relies on may::coroutine::sleep: blocks the current coroutine — or,
/// when called from a plain thread, the thread — for at least the given
/// duration, and has no other effect.
#[verifier::external_body]
fn sleep_millis(ms: u64) {
    may::coroutine::sleep(std::time::Duration::from_millis(ms));
}

/// A component counting up and down, saturating at the `i64` bounds.
/// `work_ms` simulates a long-running update: every message first sleeps
/// that many milliseconds, with no effect on the model.
pub struct Counter {
    /// The model: the current count.
    pub count: i64,
    /// Milliseconds of simulated work per update.
    pub work_ms: u64,
}

impl Update for Counter {
    type Model = i64;

    type ModelParam = i64;

    type Msg = CounterMsg;

    open spec fn next(pre: Self, event: CounterMsg) -> Self {
        match event {
            CounterMsg::Increment => if pre.count == i64::MAX {
                pre
            } else {
                Counter { count: (pre.count + 1) as i64, ..pre }
            },
            CounterMsg::Decrement => if pre.count == i64::MIN {
                pre
            } else {
                Counter { count: (pre.count - 1) as i64, ..pre }
            },
        }
    }

    open spec fn initial_model(param: i64) -> i64 {
        param
    }

    open spec fn after_subscriptions(pre: Self) -> Self {
        pre
    }

    fn model(relm: &Relm<Self>, param: i64) -> i64 {
        param
    }

    fn subscriptions(&mut self, relm: &Relm<Self>) {
    }

    fn update(&mut self, event: CounterMsg) {
        if self.work_ms > 0 {
            sleep_millis(self.work_ms);
        }
        match event {
            CounterMsg::Increment => {
                if self.count < i64::MAX {
                    self.count = self.count + 1;
                }
            },
            CounterMsg::Decrement => {
                if self.count > i64::MIN {
                    self.count = self.count - 1;
                }
            },
        }
    }
}

impl UpdateNew for Counter {
    open spec fn created(model: i64) -> Self {
        Counter { count: model, work_ms: 0 }
    }

    fn new(relm: &Relm<Self>, model: i64) -> Self {
        Counter { count: model, work_ms: 0 }
    }
}

} // verus!

