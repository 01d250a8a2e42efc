//! Direct tests of the shared cursor's transitions: pulls, the one-shot stop
//! protocol, and the finish-one countdown.

use fanout::cursor::{SharedCursor, WorkSource};

struct CountUp {
    next: u64,
    end: u64,
}

impl WorkSource for CountUp {
    type Item = u64;
    fn next_item(&mut self) -> Option<u64> {
        if self.next < self.end {
            let v: u64 = self.next;
            self.next += 1;
            Some(v)
        } else {
            None
        }
    }
}

/// Counts how many times it has been polled, and misbehaves after reporting
/// exhaustion once: any poll past the first `None` would yield an item again.
struct CountingSource {
    polls: u64,
    real_items: u64,
}

impl WorkSource for CountingSource {
    type Item = u64;
    fn next_item(&mut self) -> Option<u64> {
        self.polls += 1;
        if self.polls <= self.real_items {
            Some(self.polls)
        } else if self.polls == self.real_items + 1 {
            None
        } else {
            Some(999)
        }
    }
}

#[test]
fn pulls_items_in_order_then_stops() {
    let mut cursor: SharedCursor<CountUp> = SharedCursor::new(CountUp { next: 0, end: 3 }, 2);
    assert_eq!(cursor.next(), Some(0));
    assert_eq!(cursor.next(), Some(1));
    assert_eq!(cursor.next(), Some(2));
    assert_eq!(cursor.next(), None);
    // exhausted once: every further pull yields nothing
    assert_eq!(cursor.next(), None);
    assert_eq!(cursor.next(), None);
}

#[test]
fn source_is_never_polled_past_exhaustion() {
    let mut cursor: SharedCursor<CountingSource> =
        SharedCursor::new(CountingSource { polls: 0, real_items: 2 }, 1);
    assert_eq!(cursor.next(), Some(1));
    assert_eq!(cursor.next(), Some(2));
    assert_eq!(cursor.next(), None);
    // the misbehaving source would now yield 999, but it is never asked
    assert_eq!(cursor.next(), None);
    assert_eq!(cursor.next(), None);
}

#[test]
fn stop_halts_pulls_and_is_idempotent() {
    let mut cursor: SharedCursor<CountUp> = SharedCursor::new(CountUp { next: 0, end: 100 }, 3);
    assert_eq!(cursor.next(), Some(0));
    cursor.stop();
    assert_eq!(cursor.next(), None);
    cursor.stop();
    cursor.stop();
    assert_eq!(cursor.next(), None);
    assert_eq!(cursor.live_count(), 3);
}

#[test]
fn finish_one_fires_only_at_zero() {
    let mut cursor: SharedCursor<CountUp> = SharedCursor::new(CountUp { next: 0, end: 0 }, 3);
    assert_eq!(cursor.live_count(), 3);
    assert!(!cursor.finish_one());
    assert_eq!(cursor.live_count(), 2);
    assert!(!cursor.finish_one());
    assert_eq!(cursor.live_count(), 1);
    assert!(cursor.finish_one());
    assert_eq!(cursor.live_count(), 0);
}
