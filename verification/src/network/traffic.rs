//! Network traffic counters over time.

use vstd::prelude::*;
use std::time::Instant;
use crate::utils::clock::instant_now;

verus! {

/// A network traffic data point: cumulative counters and the time they were taken.
#[derive(Debug, Clone, Copy)]
pub struct TrafficData {
    /// Time when this data point was collected.
    pub timestamp: Instant,
    /// Total bytes received.
    pub bytes_received: u64,
    /// Total bytes sent.
    pub bytes_sent: u64,
    /// Total packets received.
    pub packets_received: u64,
    /// Total packets sent.
    pub packets_sent: u64,
    /// Total receive errors.
    pub receive_errors: u64,
    /// Total send errors.
    pub send_errors: u64,
    /// Total collisions.
    pub collisions: u64,
}

/// The counters of a data point, in the order the constructors take them.
pub open spec fn counters(d: TrafficData) -> (u64, u64, u64, u64, u64, u64, u64) {
    (
        d.bytes_received,
        d.bytes_sent,
        d.packets_received,
        d.packets_sent,
        d.receive_errors,
        d.send_errors,
        d.collisions,
    )
}

impl TrafficData {
    /// Creates a data point with the given counters, stamped with the current time.
    pub fn new(
        bytes_received: u64,
        bytes_sent: u64,
        packets_received: u64,
        packets_sent: u64,
        receive_errors: u64,
        send_errors: u64,
        collisions: u64,
    ) -> (r: Self)
        ensures
            counters(r) == (
                bytes_received,
                bytes_sent,
                packets_received,
                packets_sent,
                receive_errors,
                send_errors,
                collisions,
            ),
    {
        TrafficData {
            timestamp: instant_now(),
            bytes_received,
            bytes_sent,
            packets_received,
            packets_sent,
            receive_errors,
            send_errors,
            collisions,
        }
    }
}

/// Tracks network traffic counters over time: the latest data point and the one before.
#[derive(Debug, Clone)]
pub struct TrafficTracker {
    current: TrafficData,
    previous: Option<TrafficData>,
}

impl TrafficTracker {
    /// The latest data point.
    pub closed spec fn spec_current(&self) -> TrafficData {
        self.current
    }

    /// The data point before the latest, if there was an update.
    pub closed spec fn spec_previous(&self) -> Option<TrafficData> {
        self.previous
    }

    /// Creates a tracker holding one data point and no earlier one.
    pub fn new(
        bytes_received: u64,
        bytes_sent: u64,
        packets_received: u64,
        packets_sent: u64,
        receive_errors: u64,
        send_errors: u64,
        collisions: u64,
    ) -> (r: Self)
        ensures
            counters(r.spec_current()) == (
                bytes_received,
                bytes_sent,
                packets_received,
                packets_sent,
                receive_errors,
                send_errors,
                collisions,
            ),
            r.spec_previous() is None,
    {
        let current = TrafficData::new(
            bytes_received,
            bytes_sent,
            packets_received,
            packets_sent,
            receive_errors,
            send_errors,
            collisions,
        );
        TrafficTracker { current, previous: None }
    }

    /// Records a new data point; the current one becomes the previous one.
    pub fn update(
        &mut self,
        bytes_received: u64,
        bytes_sent: u64,
        packets_received: u64,
        packets_sent: u64,
        receive_errors: u64,
        send_errors: u64,
        collisions: u64,
    )
        ensures
            final(self).spec_previous() == Some(old(self).spec_current()),
            counters(final(self).spec_current()) == (
                bytes_received,
                bytes_sent,
                packets_received,
                packets_sent,
                receive_errors,
                send_errors,
                collisions,
            ),
    {
        self.previous = Some(self.current);
        self.current = TrafficData::new(
            bytes_received,
            bytes_sent,
            packets_received,
            packets_sent,
            receive_errors,
            send_errors,
            collisions,
        );
    }

    /// The latest data point.
    pub fn current(&self) -> (r: TrafficData)
        ensures
            r == self.spec_current(),
    {
        self.current
    }

    /// The data point before the latest, if there was an update.
    pub fn previous(&self) -> (r: Option<TrafficData>)
        ensures
            r == self.spec_previous(),
    {
        self.previous
    }

    /// The current bytes received count.
    pub fn bytes_received(&self) -> (r: u64)
        ensures
            r == self.spec_current().bytes_received,
    {
        self.current.bytes_received
    }

    /// The current bytes sent count.
    pub fn bytes_sent(&self) -> (r: u64)
        ensures
            r == self.spec_current().bytes_sent,
    {
        self.current.bytes_sent
    }

    /// The current packets received count.
    pub fn packets_received(&self) -> (r: u64)
        ensures
            r == self.spec_current().packets_received,
    {
        self.current.packets_received
    }

    /// The current packets sent count.
    pub fn packets_sent(&self) -> (r: u64)
        ensures
            r == self.spec_current().packets_sent,
    {
        self.current.packets_sent
    }

    /// The current receive errors count.
    pub fn receive_errors(&self) -> (r: u64)
        ensures
            r == self.spec_current().receive_errors,
    {
        self.current.receive_errors
    }

    /// The current send errors count.
    pub fn send_errors(&self) -> (r: u64)
        ensures
            r == self.spec_current().send_errors,
    {
        self.current.send_errors
    }

    /// The current collisions count.
    pub fn collisions(&self) -> (r: u64)
        ensures
            r == self.spec_current().collisions,
    {
        self.current.collisions
    }

    /// The growth of a counter between the previous and the current data point, as the
    /// rates use it: the difference, or zero when the counter went down; `None` before
    /// the first update.
    pub fn bytes_received_growth(&self) -> (r: Option<u64>)
        ensures
            r == growth(self.spec_previous(), self.spec_current(), 0),
    {
        match self.previous {
            Some(prev) => Some(self.current.bytes_received.saturating_sub(prev.bytes_received)),
            None => None,
        }
    }

    /// Growth of the bytes sent counter; see [`TrafficTracker::bytes_received_growth`].
    pub fn bytes_sent_growth(&self) -> (r: Option<u64>)
        ensures
            r == growth(self.spec_previous(), self.spec_current(), 1),
    {
        match self.previous {
            Some(prev) => Some(self.current.bytes_sent.saturating_sub(prev.bytes_sent)),
            None => None,
        }
    }

    /// Growth of the packets received counter; see [`TrafficTracker::bytes_received_growth`].
    pub fn packets_received_growth(&self) -> (r: Option<u64>)
        ensures
            r == growth(self.spec_previous(), self.spec_current(), 2),
    {
        match self.previous {
            Some(prev) => Some(
                self.current.packets_received.saturating_sub(prev.packets_received),
            ),
            None => None,
        }
    }

    /// Growth of the packets sent counter; see [`TrafficTracker::bytes_received_growth`].
    pub fn packets_sent_growth(&self) -> (r: Option<u64>)
        ensures
            r == growth(self.spec_previous(), self.spec_current(), 3),
    {
        match self.previous {
            Some(prev) => Some(self.current.packets_sent.saturating_sub(prev.packets_sent)),
            None => None,
        }
    }
}

/// A counter of a data point, by its position in [`counters`].
pub open spec fn counter(d: TrafficData, which: int) -> u64 {
    if which == 0 {
        d.bytes_received
    } else if which == 1 {
        d.bytes_sent
    } else if which == 2 {
        d.packets_received
    } else if which == 3 {
        d.packets_sent
    } else if which == 4 {
        d.receive_errors
    } else if which == 5 {
        d.send_errors
    } else {
        d.collisions
    }
}

/// How much a counter grew from `previous` to `current`, saturating at zero.
pub open spec fn growth(previous: Option<TrafficData>, current: TrafficData, which: int) -> Option<
    u64,
> {
    match previous {
        Some(p) => Some(
            if counter(current, which) >= counter(p, which) {
                (counter(current, which) - counter(p, which)) as u64
            } else {
                0
            },
        ),
        None => None,
    }
}

/// The growth that a tracker reports is the latest counter minus the one of the data
/// point before it, or zero when the counter went down; a tracker that was never
/// updated reports none. Since an update makes the latest data point the previous one,
/// the growth after an update is measured from the counters held before it.
pub proof fn law_growth_between_updates(before: TrafficTracker, after: TrafficTracker, which: int)
    requires
        0 <= which < 4,
        after.spec_previous() == Some(before.spec_current()),
    ensures
        growth(after.spec_previous(), after.spec_current(), which) == Some(
            if counter(after.spec_current(), which) >= counter(before.spec_current(), which) {
                (counter(after.spec_current(), which) - counter(before.spec_current(), which)) as u64
            } else {
                0u64
            },
        ),
        before.spec_previous() is None ==> growth(
            before.spec_previous(),
            before.spec_current(),
            which,
        ) is None,
{
}

} // verus!
