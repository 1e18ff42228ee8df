//! Sensor histories shared between the sensor tasks and the web server.
//!
//! Each sensor has one retained history, absent until its ring buffer has been
//! reserved. Readings published while it is absent are dropped rather than
//! stored, and the web server then reports an empty history.

use vstd::prelude::*;
use crate::history::{MeasurementHistory, Sample};
use crate::http::SensorKind;

verus! {

/// Time span the retained readings cover: one full day.
pub const HISTORY_WINDOW_MS: u64 = 86_400_000;

/// Time between two retained SCD41 readings.
pub const SCD41_INTERVAL_MS: u64 = 10_000;
/// Time between two retained SPS30 readings.
pub const SPS30_INTERVAL_MS: u64 = 5000;
/// Time between two retained BME690 readings: every second 3-second cycle.
pub const BME690_INTERVAL_MS: u64 = 6000;
/// Time between two retained AS7343 readings.
pub const AS7343_INTERVAL_MS: u64 = 5000;
/// Time between two retained BMP581 readings.
pub const BMP581_INTERVAL_MS: u64 = 10_000;
/// Time between two retained OPT4048 readings.
pub const OPT4048_INTERVAL_MS: u64 = 10_000;
/// Time between two retained SHT41 readings.
pub const SHT41_INTERVAL_MS: u64 = 10_000;

/// Number of readings that fill the history window at `interval_ms`.
pub fn capacity_for(interval_ms: u64) -> (capacity: u64)
    requires
        interval_ms > 0,
    ensures
        capacity == HISTORY_WINDOW_MS / interval_ms,
{
    HISTORY_WINDOW_MS / interval_ms
}

/// Number of SCD41 readings retained.
pub const SCD41_CAPACITY: usize = 8640;
/// Number of SPS30 readings retained.
pub const SPS30_CAPACITY: usize = 17280;
/// Number of BME690 readings retained.
pub const BME690_CAPACITY: usize = 14400;
/// Number of AS7343 readings retained.
pub const AS7343_CAPACITY: usize = 17280;
/// Number of BMP581 readings retained.
pub const BMP581_CAPACITY: usize = 8640;
/// Number of OPT4048 readings retained.
pub const OPT4048_CAPACITY: usize = 8640;
/// Number of SHT41 readings retained.
pub const SHT41_CAPACITY: usize = 8640;

/// The retained capacities are exactly one window's worth of readings.
pub proof fn lemma_capacities_fill_window()
    ensures
        SCD41_CAPACITY == HISTORY_WINDOW_MS / SCD41_INTERVAL_MS,
        SPS30_CAPACITY == HISTORY_WINDOW_MS / SPS30_INTERVAL_MS,
        BME690_CAPACITY == HISTORY_WINDOW_MS / BME690_INTERVAL_MS,
        AS7343_CAPACITY == HISTORY_WINDOW_MS / AS7343_INTERVAL_MS,
        BMP581_CAPACITY == HISTORY_WINDOW_MS / BMP581_INTERVAL_MS,
        OPT4048_CAPACITY == HISTORY_WINDOW_MS / OPT4048_INTERVAL_MS,
        SHT41_CAPACITY == HISTORY_WINDOW_MS / SHT41_INTERVAL_MS,
{
}

/// What a reader needs to know about one sensor's retained history.
///
/// Sequence numbers identify individual readings and never repeat, so a client
/// that remembers the last one it received can ask for exactly the readings
/// taken since then.
#[derive(Debug, Clone, Copy, PartialEq, Eq)]
pub struct HistoryStatus {
    /// Scheduled time between two readings of this sensor.
    pub interval_ms: u64,
    /// Readings the ring buffer can hold; zero if it has not been reserved.
    pub capacity: usize,
    /// Readings currently retained.
    pub len: usize,
    /// Sequence number of the oldest retained reading.
    pub first_sequence: u64,
    /// Sequence number the next reading will be given.
    pub next_sequence: u64,
}

impl HistoryStatus {
    /// The status of a sensor whose history has not been reserved.
    pub fn absent(interval_ms: u64) -> (status: Self)
        ensures
            status == (HistoryStatus {
                interval_ms,
                capacity: 0,
                len: 0,
                first_sequence: 0,
                next_sequence: 0,
            }),
    {
        HistoryStatus { interval_ms, capacity: 0, len: 0, first_sequence: 0, next_sequence: 0 }
    }
}

/// One sensor's retained readings, and the schedule they were taken on.
pub struct SensorRecord<T> {
    /// Absent until the ring buffer has been reserved.
    history: Option<MeasurementHistory<Sample<T>>>,
    /// Scheduled time between two readings.
    interval_ms: u64,
    /// Readings the ring buffer is to hold once reserved.
    planned_capacity: usize,
}

impl<T: Copy> SensorRecord<T> {
    /// Internal consistency.
    pub closed spec fn wf(&self) -> bool {
        &&& self.planned_capacity > 0
        &&& match self.history {
            Some(history) => history.wf() && history.spec_capacity() == self.planned_capacity,
            None => true,
        }
    }

    /// Scheduled time between two readings.
    pub closed spec fn spec_interval(&self) -> u64 {
        self.interval_ms
    }

    /// Readings the ring buffer is to hold once reserved.
    pub closed spec fn spec_planned_capacity(&self) -> usize {
        self.planned_capacity
    }

    /// Whether the ring buffer has been reserved.
    pub closed spec fn present(&self) -> bool {
        self.history is Some
    }

    /// Every reading published since the ring buffer was reserved.
    pub closed spec fn log(&self) -> Seq<Sample<T>> {
        match self.history {
            Some(history) => history.log(),
            None => Seq::empty(),
        }
    }

    /// The reading with a given sequence number, if it is still retained.
    pub closed spec fn spec_reading(&self, sequence: int) -> Option<Sample<T>> {
        match self.history {
            Some(history) => history.reading(sequence),
            None => None,
        }
    }

    /// The status a reader is shown.
    pub closed spec fn spec_status(&self) -> HistoryStatus {
        match self.history {
            Some(history) => HistoryStatus {
                interval_ms: self.interval_ms,
                capacity: history.spec_capacity() as usize,
                len: history.spec_len() as usize,
                first_sequence: history.spec_first_sequence() as u64,
                next_sequence: history.spec_next_sequence() as u64,
            },
            None => HistoryStatus {
                interval_ms: self.interval_ms,
                capacity: 0,
                len: 0,
                first_sequence: 0,
                next_sequence: 0,
            },
        }
    }

    /// A sensor taking a reading every `interval_ms` whose history, once
    /// reserved, holds `capacity` readings; not reserved yet.
    pub fn absent(interval_ms: u64, capacity: usize) -> (record: Self)
        requires
            capacity > 0,
        ensures
            record.wf(),
            !record.present(),
            record.spec_interval() == interval_ms,
            record.spec_planned_capacity() == capacity,
            record.spec_status() == HistoryStatus::absent_spec(interval_ms),
    {
        SensorRecord { history: None, interval_ms, planned_capacity: capacity }
    }

    /// The record of a sensor the API serves, with that sensor's interval
    /// and one window's worth of capacity; not reserved yet.
    pub fn for_sensor(kind: SensorKind) -> (record: Self)
        ensures
            record.wf(),
            !record.present(),
            record.spec_interval() == served_interval(kind),
            record.spec_planned_capacity() == served_capacity(kind),
            record.spec_status() == HistoryStatus::absent_spec(served_interval(kind)),
    {
        match kind {
            SensorKind::Scd41 => SensorRecord::absent(SCD41_INTERVAL_MS, SCD41_CAPACITY),
            SensorKind::Sps30 => SensorRecord::absent(SPS30_INTERVAL_MS, SPS30_CAPACITY),
            SensorKind::Bme690 => SensorRecord::absent(BME690_INTERVAL_MS, BME690_CAPACITY),
            SensorKind::As7343 => SensorRecord::absent(AS7343_INTERVAL_MS, AS7343_CAPACITY),
        }
    }

    /// Readings the ring buffer is to hold once reserved.
    pub fn planned_capacity(&self) -> (capacity: usize)
        ensures
            capacity == self.spec_planned_capacity(),
    {
        self.planned_capacity
    }

    /// Start retaining readings in `entries`, which holds exactly the planned
    /// capacity.
    pub fn reserve(&mut self, entries: Vec<Option<Sample<T>>>)
        requires
            entries.len() == old(self).spec_planned_capacity(),
            old(self).wf(),
        ensures
            final(self).wf(),
            final(self).present(),
            final(self).log() == Seq::<Sample<T>>::empty(),
            final(self).spec_status().capacity == entries.len(),
            final(self).spec_interval() == old(self).spec_interval(),
            final(self).spec_planned_capacity() == old(self).spec_planned_capacity(),
            final(self).spec_status().interval_ms == old(self).spec_status().interval_ms,
    {
        self.history = Some(MeasurementHistory::new(entries));
    }

    /// Append a reading, discarding the oldest one when full; dropped if the
    /// history has not been reserved.
    pub fn publish(&mut self, value: T, taken_at_ms: u64)
        requires
            old(self).wf(),
            old(self).spec_status().next_sequence < u64::MAX,
        ensures
            final(self).wf(),
            final(self).present() == old(self).present(),
            old(self).present() ==> final(self).log() == old(self).log().push(
                Sample { value, taken_at_ms },
            ),
            old(self).present() ==> final(self).spec_reading(
                old(self).spec_status().next_sequence as int,
            ) == Some(Sample { value, taken_at_ms }),
            !old(self).present() ==> final(self).spec_status() == old(self).spec_status(),
            final(self).spec_status().interval_ms == old(self).spec_status().interval_ms,
            final(self).spec_status().capacity == old(self).spec_status().capacity,
            final(self).spec_interval() == old(self).spec_interval(),
            final(self).spec_planned_capacity() == old(self).spec_planned_capacity(),
    {
        match &mut self.history {
            Some(history) => {
                proof {
                    history.lemma_bounds();
                }
                history.push(Sample { value, taken_at_ms });
            },
            None => {},
        }
    }

    /// The state of the retained history.
    ///
    /// `next_sequence` always equals `first_sequence + len`, and `len` never
    /// exceeds `capacity`.
    pub fn status(&self) -> (status: HistoryStatus)
        requires
            self.wf(),
        ensures
            status == self.spec_status(),
            status.next_sequence == status.first_sequence + status.len,
            status.len <= status.capacity,
    {
        match &self.history {
            Some(history) => {
                proof {
                    history.lemma_bounds();
                }
                HistoryStatus {
                interval_ms: self.interval_ms,
                capacity: history.capacity(),
                len: history.len(),
                first_sequence: history.first_sequence(),
                next_sequence: history.next_sequence(),
                }
            },
            None => HistoryStatus::absent(self.interval_ms),
        }
    }

    /// The status of a consistent record is consistent.
    pub proof fn lemma_status_consistent(&self)
        requires
            self.wf(),
        ensures
            self.spec_status().interval_ms == self.spec_interval(),
            self.spec_status().next_sequence == self.spec_status().first_sequence
                + self.spec_status().len,
            self.spec_status().len <= self.spec_status().capacity,
            self.present() ==> self.spec_status().capacity == self.spec_planned_capacity(),
            !self.present() ==> self.spec_status() == HistoryStatus::absent_spec(
                self.spec_interval(),
            ),
    {
        match self.history {
            Some(history) => {
                history.lemma_bounds();
            },
            None => {},
        }
    }

    /// The reading with the given sequence number, if still retained.
    pub fn reading(&self, sequence: u64) -> (sample: Option<Sample<T>>)
        requires
            self.wf(),
        ensures
            sample == self.spec_reading(sequence as int),
            sample is Some <==> self.spec_status().first_sequence <= sequence
                < self.spec_status().next_sequence,
    {
        match &self.history {
            Some(history) => {
                proof {
                    history.lemma_bounds();
                }
                history.get(sequence)
            },
            None => None,
        }
    }
}

impl HistoryStatus {
    /// The status of a sensor whose history has not been reserved.
    pub open spec fn absent_spec(interval_ms: u64) -> HistoryStatus {
        HistoryStatus { interval_ms, capacity: 0, len: 0, first_sequence: 0, next_sequence: 0 }
    }
}

/// Scheduled time between two readings of a sensor the API serves.
pub open spec fn served_interval(kind: SensorKind) -> u64 {
    match kind {
        SensorKind::Scd41 => SCD41_INTERVAL_MS,
        SensorKind::Sps30 => SPS30_INTERVAL_MS,
        SensorKind::Bme690 => BME690_INTERVAL_MS,
        SensorKind::As7343 => AS7343_INTERVAL_MS,
    }
}

/// Readings retained of a sensor the API serves.
pub open spec fn served_capacity(kind: SensorKind) -> usize {
    match kind {
        SensorKind::Scd41 => SCD41_CAPACITY,
        SensorKind::Sps30 => SPS30_CAPACITY,
        SensorKind::Bme690 => BME690_CAPACITY,
        SensorKind::As7343 => AS7343_CAPACITY,
    }
}

/// What the status of a served sensor reports, in any state its record can
/// reach: that sensor's interval; `next_sequence == first_sequence + len`
/// with `len` at most the capacity; all zeros before the history is
/// reserved, and one window's worth of capacity after.
pub proof fn lemma_served_status<T: Copy>(kind: SensorKind, record: SensorRecord<T>)
    requires
        record.wf(),
        record.spec_interval() == served_interval(kind),
        record.spec_planned_capacity() == served_capacity(kind),
    ensures
        ({
            let status = record.spec_status();
            &&& status.interval_ms == served_interval(kind)
            &&& status.next_sequence == status.first_sequence + status.len
            &&& status.len <= status.capacity
            &&& !record.present() ==> status == HistoryStatus::absent_spec(served_interval(kind))
            &&& record.present() ==> status.capacity == served_capacity(kind)
        }),
{
    record.lemma_status_consistent();
}

} // verus!
