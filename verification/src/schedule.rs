//! The decisions the periodic sensor tasks make between bus transactions.
//!
//! Every task runs the same loop: initialise the sensor if it needs it, take
//! a reading, publish it or hold it back while the sensor warms up, and wait
//! for the next deadline. A bus error sends the task back to initialisation.
//! The waiting and the bus work happen in the task; what to do next is
//! decided here.

use vstd::prelude::*;

verus! {

/// Idle time before retrying after a bus or sensor error.
pub const ERROR_RETRY_DELAY_MS: u64 = 1000;

/// Readings the SCD41 task drops after each initialisation: the first
/// single-shot conversion, taken before the sensor's own temperature settled.
pub const SCD41_DISCARDED_WARMUP_READINGS: u32 = 1;
/// Readings the SPS30 task drops: roughly the first 30 seconds, while the fan
/// and laser spin up.
pub const SPS30_DISCARDED_WARMUP_READINGS: u32 = 6;
/// Readings the AS7343 task drops: the first measurement after the gain is
/// applied reports a gain the sensor was not set to.
pub const AS7343_DISCARDED_WARMUP_READINGS: u32 = 1;
/// Readings the SHT41 task drops: the ones still carrying the start-up
/// self-heating after the soft reset.
pub const SHT41_DISCARDED_WARMUP_READINGS: u32 = 2;
/// Readings the BMM350 task drops after each initialisation.
pub const BMM350_DISCARDED_WARMUP_READINGS: u32 = 1;

/// What happens to a reading that was taken successfully.
#[derive(Debug, Clone, Copy, PartialEq, Eq)]
pub struct ReadingFate {
    /// The sensor is still warming up: print the reading, marked as
    /// discarded, but keep it out of the history.
    pub settling: bool,
    /// This is the first reading since an initialisation, so the fixed
    /// schedule starts afresh from it.
    pub restart_schedule: bool,
}

/// Where a periodic sensor task stands.
pub struct MeasureCycle {
    /// The next pass has to run the sensor's initialisation first.
    needs_init: bool,
    /// Readings still to be dropped before the sensor counts as settled.
    warmup_remaining: u32,
    /// How many readings are dropped after every initialisation.
    discarded_warmup_readings: u32,
    /// Successful readings since the last initialisation.
    taken_since_init: Ghost<nat>,
}

impl MeasureCycle {
    /// Internal consistency.
    pub closed spec fn wf(&self) -> bool {
        self.warmup_remaining == if self.taken_since_init@ < self.discarded_warmup_readings {
            self.discarded_warmup_readings - self.taken_since_init@
        } else {
            0
        }
    }

    /// Whether the next pass initialises the sensor first.
    pub closed spec fn spec_needs_init(&self) -> bool {
        self.needs_init
    }

    /// Successful readings since the last initialisation.
    pub closed spec fn spec_taken_since_init(&self) -> nat {
        self.taken_since_init@
    }

    /// How many readings are dropped after every initialisation.
    pub closed spec fn spec_discarded(&self) -> nat {
        self.discarded_warmup_readings as nat
    }

    /// A task that has not initialised its sensor yet.
    pub fn new(discarded_warmup_readings: u32) -> (cycle: Self)
        ensures
            cycle.wf(),
            cycle.spec_needs_init(),
            cycle.spec_taken_since_init() == 0,
            cycle.spec_discarded() == discarded_warmup_readings,
    {
        MeasureCycle {
            needs_init: true,
            warmup_remaining: discarded_warmup_readings,
            discarded_warmup_readings,
            taken_since_init: Ghost(0),
        }
    }

    /// Whether the next pass has to initialise the sensor first.
    pub fn needs_init(&self) -> (needs: bool)
        ensures
            needs == self.spec_needs_init(),
    {
        self.needs_init
    }

    /// The sensor was initialised: the warm-up countdown restarts.
    pub fn initialized(&mut self)
        requires
            old(self).wf(),
        ensures
            final(self).wf(),
            final(self).spec_taken_since_init() == 0,
            final(self).spec_needs_init() == old(self).spec_needs_init(),
            final(self).spec_discarded() == old(self).spec_discarded(),
    {
        self.warmup_remaining = self.discarded_warmup_readings;
        self.taken_since_init = Ghost(0);
    }

    /// A reading was taken: decide whether it is published.
    ///
    /// Exactly the first [`Self::spec_discarded`] readings after an
    /// initialisation are held back; every later one is published.
    pub fn measured(&mut self) -> (fate: ReadingFate)
        requires
            old(self).wf(),
        ensures
            final(self).wf(),
            fate.settling == (old(self).spec_taken_since_init() < old(self).spec_discarded()),
            fate.restart_schedule == old(self).spec_needs_init(),
            !final(self).spec_needs_init(),
            final(self).spec_taken_since_init() == old(self).spec_taken_since_init() + 1,
            final(self).spec_discarded() == old(self).spec_discarded(),
    {
        let restart_schedule = self.needs_init;
        self.needs_init = false;
        let settling = self.warmup_remaining > 0;
        if settling {
            self.warmup_remaining = self.warmup_remaining - 1;
        }
        self.taken_since_init = Ghost(self.taken_since_init@ + 1);
        ReadingFate { settling, restart_schedule }
    }

    /// A reading failed: the next pass re-runs the initialisation instead of
    /// assuming the sensor kept its state.
    pub fn failed(&mut self)
        requires
            old(self).wf(),
        ensures
            final(self).wf(),
            final(self).spec_needs_init(),
            final(self).spec_taken_since_init() == old(self).spec_taken_since_init(),
            final(self).spec_discarded() == old(self).spec_discarded(),
    {
        self.needs_init = true;
    }
}

/// With no warm-up readings to drop, every reading is published.
pub proof fn lemma_no_warmup_publishes_all(cycle: MeasureCycle)
    requires
        cycle.spec_discarded() == 0,
    ensures
        !(cycle.spec_taken_since_init() < cycle.spec_discarded()),
{
}

/// Publishes one of every `period` outputs, starting with the first.
///
/// The BME690 is read every 3 seconds because BSEC needs a steady stream of
/// measurements, but only every second output is retained.
pub struct PublishDecimator {
    /// Outputs still to be skipped before the next one is published.
    cycles_until_publish: u64,
    /// One output in this many is published.
    period: u64,
    /// Outputs seen so far.
    outputs: Ghost<nat>,
}

impl PublishDecimator {
    /// Internal consistency.
    pub closed spec fn wf(&self) -> bool {
        &&& self.period > 0
        &&& self.cycles_until_publish as int == (self.period as int - (self.outputs@ as int) % (
        self.period as int)) % (self.period as int)
    }

    /// Outputs seen so far.
    pub closed spec fn spec_outputs(&self) -> nat {
        self.outputs@
    }

    /// One output in this many is published.
    pub closed spec fn spec_period(&self) -> nat {
        self.period as nat
    }

    /// A decimator that publishes the next output.
    pub fn new(period: u64) -> (decimator: Self)
        requires
            period > 0,
        ensures
            decimator.wf(),
            decimator.spec_outputs() == 0,
            decimator.spec_period() == period,
    {
        proof {
            let p = period as int;
            assert((p - 0int % p) % p == 0) by (nonlinear_arith)
                requires p > 0;
        }
        PublishDecimator { cycles_until_publish: 0, period, outputs: Ghost(0) }
    }

    /// BSEC produced an output: decide whether it is published.
    ///
    /// Output number `k` (counting from zero) is published exactly when `k`
    /// is a multiple of the period.
    pub fn output(&mut self) -> (publish: bool)
        requires
            old(self).wf(),
        ensures
            final(self).wf(),
            publish == (old(self).spec_outputs() % old(self).spec_period() == 0),
            final(self).spec_outputs() == old(self).spec_outputs() + 1,
            final(self).spec_period() == old(self).spec_period(),
    {
        let ghost k = self.outputs@ as int;
        let ghost p = self.period as int;
        let publish = self.cycles_until_publish == 0;
        proof {
            assert(0 <= k % p < p) by (nonlinear_arith) requires p > 0, k >= 0;
            assert(((p - k % p) % p == 0) == (k % p == 0)) by (nonlinear_arith)
                requires p > 0, 0 <= k % p < p;
            assert((p - (k + 1) % p) % p == if k % p == 0 { p - 1 } else { (p - k % p) % p - 1 })
                by (nonlinear_arith)
                requires p > 0, 0 <= k % p < p;
        }
        if publish {
            self.cycles_until_publish = self.period - 1;
        } else {
            self.cycles_until_publish = self.cycles_until_publish - 1;
        }
        self.outputs = Ghost((k + 1) as nat);
        publish
    }
}

/// How long between two routine writes of the learned state: six hours.
pub const STATE_SAVE_INTERVAL_MS: u64 = 21_600_000;

/// Decides when the learned BSEC state is written to the flash.
///
/// A save happens when the IAQ accuracy has risen since the last save, or
/// when six hours have passed since it. The first output after start-up is
/// adopted rather than saved, because a state restored from the flash brings
/// its accuracy back with it and would otherwise be written straight back.
pub struct StateSavePolicy {
    /// Uptime of the last save, or of start-up before the first one.
    saved_at_ms: u64,
    /// Accuracy the flash copy stands at; `None` until the first output.
    saved_accuracy: Option<u8>,
}

impl StateSavePolicy {
    /// Accuracy the flash copy stands at; `None` until the first output.
    pub closed spec fn spec_saved_accuracy(&self) -> Option<u8> {
        self.saved_accuracy
    }

    /// Uptime of the last save, or of start-up before the first one.
    pub closed spec fn spec_saved_at_ms(&self) -> u64 {
        self.saved_at_ms
    }

    /// The policy at start-up, at uptime `now_ms`.
    pub fn new(now_ms: u64) -> (policy: Self)
        ensures
            policy.spec_saved_accuracy() is None,
            policy.spec_saved_at_ms() == now_ms,
    {
        StateSavePolicy { saved_at_ms: now_ms, saved_accuracy: None }
    }

    /// A cycle produced a fresh output of `accuracy` at uptime `now_ms`:
    /// decide whether to save the state now.
    pub fn fresh_output(&mut self, accuracy: u8, now_ms: u64) -> (save: bool)
        ensures
            save == match old(self).spec_saved_accuracy() {
                None => false,
                Some(saved) => accuracy > saved || (now_ms >= old(self).spec_saved_at_ms()
                    && now_ms - old(self).spec_saved_at_ms() >= STATE_SAVE_INTERVAL_MS),
            },
            old(self).spec_saved_accuracy() is None ==> final(self).spec_saved_accuracy() == Some(
                accuracy,
            ),
            old(self).spec_saved_accuracy() is Some ==> final(self).spec_saved_accuracy()
                == old(self).spec_saved_accuracy(),
            final(self).spec_saved_at_ms() == old(self).spec_saved_at_ms(),
    {
        match self.saved_accuracy {
            None => {
                self.saved_accuracy = Some(accuracy);
                false
            },
            Some(saved) => {
                let elapsed = if now_ms >= self.saved_at_ms { now_ms - self.saved_at_ms } else { 0 };
                accuracy > saved || elapsed >= STATE_SAVE_INTERVAL_MS
            },
        }
    }

    /// The state was written (or the attempt made) at uptime `now_ms` while
    /// the output stood at `accuracy`.
    ///
    /// The remembered accuracy is raised, never lowered: following it down
    /// would let an oscillation between two values erase a sector every time
    /// it came back up.
    pub fn saved(&mut self, accuracy: u8, now_ms: u64)
        requires
            old(self).spec_saved_accuracy() is Some,
        ensures
            final(self).spec_saved_at_ms() == now_ms,
            final(self).spec_saved_accuracy() == Some(
                if accuracy > old(self).spec_saved_accuracy()->0 {
                    accuracy
                } else {
                    old(self).spec_saved_accuracy()->0
                },
            ),
    {
        let saved = match self.saved_accuracy {
            Some(saved) => saved,
            None => accuracy,
        };
        self.saved_accuracy = Some(if accuracy > saved { accuracy } else { saved });
        self.saved_at_ms = now_ms;
    }
}

/// Saves triggered by a rise in accuracy raise the remembered accuracy, so
/// with accuracy confined to 0..=3 they can happen at most three times over
/// a boot: the remembered accuracy after `n` such saves is at least `n`.
pub proof fn lemma_accuracy_saves_bounded(before: Option<u8>, accuracy: u8, after: Option<u8>)
    requires
        before is Some,
        accuracy > before->0,
        after == Some(if accuracy > before->0 { accuracy } else { before->0 }),
    ensures
        after->0 > before->0,
{
}

} // verus!
