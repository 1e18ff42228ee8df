//! The shared I2C bus: its pins and speed, the range of a full 7-bit address
//! scan, the record of the addresses that answered, and the progress bar the
//! scan prints.

use vstd::prelude::*;

verus! {

/// GPIO number carrying I2C0 SDA.
pub const I2C_SDA_PIN: u8 = 5;
/// GPIO number carrying I2C0 SCL.
pub const I2C_SCL_PIN: u8 = 6;

/// Lowest and highest address a scan probes; the others are reserved.
pub const I2C_FIRST_ADDRESS: u8 = 0x03;
pub const I2C_LAST_ADDRESS: u8 = 0x77;
/// Number of addresses a scan probes.
pub const I2C_ADDRESS_COUNT: usize = 117;
/// Width of the scan's progress bar, in characters.
pub const SCAN_PROGRESS_BAR_WIDTH: usize = 30;
/// Probes of one address before it counts as silent.
pub const I2C_SCAN_RETRIES: usize = 3;
/// Pause between two probes of one address.
pub const I2C_SCAN_RETRY_DELAY_MS: u32 = 10;
/// Half period of the bit-banged bus-recovery clock (about 100 kHz).
pub const I2C_RECOVERY_HALF_PERIOD_US: u32 = 5;
/// Clock pulses that let any device holding SDA finish its byte.
pub const I2C_RECOVERY_PULSES: usize = 9;
/// Bus speed of every sensor transfer.
pub const I2C_FREQUENCY_KHZ: u32 = 100;

/// The 7-bit addresses that acknowledged during a bus scan, in the order
/// they were probed.
pub struct I2cScanResult {
    addresses: Vec<u8>,
}

impl I2cScanResult {
    /// The addresses recorded so far.
    pub closed spec fn spec_addresses(&self) -> Seq<u8> {
        self.addresses@
    }

    /// Nothing answered yet.
    pub fn new() -> (result: Self)
        ensures
            result.spec_addresses() == Seq::<u8>::empty(),
    {
        I2cScanResult { addresses: Vec::new() }
    }

    /// Record the outcome of probing `address`: an address that
    /// acknowledged is appended, a silent one changes nothing.
    pub fn record(&mut self, address: u8, acknowledged: bool)
        ensures
            final(self).spec_addresses() == if acknowledged {
                old(self).spec_addresses().push(address)
            } else {
                old(self).spec_addresses()
            },
    {
        if acknowledged {
            self.addresses.push(address);
        }
    }

    /// The addresses that acknowledged.
    pub fn addresses(&self) -> (addresses: &[u8])
        ensures
            addresses@ == self.spec_addresses(),
    {
        self.addresses.as_slice()
    }
}

/// Whether a probe that failed is followed by another one after a pause.
pub fn retry_after(attempt: usize) -> (retry: bool)
    ensures
        retry == (attempt + 1 < 3),
{
    attempt < I2C_SCAN_RETRIES - 1
}

/// How many of the bar's characters are filled after `completed` probes.
pub open spec fn progress_filled(completed: int) -> int {
    completed * 30 / 117
}

/// The scan's progress bar after `completed` of the 117 addresses: `#`
/// (35) for the part done, `.` (46) for the rest.
pub fn progress_bar(completed: usize) -> (bar: Vec<u8>)
    requires
        completed <= 117,
    ensures
        bar@.len() == 30,
        forall|i: int|
            0 <= i < 30 ==> #[trigger] bar@[i] == if i < progress_filled(completed as int) {
                35u8
            } else {
                46u8
            },
{
    let filled = completed * SCAN_PROGRESS_BAR_WIDTH / I2C_ADDRESS_COUNT;
    let mut bar: Vec<u8> = Vec::new();
    for i in 0..SCAN_PROGRESS_BAR_WIDTH
        invariant
            filled == progress_filled(completed as int),
            bar@.len() == i,
            forall|j: int|
                0 <= j < i ==> #[trigger] bar@[j] == if j < filled {
                    35u8
                } else {
                    46u8
                },
    {
        if i < filled {
            bar.push(35u8);
        } else {
            bar.push(46u8);
        }
    }
    bar
}

} // verus!
