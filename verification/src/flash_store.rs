//! Keeping a small blob in the on-board flash across reboots.
//!
//! The store is one named partition holding one record: a 12-byte header
//! (magic, format version, padding, payload length, CRC-32 of the payload)
//! followed by the payload. A record that does not check out is reported the
//! same way as an empty slot, so a save interrupted by a power cut simply
//! looks like a first run.
//!
//! The partition is found by its label in the partition table, which is a
//! plain array of 32-byte entries that ends where the entry magic stops
//! matching. Reading the flash is the caller's part; this module decides what
//! to read and what the bytes mean.

use vstd::prelude::*;
use crate::crc::{crc32, crc32_spec};

verus! {

/// Where the ESP32-S3 bootloader expects the partition table.
pub const PARTITION_TABLE_OFFSET: u32 = 0x8000;
/// The partition table is a plain array of entries of this size.
pub const PARTITION_ENTRY_SIZE: usize = 32;
/// How many entries the table can hold, which bounds the scan.
pub const MAX_PARTITION_ENTRIES: usize = 95;
/// First byte of a partition entry.
pub const PARTITION_MAGIC_0: u8 = 0xAA;
/// Second byte of a partition entry.
pub const PARTITION_MAGIC_1: u8 = 0x50;
/// Offsets within a partition entry, as the bootloader lays it out.
pub const PARTITION_OFFSET_FIELD: usize = 4;
pub const PARTITION_SIZE_FIELD: usize = 8;
pub const PARTITION_LABEL_FIELD: usize = 12;
pub const PARTITION_LABEL_LENGTH: usize = 16;

/// Format version of the record; a record of another version is discarded.
pub const RECORD_VERSION: u8 = 1;
/// Bytes of bookkeeping in front of the payload: magic, version, padding,
/// payload length and checksum.
pub const RECORD_HEADER_SIZE: usize = 12;
/// Largest payload this module will store.
pub const MAX_PAYLOAD_SIZE: usize = 512;

/// The four bytes a record starts with: `BSEC`.
pub open spec fn record_magic() -> Seq<u8> {
    seq![0x42u8, 0x53u8, 0x45u8, 0x43u8]
}

/// What can go wrong deciding on a record, apart from the flash itself.
#[derive(Debug, Clone, Copy, PartialEq, Eq)]
pub enum Error {
    /// No partition with the requested label exists. The device was flashed
    /// without the project's partition table.
    PartitionMissing,
    /// The partition is too small to hold the record, so saving would run past
    /// its end and into whatever follows.
    PayloadTooLarge { length: usize, capacity: usize },
}

/// Little-endian value of two bytes.
pub open spec fn le16(bytes: Seq<u8>, at: int) -> int {
    bytes[at] as int + 256 * bytes[at + 1] as int
}

/// Little-endian value of four bytes.
pub open spec fn le32(bytes: Seq<u8>, at: int) -> int {
    bytes[at] as int + 256 * bytes[at + 1] as int + 65536 * bytes[at + 2] as int + 16777216
        * bytes[at + 3] as int
}

/// The four little-endian bytes of `value`.
pub open spec fn le32_bytes(value: u32) -> Seq<u8> {
    seq![
        (value % 256) as u8,
        ((value / 256) % 256) as u8,
        ((value / 65536) % 256) as u8,
        (value / 16777216) as u8,
    ]
}

/// The complete record that stores `payload`.
pub open spec fn record_bytes(payload: Seq<u8>) -> Seq<u8> {
    record_magic() + seq![
        RECORD_VERSION,
        0u8,
        (payload.len() % 256) as u8,
        (payload.len() / 256) as u8,
    ] + le32_bytes(crc32_spec(payload)) + payload
}

/// Where a record was found and what its header promises.
#[derive(Debug, Clone, Copy, PartialEq, Eq)]
pub struct RecordHeader {
    /// Number of payload bytes that follow the header.
    pub length: usize,
    /// CRC-32 the payload must have.
    pub checksum: u32,
}

/// What a header means, given how much room there is: `None` if it is not a
/// record of this format or promises more than fits.
pub open spec fn header_meaning(header: Seq<u8>, capacity: int, buffer_len: int) -> Option<
    RecordHeader,
> {
    if header.subrange(0, 4) != record_magic() || header[4] != RECORD_VERSION {
        None
    } else if le16(header, 6) > capacity || le16(header, 6) > buffer_len {
        None
    } else {
        Some(RecordHeader { length: le16(header, 6) as usize, checksum: le32(header, 8) as u32 })
    }
}

/// A named region of flash holding one record.
#[derive(Debug, Clone, Copy, PartialEq, Eq)]
pub struct FlashStore {
    /// Byte address of the partition in the flash.
    pub offset: u32,
    /// Length of the partition in bytes.
    pub size: u32,
}

impl FlashStore {
    /// How many payload bytes fit in the partition.
    pub open spec fn spec_capacity(&self) -> int {
        let room = if self.size as int >= RECORD_HEADER_SIZE as int {
            self.size as int - RECORD_HEADER_SIZE as int
        } else {
            0
        };
        if room < MAX_PAYLOAD_SIZE as int {
            room
        } else {
            MAX_PAYLOAD_SIZE as int
        }
    }

    /// How many payload bytes fit in the partition.
    pub fn capacity(&self) -> (capacity: usize)
        ensures
            capacity as int == self.spec_capacity(),
    {
        let size = self.size as usize;
        let room = if size >= RECORD_HEADER_SIZE { size - RECORD_HEADER_SIZE } else { 0 };
        if room < MAX_PAYLOAD_SIZE {
            room
        } else {
            MAX_PAYLOAD_SIZE
        }
    }

    /// Flash address of the record header.
    pub fn header_address(&self) -> (address: u32)
        ensures
            address == self.offset,
    {
        self.offset
    }

    /// Flash address of the payload, right behind the header.
    pub fn payload_address(&self) -> (address: Option<u32>)
        ensures
            address == if self.offset as int + RECORD_HEADER_SIZE as int <= u32::MAX as int {
                Some((self.offset + RECORD_HEADER_SIZE) as u32)
            } else {
                None::<u32>
            },
    {
        if self.offset <= u32::MAX - 12 {
            Some(self.offset + 12)
        } else {
            None
        }
    }

    /// Decide what a record header read from the partition means.
    ///
    /// `None` means there is nothing to restore, which covers every way that
    /// can happen: the slot was never written, it was written by another
    /// format, or the length is past the end of the partition or of the
    /// caller's buffer, so the header is not what it claims to be.
    pub fn parse_header(&self, header: &[u8; 12], buffer_len: usize) -> (parsed: Option<
        RecordHeader,
    >)
        ensures
            parsed == header_meaning(header@, self.spec_capacity(), buffer_len as int),
    {
        let magic_ok = header[0] == 0x42 && header[1] == 0x53 && header[2] == 0x45 && header[3]
            == 0x43;
        assert(magic_ok <==> header@.subrange(0, 4) == record_magic()) by {
            if magic_ok {
                assert(header@.subrange(0, 4) =~= record_magic());
            }
            if header@.subrange(0, 4) == record_magic() {
                assert(header@.subrange(0, 4)[0] == header@[0]);
                assert(header@.subrange(0, 4)[1] == header@[1]);
                assert(header@.subrange(0, 4)[2] == header@[2]);
                assert(header@.subrange(0, 4)[3] == header@[3]);
            }
        }
        if !magic_ok || header[4] != RECORD_VERSION {
            return None;
        }
        let length = (header[6] as usize) + 256 * (header[7] as usize);
        let checksum = (header[8] as u32) + 256 * (header[9] as u32) + 65536 * (header[10] as u32)
            + 16777216 * (header[11] as u32);
        if length > self.capacity() || length > buffer_len {
            return None;
        }
        Some(RecordHeader { length, checksum })
    }

    /// Build the record that stores `payload`, ready to be written to
    /// [`Self::header_address`] in one operation.
    ///
    /// Header and payload go out together, so the sector is erased once and
    /// the record is never on the flash in a state the header contradicts.
    pub fn encode_record(&self, payload: &[u8]) -> (record: Result<Vec<u8>, Error>)
        ensures
            match record {
                Ok(record) => payload@.len() <= self.spec_capacity() && record@ == record_bytes(
                    payload@,
                ),
                Err(error) => payload@.len() > self.spec_capacity() && error
                    == Error::PayloadTooLarge {
                    length: payload@.len() as usize,
                    capacity: self.spec_capacity() as usize,
                },
            },
    {
        let capacity = self.capacity();
        if payload.len() > capacity {
            return Err(Error::PayloadTooLarge { length: payload.len(), capacity });
        }
        let length = payload.len();
        let checksum = crc32(payload);
        let mut record: Vec<u8> = Vec::new();
        record.push(0x42);
        record.push(0x53);
        record.push(0x45);
        record.push(0x43);
        record.push(RECORD_VERSION);
        record.push(0);
        record.push((length % 256) as u8);
        record.push((length / 256) as u8);
        record.push((checksum % 256) as u8);
        record.push(((checksum / 256) % 256) as u8);
        record.push(((checksum / 65536) % 256) as u8);
        record.push((checksum / 16777216) as u8);
        let ghost header = record@;
        let mut index: usize = 0;
        while index < payload.len()
            invariant
                index <= payload.len(),
                record@ == header + payload@.subrange(0, index as int),
            decreases payload.len() - index,
        {
            record.push(payload[index]);
            assert(payload@.subrange(0, index as int + 1) =~= payload@.subrange(0, index as int).push(payload@[index as int]));
            assert(record@ =~= header + payload@.subrange(0, index as int + 1));
            index = index + 1;
        }
        assert(payload@.subrange(0, payload@.len() as int) =~= payload@);
        assert(record@ =~= record_bytes(payload@));
        Ok(record)
    }
}

/// Whether the payload read back is the one the header promised.
pub fn payload_intact(payload: &[u8], header: RecordHeader) -> (intact: bool)
    ensures
        intact == (payload@.len() == header.length && crc32_spec(payload@) == header.checksum),
{
    payload.len() == header.length && crc32(payload) == header.checksum
}

/// What saving then loading gives back: the header of a record this module
/// wrote is accepted whenever the payload fits the caller's buffer, it
/// promises exactly the payload's length and checksum, and the bytes behind
/// it are the payload, which then checks out.
pub proof fn lemma_load_returns_saved(store: FlashStore, payload: Seq<u8>, buffer_len: int)
    requires
        payload.len() <= store.spec_capacity(),
        payload.len() <= buffer_len,
    ensures
        ({
            let record = record_bytes(payload);
            &&& record.subrange(12, record.len() as int) == payload
            &&& header_meaning(record.subrange(0, 12), store.spec_capacity(), buffer_len) == Some(
                RecordHeader { length: payload.len() as usize, checksum: crc32_spec(payload) },
            )
        }),
{
    let record = record_bytes(payload);
    let header = record.subrange(0, 12);
    assert(record.subrange(12, record.len() as int) =~= payload);
    assert(header.subrange(0, 4) =~= record_magic());
    assert(header[4] == RECORD_VERSION);
    let n = payload.len();
    assert(n <= 512);
    assert(le16(header, 6) == n) by {
        assert(header[6] == (n % 256) as u8);
        assert(header[7] == (n / 256) as u8);
        assert((n % 256) as int + 256 * (n / 256) as int == n) by (nonlinear_arith)
            requires 0 <= n <= 512;
    }
    let c = crc32_spec(payload);
    assert(le32(header, 8) == c) by {
        assert(header[8] == (c % 256) as u8);
        assert(header[9] == ((c / 256) % 256) as u8);
        assert(header[10] == ((c / 65536) % 256) as u8);
        assert(header[11] == (c / 16777216) as u8);
        assert((c % 256) as int + 256 * ((c / 256) % 256) as int + 65536 * ((c / 65536) % 256) as int
            + 16777216 * (c / 16777216) as int == c) by (nonlinear_arith)
            requires 0 <= c < 0x1_0000_0000;
    }
}

/// What loading finds in the bytes at the start of the partition, for a
/// caller whose buffer holds `buffer_len` bytes: the payload, if the slot
/// starts with a header of this format whose payload fits, follows it and
/// checks out; nothing otherwise.
pub open spec fn load_result(slot: Seq<u8>, capacity: int, buffer_len: int) -> Option<Seq<u8>> {
    if slot.len() < RECORD_HEADER_SIZE {
        None
    } else {
        match header_meaning(slot.subrange(0, 12), capacity, buffer_len) {
            None => None,
            Some(header) => if slot.len() < 12 + header.length {
                None
            } else {
                let payload = slot.subrange(12, 12 + header.length);
                if crc32_spec(payload) == header.checksum {
                    Some(payload)
                } else {
                    None
                }
            },
        }
    }
}

impl FlashStore {
    /// Load the record from `slot`, the bytes read from the start of the
    /// partition, for a caller whose buffer holds `buffer_len` bytes.
    ///
    /// `None` covers every way there can be nothing to restore: a slot that
    /// was never written or was written by another format, a length past the
    /// partition, the buffer or the bytes read, and a payload whose checksum
    /// does not match, as a save cut short by a power loss leaves it.
    pub fn load_record(&self, slot: &[u8], buffer_len: usize) -> (payload: Option<Vec<u8>>)
        ensures
            match payload {
                Some(p) => load_result(slot@, self.spec_capacity(), buffer_len as int) == Some(p@),
                None => load_result(slot@, self.spec_capacity(), buffer_len as int) is None,
            },
    {
        if slot.len() < RECORD_HEADER_SIZE {
            return None;
        }
        let header: [u8; 12] = [
            slot[0],
            slot[1],
            slot[2],
            slot[3],
            slot[4],
            slot[5],
            slot[6],
            slot[7],
            slot[8],
            slot[9],
            slot[10],
            slot[11],
        ];
        assert(header@ =~= slot@.subrange(0, 12));
        let parsed = match self.parse_header(&header, buffer_len) {
            Some(parsed) => parsed,
            None => return None,
        };
        if slot.len() - RECORD_HEADER_SIZE < parsed.length {
            return None;
        }
        let mut payload: Vec<u8> = Vec::new();
        let mut index: usize = 0;
        while index < parsed.length
            invariant
                12 + parsed.length <= slot.len(),
                index <= parsed.length,
                payload@ == slot@.subrange(12, 12 + index),
            decreases parsed.length - index,
        {
            payload.push(slot[12 + index]);
            assert(payload@ =~= slot@.subrange(12, 12 + index + 1));
            index = index + 1;
        }
        if payload_intact(&payload, parsed) {
            Some(payload)
        } else {
            None
        }
    }
}

/// Saving then loading gives the payload back: a slot that starts with the
/// record of a payload that fits the partition and the caller's buffer loads
/// as exactly that payload, whatever follows the record.
pub proof fn lemma_load_after_save(
    store: FlashStore,
    payload: Seq<u8>,
    rest: Seq<u8>,
    buffer_len: int,
)
    requires
        payload.len() <= store.spec_capacity(),
        payload.len() <= buffer_len,
    ensures
        load_result(record_bytes(payload) + rest, store.spec_capacity(), buffer_len) == Some(
            payload,
        ),
{
    lemma_load_returns_saved(store, payload, buffer_len);
    let record = record_bytes(payload);
    let slot = record + rest;
    assert(record.len() == 12 + payload.len());
    assert(slot.subrange(0, 12) =~= record.subrange(0, 12));
    assert(slot.subrange(12, 12 + payload.len() as int) =~= record.subrange(12, record.len() as int));
}

/// The label of a partition entry: the label field up to its first NUL.
pub open spec fn spec_entry_label(entry: Seq<u8>) -> Seq<u8> {
    let field = entry.subrange(12, 28);
    let end = if exists|i: int| 0 <= i < 16 && field[i] == 0 {
        choose|i: int| 0 <= i < 16 && field[i] == 0 && forall|j: int| 0 <= j < i ==> field[j] != 0
    } else {
        16
    };
    field.subrange(0, end)
}

/// The label of a partition entry, without the padding that follows it.
pub fn entry_label(entry: &[u8; 32]) -> (label: Vec<u8>)
    ensures
        label@ == spec_entry_label(entry@),
{
    let ghost field = entry@.subrange(12, 28);
    let mut label: Vec<u8> = Vec::new();
    let mut index: usize = 0;
    while index < 16 && entry[12 + index] != 0
        invariant
            field == entry@.subrange(12, 28),
            index <= 16,
            label@ == field.subrange(0, index as int),
            forall|j: int| 0 <= j < index ==> field[j] != 0,
        decreases 16 - index,
    {
        label.push(entry[12 + index]);
        assert(field.subrange(0, index as int + 1) =~= field.subrange(0, index as int).push(field[index as int]));
        index = index + 1;
    }
    proof {
        if index < 16 {
            assert(field[index as int] == 0);
            let chosen = choose|i: int| 0 <= i < 16 && field[i] == 0 && forall|j: int| 0 <= j < i ==> field[j] != 0;
            assert(0 <= chosen < 16 && field[chosen] == 0 && forall|j: int| 0 <= j < chosen ==> field[j] != 0);
            if chosen < index {
                assert(field[chosen] != 0);
            }
            if chosen > index {
                assert(field[index as int] != 0);
            }
            assert(chosen == index);
        } else {
            assert(!(exists|i: int| 0 <= i < 16 && field[i] == 0));
        }
    }
    label
}

/// Whether an entry carries the partition-table magic.
pub open spec fn has_magic(entry: Seq<u8>) -> bool {
    entry[0] == PARTITION_MAGIC_0 && entry[1] == PARTITION_MAGIC_1
}

/// What one partition-table entry tells the scan.
#[derive(Debug, Clone, Copy, PartialEq, Eq)]
pub enum ScanStep {
    /// Keep reading: this entry is some other partition.
    Continue,
    /// The partition was found here.
    Found(FlashStore),
    /// The table ended, or the bound on its size was reached, without a match.
    Missing,
}

/// Walks the partition table one entry at a time, looking for one label.
///
/// The caller reads the entry at [`PartitionScan::next_entry_address`] and
/// hands it to [`PartitionScan::feed`] until the scan answers.
pub struct PartitionScan {
    /// Index of the next entry to read.
    index: usize,
    /// Whether the scan has answered.
    done: bool,
}

impl PartitionScan {
    /// Index of the next entry the scan wants.
    pub closed spec fn spec_index(&self) -> int {
        self.index as int
    }

    /// Whether the scan has answered.
    pub closed spec fn spec_done(&self) -> bool {
        self.done
    }

    /// A scan that starts at the first entry.
    pub fn new() -> (scan: Self)
        ensures
            scan.spec_index() == 0,
            !scan.spec_done(),
    {
        PartitionScan { index: 0, done: false }
    }

    /// Flash address of the next entry to read, or `None` once the scan has
    /// answered.
    pub fn next_entry_address(&self) -> (address: Option<u32>)
        requires
            self.spec_index() < MAX_PARTITION_ENTRIES,
        ensures
            address == if self.spec_done() {
                None::<u32>
            } else {
                Some((PARTITION_TABLE_OFFSET + self.spec_index() * PARTITION_ENTRY_SIZE) as u32)
            },
    {
        if self.done {
            None
        } else {
            Some(PARTITION_TABLE_OFFSET + (self.index as u32) * 32)
        }
    }

    /// Look at the entry just read.
    ///
    /// The table has no length field: it ends where the magic stops matching,
    /// and at most [`MAX_PARTITION_ENTRIES`] entries are looked at.
    pub fn feed(&mut self, entry: &[u8; 32], label: &[u8]) -> (step: ScanStep)
        requires
            !old(self).spec_done(),
            old(self).spec_index() < MAX_PARTITION_ENTRIES,
        ensures
            step == if !has_magic(entry@) {
                ScanStep::Missing
            } else if spec_entry_label(entry@) == label@ {
                ScanStep::Found(
                    FlashStore { offset: le32(entry@, 4) as u32, size: le32(entry@, 8) as u32 },
                )
            } else if old(self).spec_index() + 1 == MAX_PARTITION_ENTRIES {
                ScanStep::Missing
            } else {
                ScanStep::Continue
            },
            final(self).spec_done() == !(step is Continue),
            final(self).spec_index() == if step is Continue {
                old(self).spec_index() + 1
            } else {
                old(self).spec_index()
            },
            final(self).spec_index() < MAX_PARTITION_ENTRIES,
    {
        if entry[0] != PARTITION_MAGIC_0 || entry[1] != PARTITION_MAGIC_1 {
            self.done = true;
            return ScanStep::Missing;
        }
        let found = entry_label(entry);
        let mut same = found.len() == label.len();
        let mut index: usize = 0;
        while same && index < found.len()
            invariant
                index <= found.len(),
                same ==> found@.len() == label@.len(),
                same ==> found@.subrange(0, index as int) == label@.subrange(0, index as int),
                !same ==> found@ != label@,
            decreases found.len() - index,
        {
            if found[index] != label[index] {
                same = false;
                assert(found@[index as int] != label@[index as int]);
            } else {
                assert(found@.subrange(0, index as int + 1) =~= found@.subrange(0, index as int).push(found@[index as int]));
                assert(label@.subrange(0, index as int + 1) =~= label@.subrange(0, index as int).push(label@[index as int]));
            }
            index = index + 1;
        }
        if same {
            assert(found@ =~= found@.subrange(0, found@.len() as int));
            assert(label@ =~= label@.subrange(0, label@.len() as int));
            self.done = true;
            let offset = (entry[4] as u32) + 256 * (entry[5] as u32) + 65536 * (entry[6] as u32)
                + 16777216 * (entry[7] as u32);
            let size = (entry[8] as u32) + 256 * (entry[9] as u32) + 65536 * (entry[10] as u32)
                + 16777216 * (entry[11] as u32);
            return ScanStep::Found(FlashStore { offset, size });
        }
        if self.index + 1 == MAX_PARTITION_ENTRIES {
            self.done = true;
            return ScanStep::Missing;
        }
        self.index = self.index + 1;
        ScanStep::Continue
    }
}

} // verus!
