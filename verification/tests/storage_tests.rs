use xiao_esp32s3::crc::crc32;
use xiao_esp32s3::flash_store::{
    entry_label, payload_intact, Error, FlashStore, PartitionScan, RecordHeader, ScanStep,
};
use xiao_esp32s3::history::{MeasurementHistory, Sample};
use xiao_esp32s3::http::SensorKind;
use xiao_esp32s3::psram::Psram;
use xiao_esp32s3::shared_state::{
    capacity_for, HistoryStatus, SensorRecord, AS7343_CAPACITY, BME690_CAPACITY, HISTORY_WINDOW_MS,
    SCD41_CAPACITY, SPS30_CAPACITY,
};

fn history(capacity: usize) -> MeasurementHistory<u32> {
    MeasurementHistory::new(vec![None; capacity])
}

#[test]
fn new_history_is_empty() {
    let h = history(3);
    assert_eq!(h.capacity(), 3);
    assert_eq!(h.len(), 0);
    assert_eq!(h.first_sequence(), 0);
    assert_eq!(h.next_sequence(), 0);
    assert_eq!(h.get(0), None);
    assert_eq!(h.get_oldest(0), None);
}

#[test]
fn history_keeps_the_newest_values_in_order() {
    let mut h = history(3);
    for value in [10, 20, 30, 40, 50] {
        h.push(value);
    }
    assert_eq!(h.len(), 3);
    assert_eq!(h.first_sequence(), 2);
    assert_eq!(h.next_sequence(), 5);
    assert_eq!(h.get_oldest(0), Some(30));
    assert_eq!(h.get_oldest(1), Some(40));
    assert_eq!(h.get_oldest(2), Some(50));
    assert_eq!(h.get_oldest(3), None);
}

#[test]
fn a_reading_keeps_its_sequence_number_until_overwritten() {
    let mut h = history(2);
    h.push(7);
    assert_eq!(h.get(0), Some(7));
    h.push(8);
    assert_eq!(h.get(0), Some(7));
    assert_eq!(h.get(1), Some(8));
    h.push(9);
    assert_eq!(h.get(0), None);
    assert_eq!(h.get(1), Some(8));
    assert_eq!(h.get(2), Some(9));
    assert_eq!(h.get(3), None);
}

#[test]
fn single_slot_history_holds_the_last_value() {
    let mut h = history(1);
    h.push(1);
    h.push(2);
    assert_eq!(h.len(), 1);
    assert_eq!(h.get(1), Some(2));
    assert_eq!(h.get(0), None);
}

#[test]
fn history_capacities_cover_one_day() {
    assert_eq!(capacity_for(10_000), 8640);
    assert_eq!(capacity_for(5000), 17_280);
    assert_eq!(SCD41_CAPACITY as u64, HISTORY_WINDOW_MS / 10_000);
    assert_eq!(SPS30_CAPACITY, 17_280);
    assert_eq!(BME690_CAPACITY, 14_400);
    assert_eq!(AS7343_CAPACITY, 17_280);
}

#[test]
fn absent_history_reports_nothing_and_drops_readings() {
    let mut record: SensorRecord<u16> = SensorRecord::absent(10_000, 8640);
    assert_eq!(record.status(), HistoryStatus::absent(10_000));
    record.publish(5, 100);
    assert_eq!(record.status().len, 0);
    assert_eq!(record.reading(0), None);
}

#[test]
fn reserved_history_publishes_with_sequence_numbers() {
    let mut record: SensorRecord<u16> = SensorRecord::absent(5000, 2);
    assert_eq!(record.planned_capacity(), 2);
    record.reserve(vec![None; 2]);
    record.publish(11, 1000);
    record.publish(12, 6000);
    record.publish(13, 11_000);
    let status = record.status();
    assert_eq!(
        status,
        HistoryStatus {
            interval_ms: 5000,
            capacity: 2,
            len: 2,
            first_sequence: 1,
            next_sequence: 3
        }
    );
    assert_eq!(record.reading(0), None);
    assert_eq!(
        record.reading(2),
        Some(Sample {
            value: 13,
            taken_at_ms: 11_000
        })
    );
}

fn store() -> FlashStore {
    FlashStore {
        offset: 0x3F_0000,
        size: 0x1000,
    }
}

#[test]
fn capacity_is_limited_by_partition_and_payload_cap() {
    assert_eq!(store().capacity(), 512);
    assert_eq!(FlashStore { offset: 0, size: 100 }.capacity(), 88);
    assert_eq!(FlashStore { offset: 0, size: 8 }.capacity(), 0);
}

#[test]
fn record_layout_is_magic_version_length_crc_payload() {
    let payload = [1u8, 2, 3];
    let record = store().encode_record(&payload).unwrap();
    let crc = crc32(&payload).to_le_bytes();
    assert_eq!(
        record,
        vec![b'B', b'S', b'E', b'C', 1, 0, 3, 0, crc[0], crc[1], crc[2], crc[3], 1, 2, 3]
    );
}

#[test]
fn saved_record_loads_back() {
    let payload: Vec<u8> = (0..200u16).map(|v| (v * 7) as u8).collect();
    let record = store().encode_record(&payload).unwrap();
    let mut header = [0u8; 12];
    header.copy_from_slice(&record[..12]);
    let parsed = store().parse_header(&header, 512).unwrap();
    assert_eq!(
        parsed,
        RecordHeader {
            length: 200,
            checksum: crc32(&payload)
        }
    );
    assert!(payload_intact(&record[12..], parsed));
}

#[test]
fn oversized_payload_is_refused() {
    let small = FlashStore { offset: 0, size: 20 };
    assert_eq!(
        small.encode_record(&[0u8; 9]),
        Err(Error::PayloadTooLarge {
            length: 9,
            capacity: 8
        })
    );
}

#[test]
fn erased_flash_holds_no_record() {
    assert_eq!(store().parse_header(&[0xFF; 12], 512), None);
}

#[test]
fn header_longer_than_the_buffer_is_refused() {
    let record = store().encode_record(&[9u8; 100]).unwrap();
    let mut header = [0u8; 12];
    header.copy_from_slice(&record[..12]);
    assert_eq!(store().parse_header(&header, 99), None);
    assert!(store().parse_header(&header, 100).is_some());
}

#[test]
fn corrupted_payload_is_detected() {
    let payload = [5u8; 16];
    let record = store().encode_record(&payload).unwrap();
    let mut header = [0u8; 12];
    header.copy_from_slice(&record[..12]);
    let parsed = store().parse_header(&header, 512).unwrap();
    let mut damaged = record[12..].to_vec();
    damaged[3] ^= 0x40;
    assert!(!payload_intact(&damaged, parsed));
}

#[test]
fn payload_address_follows_the_header() {
    assert_eq!(store().header_address(), 0x3F_0000);
    assert_eq!(store().payload_address(), Some(0x3F_000C));
    assert_eq!(
        FlashStore {
            offset: u32::MAX - 4,
            size: 64
        }
        .payload_address(),
        None
    );
}

fn partition_entry(label: &[u8], offset: u32, size: u32) -> [u8; 32] {
    let mut entry = [0u8; 32];
    entry[0] = 0xAA;
    entry[1] = 0x50;
    entry[4..8].copy_from_slice(&offset.to_le_bytes());
    entry[8..12].copy_from_slice(&size.to_le_bytes());
    entry[12..12 + label.len()].copy_from_slice(label);
    entry
}

#[test]
fn entry_label_stops_at_the_first_nul() {
    assert_eq!(entry_label(&partition_entry(b"nvs", 0, 0)), b"nvs".to_vec());
    assert_eq!(
        entry_label(&partition_entry(b"sixteen_chars_xx", 0, 0)),
        b"sixteen_chars_xx".to_vec()
    );
}

#[test]
fn partition_scan_finds_the_labelled_entry() {
    let mut scan = PartitionScan::new();
    assert_eq!(scan.next_entry_address(), Some(0x8000));
    assert_eq!(
        scan.feed(&partition_entry(b"nvs", 0x9000, 0x6000), b"bsec_state"),
        ScanStep::Continue
    );
    assert_eq!(scan.next_entry_address(), Some(0x8020));
    assert_eq!(
        scan.feed(&partition_entry(b"bsec_state", 0x3F_0000, 0x1000), b"bsec_state"),
        ScanStep::Found(FlashStore {
            offset: 0x3F_0000,
            size: 0x1000
        })
    );
    assert_eq!(scan.next_entry_address(), None);
}

#[test]
fn partition_scan_stops_at_the_end_of_the_table() {
    let mut scan = PartitionScan::new();
    assert_eq!(
        scan.feed(&partition_entry(b"nvs", 0x9000, 0x6000), b"bsec_state"),
        ScanStep::Continue
    );
    assert_eq!(scan.feed(&[0xFF; 32], b"bsec_state"), ScanStep::Missing);
    assert_eq!(scan.next_entry_address(), None);
}

#[test]
fn psram_reserves_aligned_disjoint_blocks() {
    let mut psram = Psram::new(0x3C00_0001, 1000);
    assert_eq!(psram.free_bytes(), 1000);
    let first = psram.reserve(4, 4, 10).unwrap();
    assert_eq!(first, 0x3C00_0004);
    assert_eq!(psram.free_bytes(), 1000 - 43);
    let second = psram.reserve(8, 8, 2).unwrap();
    assert_eq!(second, 0x3C00_0030);
    assert!(second >= first + 40);
    assert_eq!(psram.free_bytes(), 1000 - 63);
}

#[test]
fn psram_refuses_a_block_that_does_not_fit() {
    let mut psram = Psram::new(0x1000, 64);
    assert_eq!(psram.reserve(1, 1, 65), None);
    assert_eq!(psram.free_bytes(), 64);
    assert_eq!(psram.reserve(1, usize::MAX, 2), None);
    assert_eq!(psram.reserve(1, 1, 64), Some(0x1000));
    assert_eq!(psram.free_bytes(), 0);
}

#[test]
fn served_sensors_have_their_interval_and_a_day_of_capacity() {
    let mut record: SensorRecord<u16> = SensorRecord::for_sensor(SensorKind::Scd41);
    assert_eq!(record.status(), HistoryStatus::absent(10_000));
    assert_eq!(record.planned_capacity(), 8640);
    record.reserve(vec![None; 8640]);
    record.publish(1, 5);
    let status = record.status();
    assert_eq!((status.interval_ms, status.capacity, status.len), (10_000, 8640, 1));
    let bme: SensorRecord<u16> = SensorRecord::for_sensor(SensorKind::Bme690);
    assert_eq!((bme.status().interval_ms, bme.planned_capacity()), (6000, 14_400));
}

fn slot_with(record: &[u8], trailing: usize) -> Vec<u8> {
    let mut slot = record.to_vec();
    slot.extend(std::iter::repeat(0xFFu8).take(trailing));
    slot
}

#[test]
fn load_record_returns_what_was_saved() {
    let payload: Vec<u8> = (0..200u16).map(|v| (v * 3) as u8).collect();
    let record = store().encode_record(&payload).unwrap();
    assert_eq!(store().load_record(&slot_with(&record, 40), 255), Some(payload.clone()));
    assert_eq!(store().load_record(&record, 200), Some(payload));
}

#[test]
fn load_record_refuses_what_cannot_be_restored() {
    let payload = [7u8; 30];
    let record = store().encode_record(&payload).unwrap();
    // Buffer too small for the payload.
    assert_eq!(store().load_record(&record, 29), None);
    // Slot cut short before the payload ends.
    assert_eq!(store().load_record(&record[..20], 255), None);
    assert_eq!(store().load_record(&record[..5], 255), None);
    // Damaged payload.
    let mut damaged = record.clone();
    damaged[15] ^= 1;
    assert_eq!(store().load_record(&damaged, 255), None);
    // Erased flash.
    assert_eq!(store().load_record(&[0xFF; 64], 255), None);
    // An empty payload loads as an empty payload.
    let empty = store().encode_record(&[]).unwrap();
    assert_eq!(store().load_record(&empty, 0), Some(Vec::new()));
}
