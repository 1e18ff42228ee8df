use xiao_esp32s3::crc::{crc32, crc8};
use xiao_esp32s3::scd41;
use xiao_esp32s3::sensirion::{decode_words, encode_words, CrcMismatch};
use xiao_esp32s3::sht41;
use xiao_esp32s3::sps30;

#[test]
fn crc8_matches_sensirion_datasheet_example() {
    assert_eq!(crc8(&[0xBE, 0xEF]), 0x92);
}

#[test]
fn crc8_of_nothing_is_the_initial_value() {
    assert_eq!(crc8(&[]), 0xFF);
}

#[test]
fn crc8_of_zero_word() {
    assert_eq!(crc8(&[0x00, 0x00]), 0x81);
}

#[test]
fn crc32_check_value() {
    assert_eq!(crc32(b"123456789"), 0xCBF4_3926);
}

#[test]
fn crc32_of_nothing_is_zero() {
    assert_eq!(crc32(&[]), 0);
}

#[test]
fn crc32_of_hello() {
    assert_eq!(crc32(b"hello"), 0x3610_A686);
}

#[test]
fn decode_words_strips_crcs_in_order() {
    let raw = [0xBE, 0xEF, 0x92, 0x12, 0x34, 0x37, 0x56, 0x78, 0x7D];
    assert_eq!(decode_words(&raw), Ok(vec![0xBEEF, 0x1234, 0x5678]));
}

#[test]
fn decode_words_rejects_a_corrupted_crc() {
    let raw = [0xBE, 0xEF, 0x92, 0x12, 0x34, 0x38];
    assert_eq!(decode_words(&raw), Err(CrcMismatch::Crc));
}

#[test]
fn decode_words_ignores_a_trailing_partial_group() {
    let raw = [0xBE, 0xEF, 0x92, 0x12];
    assert_eq!(decode_words(&raw), Ok(vec![0xBEEF]));
}

#[test]
fn encode_words_frames_each_word_with_its_crc() {
    assert_eq!(
        encode_words(&[0x1234, 0x5678]),
        vec![0x12, 0x34, 0x37, 0x56, 0x78, 0x7D]
    );
}

#[test]
fn encode_then_decode_round_trips() {
    let words = [0x0000, 0x0001, 0xFFFF, 0xBEEF, 0x8000];
    let raw = encode_words(&words);
    assert_eq!(raw.len(), 15);
    assert_eq!(decode_words(&raw), Ok(words.to_vec()));
}

#[test]
fn sht41_commands_and_delays() {
    assert_eq!(sht41::Precision::High.command(), 0xFD);
    assert_eq!(sht41::Precision::Medium.command(), 0xF6);
    assert_eq!(sht41::Precision::Low.command(), 0xE0);
    assert_eq!(sht41::Precision::High.conversion_delay_ms(), 10);
    assert_eq!(sht41::Precision::Low.conversion_delay_ms(), 2);
    assert_eq!(sht41::HeaterPulse::Power200mW1s.command(), 0x39);
    assert_eq!(sht41::HeaterPulse::Power20mW100ms.command(), 0x15);
    assert_eq!(sht41::HeaterPulse::Power200mW1s.execution_delay_ms(), 1100);
    assert_eq!(sht41::HeaterPulse::Power110mW100ms.execution_delay_ms(), 110);
}

#[test]
fn sht41_measurement_reply_decodes_both_words() {
    let raw = [0x66, 0x66, 0x93, 0x55, 0x55, 0x9A];
    assert_eq!(
        sht41::measurement_from_reply(&raw),
        Ok(sht41::Measurement {
            temperature_raw: 0x6666,
            humidity_raw: 0x5555
        })
    );
}

#[test]
fn sht41_measurement_reply_with_bad_crc_is_refused() {
    let raw = [0x66, 0x66, 0x93, 0x55, 0x55, 0x00];
    assert_eq!(sht41::measurement_from_reply(&raw), Err(CrcMismatch::Crc));
}

#[test]
fn sht41_serial_number_joins_the_two_words() {
    let raw = [0x12, 0x34, 0x37, 0x56, 0x78, 0x7D];
    assert_eq!(sht41::serial_number_from_reply(&raw), Ok(0x1234_5678));
}

#[test]
fn scd41_command_bytes_are_big_endian() {
    assert_eq!(scd41::command_bytes(scd41::CMD_READ_MEASUREMENT), [0xEC, 0x05]);
    assert_eq!(scd41::command_bytes(0x3F86), [0x3F, 0x86]);
}

#[test]
fn scd41_measurement_reply_decodes_three_words() {
    let raw = [0x01, 0xF4, 0x33, 0x66, 0x67, 0xA2, 0x5E, 0xB9, 0x3C];
    assert_eq!(
        scd41::measurement_from_reply(&raw),
        Ok(scd41::Measurement {
            co2_ppm: 500,
            temperature_raw: 0x6667,
            humidity_raw: 0x5EB9
        })
    );
}

#[test]
fn scd41_serial_number_is_48_bits() {
    let raw = [0xBE, 0xEF, 0x92, 0x12, 0x34, 0x37, 0x56, 0x78, 0x7D];
    assert_eq!(scd41::serial_number_from_reply(&raw), Ok(0xBEEF_1234_5678));
}

#[test]
fn scd41_corrupted_reply_is_refused() {
    let raw = [0x01, 0xF4, 0x33, 0x66, 0x67, 0xA2, 0x5E, 0xB9, 0x3D];
    assert_eq!(scd41::read_three_words(&raw), Err(CrcMismatch::Crc));
    assert_eq!(scd41::read_word(&[0x00, 0x01, 0xB0]), Ok(1));
}

#[test]
fn scd41_sensor_variant_from_top_nibble() {
    assert_eq!(scd41::SensorVariant::from_raw(0x1440), scd41::SensorVariant::Scd41);
    assert_eq!(scd41::SensorVariant::from_raw(0x0440), scd41::SensorVariant::Scd40);
    assert_eq!(scd41::SensorVariant::from_raw(0x5000), scd41::SensorVariant::Scd43);
    assert_eq!(scd41::SensorVariant::from_raw(0x3000), scd41::SensorVariant::Unknown(3));
}

#[test]
fn scd41_ambient_pressure_and_self_calibration() {
    assert_eq!(scd41::ambient_pressure_pascals(1013), 101_300);
    assert!(scd41::automatic_self_calibration_enabled(1));
    assert!(!scd41::automatic_self_calibration_enabled(0));
}

#[test]
fn sps30_command_with_argument_carries_the_argument_crc() {
    assert_eq!(
        sps30::command_with_argument(sps30::CMD_START_MEASUREMENT, sps30::MEASUREMENT_FORMAT_FLOAT),
        [0x00, 0x10, 0x03, 0x00, crc8(&[0x03, 0x00])]
    );
}

#[test]
fn sps30_strip_crc_keeps_only_data_bytes() {
    let raw = [0xBE, 0xEF, 0x92, 0x12, 0x34, 0x37];
    let mut data = [0u8; 4];
    assert_eq!(sps30::strip_crc(&raw, &mut data), Ok(()));
    assert_eq!(data, [0xBE, 0xEF, 0x12, 0x34]);
}

#[test]
fn sps30_strip_crc_stops_at_the_first_bad_group() {
    let raw = [0xBE, 0xEF, 0x92, 0x12, 0x34, 0x00];
    let mut data = [0u8; 4];
    assert_eq!(sps30::strip_crc(&raw, &mut data), Err(CrcMismatch::Crc));
    assert_eq!(data, [0xBE, 0xEF, 0x00, 0x00]);
}

#[test]
fn sps30_data_ready_flag() {
    assert_eq!(sps30::data_ready_from_reply(&[0x00, 0x01, 0xB0]), Ok(true));
    assert_eq!(sps30::data_ready_from_reply(&[0x00, 0x00, 0x81]), Ok(false));
    assert_eq!(sps30::data_ready_from_reply(&[0x00, 0x01, 0x00]), Err(CrcMismatch::Crc));
}

#[test]
fn sps30_serial_number_ends_at_the_first_nul() {
    let mut text = [0u8; 32];
    text[..6].copy_from_slice(b"ABC123");
    let mut words = [0u16; 16];
    for (i, word) in words.iter_mut().enumerate() {
        *word = u16::from_be_bytes([text[2 * i], text[2 * i + 1]]);
    }
    let raw = encode_words(&words);
    let mut reply = [0u8; 48];
    reply.copy_from_slice(&raw);
    let (data, len) = sps30::serial_number_from_reply(&reply).unwrap();
    assert_eq!(len, 6);
    assert_eq!(&data[..len], b"ABC123");
}

#[test]
fn sps30_measured_values_are_big_endian_words() {
    let mut words = [0u16; 20];
    // 1.5f32 and 25.0f32 as the first two values.
    let first = 1.5f32.to_bits();
    let second = 25.0f32.to_bits();
    words[0] = (first >> 16) as u16;
    words[1] = first as u16;
    words[2] = (second >> 16) as u16;
    words[3] = second as u16;
    let raw = encode_words(&words);
    let mut reply = [0u8; 60];
    reply.copy_from_slice(&raw);
    let values = sps30::measured_values_from_reply(&reply).unwrap();
    assert_eq!(f32::from_bits(values[0]), 1.5);
    assert_eq!(f32::from_bits(values[1]), 25.0);
    assert_eq!(values[2], 0);
    reply[59] ^= 1;
    assert_eq!(sps30::measured_values_from_reply(&reply), Err(CrcMismatch::Crc));
}
