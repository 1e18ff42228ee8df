use xiao_esp32s3::as7343;
use xiao_esp32s3::bme690;
use xiao_esp32s3::bmm350;
use xiao_esp32s3::bmp581;
use xiao_esp32s3::i2c_bus::{progress_bar, retry_after, I2cScanResult};
use xiao_esp32s3::mlx90640;
use xiao_esp32s3::opt4048;
use xiao_esp32s3::registers::{masked_update, masked_update_u16, sign_extend};

#[test]
fn masked_update_replaces_only_the_masked_bits() {
    assert_eq!(masked_update(0b1010_1010, 0b0000_1111, 0b0101_0101), 0b1010_0101);
    assert_eq!(masked_update(0xFF, 0x00, 0x00), 0xFF);
    assert_eq!(masked_update_u16(0x1234, 0x0F00, 0xFFFF), 0x1F34);
}

#[test]
fn sign_extend_reads_twos_complement_fields() {
    assert_eq!(sign_extend(0x7FF, 12), 2047);
    assert_eq!(sign_extend(0x800, 12), -2048);
    assert_eq!(sign_extend(0xFFF, 12), -1);
    assert_eq!(sign_extend(0x1FFF, 12), -1);
    assert_eq!(sign_extend(0x80_0000, 24), -8_388_608);
    assert_eq!(sign_extend(1, 1), -1);
}

#[test]
fn bmp581_configuration_bits() {
    let configuration = bmp581::Configuration::default();
    assert_eq!(configuration.osr_config(), 0 + 8 * 4 + 64);
    assert_eq!(configuration.dsp_iir(), 0);
    assert_eq!(configuration.dsp_config(), 4);
    assert_eq!(bmp581::power_mode_bits(bmp581::PowerMode::Forced), 0x80 | 2);
    assert_eq!(bmp581::Oversampling::X16.factor(), 16);
    assert_eq!(bmp581::Oversampling::from_raw(0x0B), bmp581::Oversampling::X8);
}

#[test]
fn bmp581_measurement_decodes_signed_temperature() {
    let measurement = bmp581::measurement_from_data(&[0x00, 0x00, 0xFF, 0x40, 0x2C, 0x19]);
    assert_eq!(measurement.temperature_raw, -65536);
    assert_eq!(measurement.pressure_raw, 0x19_2C40);
    let warm = bmp581::measurement_from_data(&[0x00, 0x00, 0x19, 0, 0, 0]);
    assert_eq!(warm.temperature_raw, 25 * 65536);
}

#[test]
fn bmp581_checks() {
    assert_eq!(bmp581::check_chip_id(0x50), Ok(()));
    assert_eq!(bmp581::check_chip_id(0x51), Ok(()));
    assert_eq!(bmp581::check_chip_id(0x60), Err(bmp581::Error::InvalidChipId(0x60)));
    assert_eq!(bmp581::check_reset(0x10), Ok(()));
    assert_eq!(bmp581::check_reset(0x00), Err(bmp581::Error::ResetFailed));
    assert_eq!(bmp581::check_nvm_ready(0x02), Ok(()));
    assert_eq!(bmp581::check_nvm_ready(0x06), Err(bmp581::Error::NvmNotReady(0x06)));
    assert_eq!(bmp581::check_nvm_ready(0x00), Err(bmp581::Error::NvmNotReady(0x00)));
    assert!(bmp581::data_ready(0x01));
    assert!(!bmp581::data_ready(0x10));
    let effective = bmp581::EffectiveOversampling::from_raw(0b1010_0011);
    assert_eq!(effective.temperature, bmp581::Oversampling::X8);
    assert_eq!(effective.pressure, bmp581::Oversampling::X16);
    assert!(effective.odr_is_valid);
}

#[test]
fn opt4048_channel_codes() {
    let mut block = [0u8; 16];
    // X: exponent 3, mantissa 0x1_2345, counter 5, crc 0xA.
    block[0..4].copy_from_slice(&[0x31, 0x23, 0x45, 0x5A]);
    // Y: exponent 0, mantissa 0xF_FFFF.
    block[4..8].copy_from_slice(&[0x0F, 0xFF, 0xFF, 0x00]);
    let measurement = opt4048::measurement_from_block(&block, opt4048::Flags::from_raw(0x0C));
    let x = measurement.channel(opt4048::Channel::X);
    assert_eq!(x.exponent, 3);
    assert_eq!(x.mantissa, 0x1_2345);
    assert_eq!(x.counter, 5);
    assert_eq!(x.crc, 0xA);
    assert_eq!(measurement.adc_code(opt4048::Channel::X), 0x1_2345 << 3);
    assert_eq!(measurement.adc_code(opt4048::Channel::Y), 0xF_FFFF);
    assert_eq!(measurement.adc_code(opt4048::Channel::Wideband), 0);
    assert!(measurement.overload);
}

#[test]
fn opt4048_configuration_and_checks() {
    let configuration = opt4048::Configuration::default();
    assert_eq!(configuration.measurement_time_us(), 400_000);
    assert_eq!(
        configuration.control_word(opt4048::OperatingMode::Continuous),
        12 * 1024 + 8 * 64 + 3 * 16 + 8
    );
    assert_eq!(opt4048::Range::from_raw(12), Some(opt4048::Range::Auto));
    assert_eq!(opt4048::Range::from_raw(7), None);
    assert_eq!(opt4048::Range::Lux9k.full_scale_lux(), Some(9000));
    assert_eq!(opt4048::ConversionTime::from_raw(11), Some(opt4048::ConversionTime::Ms800));
    assert_eq!(opt4048::ConversionTime::from_raw(12), None);
    assert_eq!(opt4048::ConversionTime::Ms1_8.microseconds(), 1800);
    assert_eq!(
        opt4048::OperatingMode::from_control(0x3238),
        opt4048::OperatingMode::Continuous
    );
    assert_eq!(opt4048::threshold_channel_bits(opt4048::Channel::Z), 64);
    assert_eq!(opt4048::check_device_id(0x0821), Ok(()));
    assert_eq!(
        opt4048::check_device_id(0x0820),
        Err(opt4048::Error::InvalidDeviceId(0x0820))
    );
}

#[test]
fn as7343_gain_codes_round_trip() {
    assert_eq!(as7343::Gain::from_raw(9), Some(as7343::Gain::Gain256x));
    assert_eq!(as7343::Gain::from_raw(13), None);
    assert_eq!(as7343::Gain::Gain2048x.raw(), 12);
    for code in 0..=12u8 {
        assert_eq!(as7343::Gain::from_raw(code).unwrap().raw(), code);
    }
}

#[test]
fn as7343_channels_and_wavelengths() {
    assert_eq!(as7343::Channel::F1.wavelength_nm(), Some(405));
    assert_eq!(as7343::Channel::Nir.wavelength_nm(), Some(855));
    assert_eq!(as7343::Channel::Visible2.wavelength_nm(), None);
    assert_eq!(as7343::Channel::FlickerDetect3.index(), 17);
    let wavelengths: Vec<u16> = as7343::SPECTRAL_CHANNELS
        .iter()
        .map(|c| c.wavelength_nm().unwrap())
        .collect();
    assert_eq!(
        wavelengths,
        vec![405, 425, 450, 475, 515, 550, 555, 600, 640, 690, 745, 855]
    );
}

#[test]
fn as7343_readout_decodes_counts_gain_and_saturation() {
    let mut raw = [0u8; 37];
    raw[0] = 0xF9;
    for i in 0..18 {
        let count = (1000 + i * 257) as u16;
        raw[1 + 2 * i..3 + 2 * i].copy_from_slice(&count.to_le_bytes());
    }
    let measurement = as7343::measurement_from_readout(0b0101_1000, &raw);
    assert_eq!(measurement.gain, Some(as7343::Gain::Gain256x));
    assert!(measurement.analog_saturation);
    assert!(measurement.digital_saturation);
    assert!(measurement.saturated());
    assert_eq!(measurement.channel(as7343::Channel::Fz), 1000);
    assert_eq!(measurement.channel(as7343::Channel::F1), 1000 + 12 * 257);
    assert!(as7343::measurement_valid(0x40));
    assert!(!as7343::measurement_valid(0x18));
}

#[test]
fn as7343_timing_led_and_bank() {
    let configuration = as7343::Configuration {
        gain: as7343::Gain::Gain256x,
        atime: 29,
        astep: 599,
    };
    assert_eq!(configuration.integration_time_us(), 50_040);
    assert_eq!(configuration.measurement_time_us(), 150_120);
    let used = as7343::Configuration {
        gain: as7343::Gain::Gain1024x,
        atime: 254,
        astep: 256,
    };
    assert_eq!(used.integration_time_us(), 182_187);
    assert_eq!(as7343::astep_bytes(0x0257), (0x57, 0x02));
    assert_eq!(as7343::led_register_value(true, 4), 0x80);
    assert_eq!(as7343::led_register_value(true, 0), 0x80);
    assert_eq!(as7343::led_register_value(false, 13), 4);
    assert_eq!(as7343::led_register_value(true, 1000), 0x80 | 127);
    let mut bank = as7343::BankTracker::new();
    assert_eq!(bank.select(false), None);
    assert_eq!(bank.select(true), Some(0x10));
    assert_eq!(bank.select(true), None);
    assert_eq!(bank.select(false), Some(0));
    let identification = as7343::Identification {
        auxid: 0,
        revid: 0,
        id: 0x80,
    };
    assert_eq!(
        as7343::check_chip_id(&identification),
        Err(as7343::Error::InvalidChipId(0x80))
    );
}

#[test]
fn bmm350_encodings_and_clamping() {
    assert_eq!(bmm350::DataRate::Hz25.raw(), 6);
    assert_eq!(bmm350::Averaging::from_raw(7), bmm350::Averaging::X8);
    assert_eq!(bmm350::Averaging::from_aggr_set(0x26), bmm350::Averaging::X4);
    assert_eq!(
        bmm350::clamp_averaging(bmm350::DataRate::Hz400, bmm350::Averaging::X8),
        bmm350::Averaging::X1
    );
    assert_eq!(
        bmm350::clamp_averaging(bmm350::DataRate::Hz200, bmm350::Averaging::X8),
        bmm350::Averaging::X2
    );
    assert_eq!(
        bmm350::clamp_averaging(bmm350::DataRate::Hz100, bmm350::Averaging::X2),
        bmm350::Averaging::X2
    );
    assert_eq!(bmm350::aggr_set_value(bmm350::DataRate::Hz25, bmm350::Averaging::X8), 0x36);
    assert_eq!(bmm350::aggr_set_value(bmm350::DataRate::Hz400, bmm350::Averaging::X4), 0x02);
    assert_eq!(
        bmm350::PowerMode::Forced.settling_delay_us(bmm350::Averaging::X4),
        20_000
    );
    assert_eq!(
        bmm350::PowerMode::ForcedFast.settling_delay_us(bmm350::Averaging::X1),
        4000
    );
    assert!(bmm350::needs_suspend_first(0x01));
    assert!(!bmm350::needs_suspend_first(0x03));
    let axes = bmm350::Axes {
        x: true,
        y: false,
        z: true,
    };
    assert_eq!(axes.raw(), 5);
    assert_eq!(
        bmm350::check_axes(bmm350::Axes {
            x: false,
            y: false,
            z: false
        }),
        Err(bmm350::Error::AllAxesDisabled)
    );
    let configuration = <bmm350::Configuration as Default>::default();
    assert_eq!(configuration.averaging, bmm350::Averaging::X4);
    assert_eq!(configuration.data_rate, bmm350::DataRate::Hz25);
}

#[test]
fn bmm350_status_otp_and_data() {
    let status = bmm350::PmuStatus::from_raw(0b1110_1001);
    assert!(status.busy);
    assert!(status.normal_mode);
    assert!(!status.illegal_command);
    assert_eq!(status.command_value, 7);
    assert_eq!(bmm350::check_pmu_command(7, &status), Ok(()));
    assert_eq!(
        bmm350::check_pmu_command(5, &status),
        Err(bmm350::Error::UnexpectedPmuCommand {
            expected: 5,
            actual: 7
        })
    );
    assert_eq!(bmm350::otp_read_command(0x2D), 0x20 | 0x0D);
    assert_eq!(bmm350::otp_poll(0x21), bmm350::OtpPoll::Failed(0x20));
    assert_eq!(bmm350::otp_poll(0x01), bmm350::OtpPoll::Done);
    assert_eq!(bmm350::otp_poll(0x00), bmm350::OtpPoll::Pending);
    assert_eq!(bmm350::otp_poll_outcome(bmm350::OtpPoll::Pending, 38), None);
    assert_eq!(
        bmm350::otp_poll_outcome(bmm350::OtpPoll::Pending, 39),
        Some(bmm350::Error::OtpTimeout)
    );
    assert_eq!(bmm350::otp_word_from_bytes(0x12, 0x34), 0x1234);
    let raw = [0xFF, 0xFF, 0xFF, 0x01, 0x00, 0x00, 0x00, 0x00, 0x80, 0x10, 0x27, 0x00];
    let measurement = bmm350::raw_measurement_from_data(&raw);
    assert_eq!(measurement.x, -1);
    assert_eq!(measurement.y, 1);
    assert_eq!(measurement.z, -8_388_608);
    assert_eq!(measurement.temperature, 10_000);
    assert_eq!(bmm350::sensor_time_from_bytes(&[0x01, 0x02, 0x03]), 0x03_0201);
    assert_eq!(bmm350::check_chip_id(0x33), Ok(()));
    assert_eq!(bmm350::check_chip_id(0x00), Err(bmm350::Error::InvalidChipId(0)));
}

#[test]
fn bmm350_otp_coefficients() {
    let mut otp = [0u16; 32];
    otp[13] = 0x02FE; // temperature sensitivity 2, offset -2
    otp[14] = 0xA801; // offset x 0x801 = -2047, top nibble of y 0xA
    otp[15] = 0x0310; // low byte of y 0x10, top nibble of z 3
    otp[16] = 0x8005; // sensitivity x -128, low byte of z 5
    otp[17] = 0x7FFF; // sensitivity y -1, sensitivity z 127
    otp[24] = 0xFFFF; // reference temperature -1
    otp[30] = 0x7F00; // variant id 0x3F
    let coefficients = bmm350::OtpCoefficients::from_otp(&otp);
    assert_eq!(coefficients.offset, [-2047, -1520, 0x305]);
    assert_eq!(coefficients.sensitivity, [-128, -1, 127]);
    assert_eq!(coefficients.temperature_offset, -2);
    assert_eq!(coefficients.temperature_sensitivity, 2);
    assert_eq!(coefficients.reference_temperature, -1);
    assert_eq!(coefficients.variant_id, 0x3F);
}

fn bme690_calibration_block() -> [u8; 42] {
    let mut raw = [0u8; 42];
    raw[31] = 0x34;
    raw[32] = 0x12;
    raw[0] = 0xCD;
    raw[1] = 0xAB;
    raw[2] = 0xFF;
    raw[4] = 0x00;
    raw[5] = 0x80;
    raw[23] = 0x80;
    raw[24] = 0x5A;
    raw[25] = 0x01;
    raw[39] = 0x30;
    raw[37] = 0x7F;
    raw
}

#[test]
fn bme690_calibration_block_decodes() {
    let calibration = bme690::Calibration::from_bytes(&bme690_calibration_block());
    assert_eq!(calibration.par_t1, 0x1234);
    assert_eq!(calibration.par_t2, 0xABCD);
    assert_eq!(calibration.par_t3, -1);
    assert_eq!(calibration.par_p5, i16::MIN);
    assert_eq!(calibration.par_h5, 0x805 - 4096);
    assert_eq!(calibration.par_h1, 0x01A);
    assert_eq!(calibration.res_heat_range, 3);
    assert_eq!(calibration.res_heat_val, 127);
    assert_eq!(bme690::sign_extend_12bit(2048), -2048);
    assert_eq!(bme690::sign_extend_12bit(2047), 2047);
}

#[test]
fn bme690_gas_wait_encoding() {
    assert_eq!(bme690::gas_wait_register(0), 0);
    assert_eq!(bme690::gas_wait_register(63), 63);
    assert_eq!(bme690::gas_wait_register(64), 0x50);
    assert_eq!(bme690::gas_wait_register(100), 0x59);
    assert_eq!(bme690::gas_wait_register(4031), 0xFE);
    assert_eq!(bme690::gas_wait_register(4032), 0xFF);
    assert_eq!(bme690::gas_wait_register(u16::MAX), 0xFF);
}

#[test]
fn bme690_register_writes_and_controls() {
    assert_eq!(
        bme690::write_frame(&[(0x5A, 1), (0x64, 2)]),
        Ok(vec![0x5A, 1, 0x64, 2])
    );
    assert_eq!(bme690::write_frame(&[(0, 0); 9]), Err(bme690::Error::WriteTooLong));
    let profile = bme690::HeaterProfile {
        index: 3,
        target_temperature_celsius: 320,
        duration_ms: 150,
    };
    assert_eq!(
        bme690::heater_profile_writes(&profile, 0x77),
        Ok([(0x5D, 0x77), (0x67, bme690::gas_wait_register(150))])
    );
    let bad = bme690::HeaterProfile { index: 10, ..profile };
    assert_eq!(
        bme690::heater_profile_writes(&bad, 0),
        Err(bme690::Error::InvalidHeaterProfile(10))
    );
    let config = bme690::GasConfig {
        heater_enabled: false,
        gas_measurement_enabled: true,
        heater_profile: 2,
    };
    assert_eq!(
        bme690::gas_control_registers(&config, 0x01, 0xCF),
        Ok((0x09, 0xC0 | 0x20 | 2))
    );
    assert_eq!(bme690::sleep_command(0b1010_0101), Some(0b1010_0100));
    assert_eq!(bme690::sleep_command(0b1010_0100), None);
    assert_eq!(
        bme690::mode_command(0b1010_0100, bme690::Mode::Forced),
        Some(0b1010_0101)
    );
    assert_eq!(bme690::mode_command(0xFF, bme690::Mode::Sleep), None);
    assert_eq!(bme690::check_chip_id(0x61), Ok(()));
}

#[test]
fn bme690_timing_and_field_decoding() {
    let configuration = bme690::Configuration {
        humidity_oversampling: bme690::Oversampling::X1,
        temperature_oversampling: bme690::Oversampling::X2,
        pressure_oversampling: bme690::Oversampling::X16,
        iir_filter: bme690::IirFilterCoefficient::Coefficient3,
    };
    assert_eq!(configuration.measurement_duration_us(), 19 * 1963 + 1908 + 2385 + 1000);
    assert_eq!(bme690::forced_wait_us(&configuration, 100), 19 * 1963 + 5293 + 100_000);
    assert_eq!(configuration.ctrl_hum(), 1);
    assert_eq!(configuration.ctrl_meas_oversampling(), (2 << 5) | (5 << 2));
    assert_eq!(bme690::IirFilterCoefficient::Coefficient3.config_bits(), 0b1000);
    let mut field = [0u8; 17];
    assert_eq!(bme690::measurement_from_field(&field), None);
    field[0] = 0x80 | 0x03;
    field[1] = 9;
    field[2..5].copy_from_slice(&[0x12, 0x34, 0x56]);
    field[5..8].copy_from_slice(&[0x78, 0x9A, 0xBC]);
    field[8..10].copy_from_slice(&[0x55, 0x66]);
    field[15] = 0xFF;
    field[16] = 0b1111_0101;
    let measurement = bme690::measurement_from_field(&field).unwrap();
    assert_eq!(measurement.pressure_raw, 0x12_3456);
    assert_eq!(measurement.temperature_raw, 0x78_9ABC);
    assert_eq!(measurement.relative_humidity_raw, 0x5566);
    assert_eq!(measurement.gas_resistance_raw, 0x3FF);
    assert_eq!(measurement.gas_range, 5);
    assert!(measurement.gas_measurement_valid);
    assert!(measurement.heater_stable);
    assert_eq!(measurement.gas_measurement_index, 3);
    assert_eq!(measurement.measurement_index, 9);
}

#[test]
fn bme690_cycle_plans() {
    let mut settings = bme690::BmeSettings {
        op_mode: 1,
        humidity_oversampling: 1,
        temperature_oversampling: 2,
        pressure_oversampling: 5,
        run_gas: 1,
        heater_temperature: 320,
        heater_duration: 197,
        trigger_measurement: 1,
    };
    match bme690::plan_cycle(&settings) {
        Ok(bme690::CyclePlan::Forced(plan)) => {
            assert_eq!(plan.configuration.temperature_oversampling, bme690::Oversampling::X2);
            assert_eq!(plan.configuration.pressure_oversampling, bme690::Oversampling::X16);
            assert_eq!(plan.heater.index, 0);
            assert_eq!(plan.heater.target_temperature_celsius, 320);
            assert!(plan.gas.heater_enabled && plan.gas.gas_measurement_enabled);
            assert!(plan.trigger);
            assert_eq!(plan.heater_duration_ms, 197);
        }
        other => panic!("unexpected plan {:?}", other),
    }
    settings.run_gas = 0;
    match bme690::plan_cycle(&settings) {
        Ok(bme690::CyclePlan::Forced(plan)) => {
            assert!(!plan.gas.heater_enabled);
            assert_eq!(plan.heater_duration_ms, 0);
        }
        other => panic!("unexpected plan {:?}", other),
    }
    settings.temperature_oversampling = 6;
    assert_eq!(
        bme690::plan_cycle(&settings),
        Err(bme690::Error::InvalidOversampling(6))
    );
    settings.op_mode = 2;
    assert_eq!(
        bme690::plan_cycle(&settings),
        Err(bme690::Error::UnsupportedOperatingMode(2))
    );
    settings.op_mode = 0;
    assert_eq!(bme690::plan_cycle(&settings), Ok(bme690::CyclePlan::Sleep));
}

#[test]
fn mlx90640_configuration_round_trips() {
    let configuration = <mlx90640::Configuration as Default>::default();
    assert_eq!(configuration.control_bits(), 0x1900);
    assert_eq!(mlx90640::Configuration::from_control(0x1901), configuration);
    assert_eq!(configuration.subpage_period_us(), 500_000);
    assert_eq!(configuration.image_period_us(), 1_000_000);
    assert_eq!(mlx90640::RefreshRate::Hz64.subpage_period_us(), 15_625);
    assert_eq!(mlx90640::RefreshRate::from_raw(0x0B), mlx90640::RefreshRate::Hz4);
    assert_eq!(mlx90640::control_register_update(0xFFFF, &configuration), 0xE07F | 0x1900);
    let interleaved = mlx90640::Configuration {
        refresh_rate: mlx90640::RefreshRate::Hz1,
        resolution: mlx90640::Resolution::Bits19,
        pattern: mlx90640::Pattern::Interleaved,
    };
    assert_eq!(
        mlx90640::Configuration::from_control(interleaved.control_bits()),
        interleaved
    );
    assert_eq!(mlx90640::check_write(0x800D, 1, 1), Ok(()));
    assert_eq!(
        mlx90640::check_write(0x800D, 1, 2),
        Err(mlx90640::Error::WriteVerification {
            register: 0x800D,
            written: 1,
            read: 2
        })
    );
}

#[test]
fn mlx90640_status_and_frame_reads() {
    let status = mlx90640::Status::from_raw(0x0019);
    assert_eq!(status.subpage, 1);
    assert!(status.data_ready);
    assert!(status.overwrite_enabled);
    assert_eq!(mlx90640::frame_read_step(&status, 1), mlx90640::FrameReadStep::Retry);
    assert_eq!(mlx90640::frame_read_step(&status, 4), mlx90640::FrameReadStep::Overwritten);
    let idle = mlx90640::Status::from_raw(0x0010);
    assert_eq!(mlx90640::frame_read_step(&idle, 4), mlx90640::FrameReadStep::Done);
    let mut ram = [0u16; 832];
    ram[5] = 0xFFFE;
    let frame = mlx90640::Frame::from_parts(ram, 0x1901, &status);
    assert_eq!(frame.subpage(), 1);
    assert_eq!(frame.raw_pixel(5), -2);
    assert_eq!(frame.configuration().pattern, mlx90640::Pattern::Chess);
    assert_eq!(mlx90640::Frame::new().subpage(), 0);
}

#[test]
fn mlx90640_pixel_geometry() {
    assert_eq!(mlx90640::quadrant(0), 0);
    assert_eq!(mlx90640::quadrant(1), 1);
    assert_eq!(mlx90640::quadrant(32), 2);
    assert_eq!(mlx90640::quadrant(33), 3);
    assert_eq!(mlx90640::pixel_subpage(0, true), 0);
    assert_eq!(mlx90640::pixel_subpage(1, true), 1);
    assert_eq!(mlx90640::pixel_subpage(32, true), 1);
    assert_eq!(mlx90640::pixel_subpage(33, false), 1);
    assert_eq!(mlx90640::pixel_subpage(2, false), 0);
    let groups: Vec<i32> = (0..8).map(mlx90640::interleave_group).collect();
    assert_eq!(groups, vec![0, -1, 0, 1, 0, -1, 0, 1]);
    assert_eq!(mlx90640::interleave_group(33), 1);
}

fn eeprom() -> [u16; 832] {
    let mut ee = [0u16; 832];
    ee[16] = 0x0123; // offset scales: row 1, column 2, remainder 3
    ee[17] = 0xFFF6; // offset reference -10
    ee[18] = 0x00F1; // row nibbles: 1, -1, 0, 0
    ee[24] = 0x0008; // column nibbles: -8, 0, 0, 0
    ee[32] = 0x0000;
    ee[33] = 1000;
    ee[34] = 0x0002;
    ee[54] = 0xFE05;
    ee[55] = 0x0380;
    ee[56] = 0x0001;
    ee[63] = 0x1234;
    for pixel in 0..768 {
        ee[64 + pixel] = 0x0402; // offset remainder 1, alpha remainder 0, kta remainder 1
    }
    ee
}

#[test]
fn mlx90640_nibbles_unpack_in_ascending_order() {
    assert_eq!(mlx90640::unpack_nibbles(&[0xF871], 0, 4), vec![1, 7, -8, -1]);
    assert_eq!(mlx90640::unpack_nibbles(&[0, 0x0009], 1, 2), vec![-7, 0]);
}

#[test]
fn mlx90640_pixel_offsets() {
    let offsets = mlx90640::pixel_offsets(&eeprom());
    assert_eq!(offsets.len(), 768);
    // Pixel 0: row 0 (nibble 1 << 1), column 0 (nibble -8 << 2), remainder 1 << 3.
    assert_eq!(offsets[0], -10 + 2 - 32 + 8);
    // Pixel 1: column 1 has nibble 0.
    assert_eq!(offsets[1], -10 + 2 + 8);
    // Pixel 32: row 1 has nibble -1.
    assert_eq!(offsets[32], -10 - 2 - 32 + 8);
}

#[test]
fn mlx90640_alpha_and_kta() {
    let alphas = mlx90640::pixel_alpha_raw(&eeprom());
    assert_eq!(alphas[0], 1002);
    assert_eq!(alphas[40], 1000);
    let ktas = mlx90640::pixel_kta_raw(&eeprom());
    // Remainder 1 << 1 on every pixel, base by quadrant.
    assert_eq!(ktas[0], -2 + 2);
    assert_eq!(ktas[1], 3 + 2);
    assert_eq!(ktas[32], 5 + 2);
    assert_eq!(ktas[33], -128 + 2);
}

#[test]
fn mlx90640_corner_temperatures() {
    assert_eq!(mlx90640::corner_temperatures(&eeprom()), [-40, 0, 30, 50, 400]);
}

#[test]
fn mlx90640_deviating_pixels() {
    let mut ee = eeprom();
    ee[64 + 5] = 0;
    ee[64 + 700] = 0x0403;
    let (deviating, outcome) = mlx90640::deviating_pixels(&ee);
    assert_eq!(outcome, Ok(()));
    assert_eq!(deviating.broken, vec![5]);
    assert_eq!(deviating.outlier, vec![700]);
    assert!(deviating.is_deviating(5));
    assert!(deviating.is_deviating(700));
    assert!(!deviating.is_deviating(6));
    for pixel in 10..15 {
        ee[64 + pixel] = 0;
    }
    let (deviating, outcome) = mlx90640::deviating_pixels(&ee);
    assert_eq!(outcome, Err(mlx90640::Error::TooManyDeviatingPixels(7)));
    assert_eq!(deviating.broken, vec![5, 10, 11, 12]);
    assert_eq!(deviating.outlier, vec![700]);
}

#[test]
fn mlx90640_block_reads() {
    let chunks = mlx90640::read_chunks(0x2400, 832);
    assert_eq!(chunks.len(), 7);
    assert_eq!(chunks[0], (0x2400, 127));
    assert_eq!(chunks[6], (0x2400 + 6 * 127, 832 - 6 * 127));
    assert_eq!(mlx90640::read_chunks(0x8000, 1), vec![(0x8000, 1)]);
    assert!(mlx90640::read_chunks(0, 0).is_empty());
    assert_eq!(
        mlx90640::words_from_be_bytes(&[0x12, 0x34, 0xAB, 0xCD, 0xFF]),
        vec![0x1234, 0xABCD]
    );
    let mut assembly = mlx90640::ImageAssembly::new();
    assert!(!assembly.complete());
    assembly.record(1);
    assembly.record(1);
    assert!(!assembly.complete());
    assembly.record(0);
    assert!(assembly.complete());
}

#[test]
fn i2c_scan_records_and_progress() {
    let mut result = I2cScanResult::new();
    result.record(0x33, true);
    result.record(0x34, false);
    result.record(0x62, true);
    assert_eq!(result.addresses(), &[0x33, 0x62]);
    assert_eq!(progress_bar(0), vec![b'.'; 30]);
    let half = progress_bar(58);
    assert_eq!(&half[..14], &[b'#'; 14]);
    assert_eq!(&half[14..], &[b'.'; 16]);
    assert_eq!(progress_bar(117), vec![b'#'; 30]);
    assert!(retry_after(0));
    assert!(retry_after(1));
    assert!(!retry_after(2));
}
