//! Checks of the sensor protocol core: checksum, decoding, formatting and
//! the session decisions.

use aht20_driver::commands::Aht20Commands;
use aht20_driver::convert::{float_to_uart, Q20};
use aht20_driver::crc::{aht20_check_crc, compute};
use aht20_driver::hex::{byte_to_hex, float_to_str};
use aht20_driver::session::{
    aht20_calculate_measurments, aht20_calibrate, aht20_init, aht20_measure,
    aht20_uart_transmit_data, Aht20Data, CalibrateStep, InitStep, MeasureEvent, MeasureStep,
    StatusReadResult, MEASUREMENT_CONVERSION_MS, POST_CALIBRATION_SETTLE_MS, POWER_ON_SETTLE_MS,
    SOFT_RESET_SETTLE_MS,
};

/// Independent bit-loop oracle for the sensor's checksum: polynomial 0x31,
/// non-reflected, initial value 0xFF.
fn crc8_oracle(data: &[u8]) -> u8 {
    let mut crc: u8 = 0xFF;
    for &byte in data {
        crc ^= byte;
        for _ in 0..8 {
            if crc & 0x80 != 0 {
                crc = (crc << 1) ^ 0x31;
            } else {
                crc <<= 1;
            }
        }
    }
    crc
}

/// The physical value of a Q20 fixed-point number.
fn q20_value(q: Q20) -> f64 {
    q.bits as f64 / 1048576.0
}

/// A valid 7-byte frame (not busy, checksum appended) carrying the given
/// raw fields.
fn frame_of(raw_humidity: u32, raw_temperature: u32) -> [u8; 7] {
    assert!(raw_humidity < 1 << 20 && raw_temperature < 1 << 20);
    let mut frame = [0u8; 7];
    frame[0] = 0x1C;
    frame[1] = (raw_humidity >> 12) as u8;
    frame[2] = (raw_humidity >> 4) as u8;
    frame[3] = (((raw_humidity & 0x0F) as u8) << 4) | ((raw_temperature >> 16) as u8);
    frame[4] = (raw_temperature >> 8) as u8;
    frame[5] = raw_temperature as u8;
    let data = [frame[0], frame[1], frame[2], frame[3], frame[4], frame[5]];
    frame[6] = compute(&data);
    frame
}

#[test]
fn crc_known_payload() {
    // the five documented payload bytes, padded to six with 0x00
    let payload = [0x1Eu8, 0x9F, 0x80, 0x4A, 0x3C, 0x00];
    assert_eq!(compute(&payload), 0x87);
    assert_eq!(compute(&payload), crc8_oracle(&payload));
}

#[test]
fn crc_empty_seed_and_zeros() {
    assert_eq!(compute(&[0u8; 6]), 0x6A);
    assert_eq!(compute(&[0u8; 6]), crc8_oracle(&[0u8; 6]));
}

#[test]
fn crc_matches_oracle_on_randomized_inputs() {
    // a simple linear congruential generator gives the randomized inputs
    let mut state: u64 = 0x1234_5678_9ABC_DEF0;
    for _ in 0..200 {
        let mut payload = [0u8; 6];
        for byte in payload.iter_mut() {
            state = state.wrapping_mul(6364136223846793005).wrapping_add(1442695040888963407);
            *byte = (state >> 56) as u8;
        }
        assert_eq!(compute(&payload), crc8_oracle(&payload));
    }
}

#[test]
fn crc_of_frame_ignores_received_checksum_byte() {
    let mut frame = frame_of(0x12345, 0x6789A & 0xFFFFF);
    let expected = frame[6];
    assert_eq!(aht20_check_crc(&frame), expected);
    frame[6] ^= 0xFF;
    assert_eq!(aht20_check_crc(&frame), expected);
}

#[test]
fn decode_round_trip_midscale() {
    // raw fields at half of 2^20 decode to 50 %, 50 degC, 122 degF
    let frame = frame_of(524288, 524288);
    let mut data = Aht20Data::new();
    let step = aht20_measure(&mut data, MeasureEvent::Payload(frame));
    assert_eq!(step, MeasureStep::Updated);
    assert!((q20_value(data.humidity) - 50.0).abs() < 1e-3);
    assert!((q20_value(data.temp_c) - 50.0).abs() < 1e-3);
    assert!((q20_value(data.temp_f) - 122.0).abs() < 1e-3);
}

#[test]
fn decode_known_raw_fields() {
    let mut data = Aht20Data::new();
    data.measured_data = frame_of(74565, 424090);
    aht20_calculate_measurments(&mut data);
    assert_eq!(data.humidity.bits, 74565 * 100);
    assert_eq!(data.temp_c.bits, 424090 * 200 - 52428800);
    assert_eq!(data.temp_f.bits, 424090 * 360 - 60817408);
    assert!((q20_value(data.humidity) - 7.111072540283203).abs() < 1e-9);
    assert!((q20_value(data.temp_c) - 30.888748168945312).abs() < 1e-9);
    assert!((q20_value(data.temp_f) - 87.59974670410156).abs() < 1e-9);
}

#[test]
fn decode_extremes() {
    let mut data = Aht20Data::new();
    data.measured_data = frame_of(0, 0);
    aht20_calculate_measurments(&mut data);
    assert_eq!(data.humidity.bits, 0);
    assert_eq!(q20_value(data.temp_c), -50.0);
    assert_eq!(q20_value(data.temp_f), -58.0);

    data.measured_data = frame_of(0xFFFFF, 0xFFFFF);
    aht20_calculate_measurments(&mut data);
    assert!(q20_value(data.humidity) < 100.0);
    assert!((q20_value(data.humidity) - 100.0).abs() < 1e-3);
    assert!((q20_value(data.temp_c) - 150.0).abs() < 1e-3);
    assert!((q20_value(data.temp_f) - 302.0).abs() < 1e-3);
}

#[test]
fn busy_flag_never_updates_reading() {
    let mut data = Aht20Data::new();
    let step = aht20_measure(&mut data, MeasureEvent::Payload(frame_of(524288, 524288)));
    assert_eq!(step, MeasureStep::Updated);
    let before = (data.humidity, data.temp_c, data.temp_f);

    // byte 0 = 0x80 marks the sensor busy, even over an otherwise valid
    // frame with a correct checksum
    let mut busy_frame = frame_of(123456, 654321);
    busy_frame[0] = 0x80;
    let data_bytes = [
        busy_frame[0],
        busy_frame[1],
        busy_frame[2],
        busy_frame[3],
        busy_frame[4],
        busy_frame[5],
    ];
    busy_frame[6] = compute(&data_bytes);
    let step = aht20_measure(&mut data, MeasureEvent::Payload(busy_frame));
    assert_eq!(step, MeasureStep::Busy);
    assert_eq!((data.humidity, data.temp_c, data.temp_f), before);
    assert_eq!(data.measured_data, busy_frame);
    assert_eq!(step.message(), Some("AHT20 Busy\r\n"));
}

#[test]
fn crc_mismatch_keeps_previous_reading() {
    let mut data = Aht20Data::new();
    let step = aht20_measure(&mut data, MeasureEvent::Payload(frame_of(524288, 524288)));
    assert_eq!(step, MeasureStep::Updated);
    let before = (data.humidity, data.temp_c, data.temp_f);

    let mut bad_frame = frame_of(99999, 88888);
    bad_frame[6] = bad_frame[6].wrapping_add(1);
    let step = aht20_measure(&mut data, MeasureEvent::Payload(bad_frame));
    assert_eq!(step, MeasureStep::CrcMismatch);
    assert_eq!((data.humidity, data.temp_c, data.temp_f), before);
    assert_eq!(step.message(), Some("AHT20 CRC check failed\r\n"));
}

#[test]
fn read_failure_decides_exactly_one_soft_reset() {
    let mut data = Aht20Data::new();
    let before = (data.measured_data, data.humidity, data.temp_c, data.temp_f);
    let step = aht20_measure(&mut data, MeasureEvent::ReadFailed);
    assert_eq!(step, MeasureStep::ResetAndSettle);
    assert_eq!(
        step.message(),
        Some("AHT20 Failed to get data. Performing soft reset...\r\n")
    );
    assert_eq!((data.measured_data, data.humidity, data.temp_c, data.temp_f), before);

    // no other outcome decides a reset
    let step = aht20_measure(&mut data, MeasureEvent::WriteFailed);
    assert_eq!(step, MeasureStep::RequestFailed);
    assert_eq!(step.message(), Some("AHT20 Failed measurment\r\n"));
    let step = aht20_measure(&mut data, MeasureEvent::Payload(frame_of(1, 2)));
    assert_eq!(step, MeasureStep::Updated);
    assert_eq!(step.message(), None);
}

#[test]
fn report_is_idempotent_without_successful_measure() {
    let mut data = Aht20Data::new();
    aht20_measure(&mut data, MeasureEvent::Payload(frame_of(524288, 524288)));
    let first = aht20_uart_transmit_data(&data);

    // failed attempts in between must not change the emitted text
    aht20_measure(&mut data, MeasureEvent::WriteFailed);
    assert_eq!(aht20_uart_transmit_data(&data), first);
    aht20_measure(&mut data, MeasureEvent::ReadFailed);
    assert_eq!(aht20_uart_transmit_data(&data), first);
    let mut busy_frame = frame_of(1, 1);
    busy_frame[0] = 0x80;
    aht20_measure(&mut data, MeasureEvent::Payload(busy_frame));
    assert_eq!(aht20_uart_transmit_data(&data), first);
    assert_eq!(aht20_uart_transmit_data(&data), first);
}

#[test]
fn report_text_is_exact() {
    let data = Aht20Data::new();
    let line = aht20_uart_transmit_data(&data);
    assert_eq!(line, b"Humidity: 00.00, C: 00.00, F: 00.00\r\n".to_vec());

    let mut data = Aht20Data::new();
    data.measured_data = frame_of(524288, 524288);
    aht20_calculate_measurments(&mut data);
    // 122 degF has three integer digits: the hundreds digit wraps away,
    // as the formatter never clamps
    let line = aht20_uart_transmit_data(&data);
    assert_eq!(line, b"Humidity: 50.00, C: 50.00, F: 22.00\r\n".to_vec());

    // a negative Celsius value carries its sign
    let mut data = Aht20Data::new();
    data.measured_data = frame_of(0, 0);
    aht20_calculate_measurments(&mut data);
    let line = aht20_uart_transmit_data(&data);
    assert_eq!(line, b"Humidity: 00.00, C: -50.00, F: -58.00\r\n".to_vec());
}

#[test]
fn fahrenheit_identity_holds_for_all_raw_fields() {
    let mut data = Aht20Data::new();
    let mut raw: u32 = 0;
    while raw < 1 << 20 {
        data.measured_data = frame_of(0, raw);
        aht20_calculate_measurments(&mut data);
        let tc = q20_value(data.temp_c);
        let tf = q20_value(data.temp_f);
        assert!((tf - (tc * 9.0 / 5.0 + 32.0)).abs() < 1e-4);
        raw += 997;
    }
}

#[test]
fn init_decision_follows_calibration_bit() {
    // bit 3 set: already calibrated
    assert_eq!(aht20_init(StatusReadResult::Status(0x18)), InitStep::Calibrated);
    assert_eq!(aht20_init(StatusReadResult::Status(0x08)), InitStep::Calibrated);
    // bit 3 clear: calibration needed, whatever the other bits say
    assert_eq!(aht20_init(StatusReadResult::Status(0x00)), InitStep::Calibrate);
    assert_eq!(aht20_init(StatusReadResult::Status(0xF7)), InitStep::Calibrate);
    // transport failure: stay uninitialized
    assert_eq!(aht20_init(StatusReadResult::Failed), InitStep::CheckFailed);
    assert_eq!(
        aht20_init(StatusReadResult::Failed).message(),
        Some("Calibration Check NACK\r\n")
    );
    assert_eq!(aht20_init(StatusReadResult::Status(0x18)).message(), None);
}

#[test]
fn calibrate_acknowledgement() {
    assert_eq!(aht20_calibrate(true), CalibrateStep::Acked);
    assert_eq!(aht20_calibrate(false), CalibrateStep::Nacked);
    assert_eq!(aht20_calibrate(true).message(), "AHT20 Init OK\r\n");
    assert_eq!(aht20_calibrate(false).message(), "AHT20 Init NACK\r\n");
}

#[test]
fn command_bytes_are_the_protocol_constants() {
    assert_eq!(Aht20Commands::check_calibration().as_bytes(), &[0x71]);
    assert_eq!(Aht20Commands::calibrate().as_bytes(), &[0xBE, 0x08, 0x00]);
    assert_eq!(Aht20Commands::measure().as_bytes(), &[0xAC, 0x33, 0x00]);
    assert_eq!(Aht20Commands::soft_reset().as_bytes(), &[0xBA]);
}

#[test]
fn timing_constants_match_the_datasheet() {
    assert_eq!(POWER_ON_SETTLE_MS, 40);
    assert_eq!(POST_CALIBRATION_SETTLE_MS, 10);
    assert_eq!(MEASUREMENT_CONVERSION_MS, 80);
    assert_eq!(SOFT_RESET_SETTLE_MS, 20);
}

#[test]
fn new_reading_has_fixed_address_and_zeroed_state() {
    let data = Aht20Data::new();
    assert_eq!(data.device_address, 0x38);
    assert_eq!(data.measured_data, [0u8; 7]);
    assert_eq!(data.humidity.bits, 0);
    assert_eq!(data.temp_c.bits, 0);
    assert_eq!(data.temp_f.bits, 0);
}

#[test]
fn fixed_point_formatting() {
    // exactly 1.00
    assert_eq!(float_to_uart(Q20 { bits: 1048576 }), *b"01.00\0");
    // 47.5 rounds to two fractional digits
    assert_eq!(float_to_uart(Q20 { bits: 49807360 }), *b"47.50\0");
    // a negative value takes the pad position for its sign
    assert_eq!(float_to_uart(Q20 { bits: -52428800 }), *b"-50.00");
    // a tiny negative magnitude still shows the sign
    assert_eq!(float_to_uart(Q20 { bits: -1 }), *b"-00.00");
    // 129.00 wraps its hundreds digit away
    assert_eq!(float_to_uart(Q20 { bits: 129 * 1048576 }), *b"29.00\0");
    // rounding is half up: 0.005 becomes 0.01
    assert_eq!(float_to_uart(Q20 { bits: 5243 }), *b"00.01\0");
}

#[test]
fn four_digit_formatting() {
    // 8.00 prints zero-padded without a point
    assert_eq!(float_to_str(Q20 { bits: 8 * 1048576 }), *b"0800");
    assert_eq!(float_to_str(Q20 { bits: 50 * 1048576 }), *b"5000");
    // truncation, not rounding: 0.019 prints as 0.01
    assert_eq!(float_to_str(Q20 { bits: 20447 }), *b"0001");
    // out of range falls back to "0000"
    assert_eq!(float_to_str(Q20 { bits: -1048576 }), *b"0000");
    assert_eq!(float_to_str(Q20 { bits: 100 * 1048576 }), *b"0000");
}

#[test]
fn hex_formatting() {
    assert_eq!(byte_to_hex(0x08), *b"08");
    assert_eq!(byte_to_hex(0xAF), *b"AF");
    assert_eq!(byte_to_hex(0x00), *b"00");
    assert_eq!(byte_to_hex(0xFF), *b"FF");
    assert_eq!(byte_to_hex(0x3C), *b"3C");
}
