//! The sensor session: the reading it owns and the decision taken after
//! each bus transaction.
//!
//! The caller owns the two-wire bus, the serial link and the delay timer.
//! For each protocol step it performs the transfer and hands the outcome in
//! as a plain value; the functions here decide what follows — calibrate or
//! not, keep or discard a frame, issue a soft reset — and keep the stored
//! reading consistent. Every outcome returns the session to the ready state,
//! so the caller's polling loop can simply retry on the next cycle.

use vstd::prelude::*;
use crate::convert::{
    fixed_point_text, humidity_bits, lemma_fahrenheit_identity, lemma_raw_fields_bounded,
    raw_humidity_of, raw_temperature_of, temp_c_bits, temp_f_bits, float_to_uart, Q20,
    Q20_FORMAT_BOUND,
};
use crate::crc::{aht20_check_crc, crc8};

verus! {

/// Settle time after power-on, from the sensor's datasheet, in milliseconds.
pub const POWER_ON_SETTLE_MS: u32 = 40;

/// Settle time after the calibration command, in milliseconds.
pub const POST_CALIBRATION_SETTLE_MS: u32 = 10;

/// Conversion time of one triggered measurement, in milliseconds.
pub const MEASUREMENT_CONVERSION_MS: u32 = 80;

/// Settle time after a soft reset, in milliseconds.
pub const SOFT_RESET_SETTLE_MS: u32 = 20;

/// Holds data for the AHT20 sensor: its fixed bus address, the last
/// received frame, and the physical values of the last valid reading.
#[derive(Clone, Copy, Debug)]
pub struct Aht20Data {
    /// Fixed bus address, set at construction and never changed.
    pub device_address: u8,
    /// The last received frame: a status byte, five bytes of raw fields,
    /// and the received checksum.
    pub measured_data: [u8; 7],
    /// Relative humidity in percent, valid only after a successful decode.
    pub humidity: Q20,
    /// Temperature in degrees Celsius, valid only after a successful decode.
    pub temp_c: Q20,
    /// Temperature in degrees Fahrenheit, always `temp_c * 9/5 + 32` once a
    /// decode has succeeded.
    pub temp_f: Q20,
}

impl Aht20Data {
    /// The stored reading is within the sensor's physical ranges, and the
    /// two temperatures agree — either both still at their initial zero, or
    /// exactly `f == c * 9/5 + 32` (multiplied through by 5).
    pub open spec fn wf(self) -> bool {
        &&& 0 <= self.humidity.bits <= 100 * 1048576
        &&& -50 * 1048576 <= self.temp_c.bits <= 150 * 1048576
        &&& -58 * 1048576 <= self.temp_f.bits <= 302 * 1048576
        &&& ((self.humidity.bits == 0 && self.temp_c.bits == 0 && self.temp_f.bits == 0)
            || 5 * self.temp_f.bits == 9 * self.temp_c.bits + 160 * 1048576)
    }

    /// Decides well-formedness at run time, for callers outside the
    /// verified library that must test it before handing a reading in.
    pub fn is_well_formed(&self) -> (ok: bool)
        ensures
            ok == self.wf(),
    {
        0 <= self.humidity.bits && self.humidity.bits <= 104857600
            && -52428800 <= self.temp_c.bits && self.temp_c.bits <= 157286400
            && -60817408 <= self.temp_f.bits && self.temp_f.bits <= 316669952
            && ((self.humidity.bits == 0 && self.temp_c.bits == 0 && self.temp_f.bits == 0)
                || 5 * self.temp_f.bits == 9 * self.temp_c.bits + 167772160)
    }

    /// Creates a new instance with the sensor's fixed bus address and a
    /// zeroed reading.
    pub fn new() -> (data: Self)
        ensures
            data.wf(),
            data.device_address == 0x38,
            data.measured_data@ =~= seq![0u8, 0u8, 0u8, 0u8, 0u8, 0u8, 0u8],
            data.humidity.bits == 0,
            data.temp_c.bits == 0,
            data.temp_f.bits == 0,
    {
        Self {
            device_address: 0x38,
            measured_data: [0, 0, 0, 0, 0, 0, 0],
            humidity: Q20 { bits: 0 },
            temp_c: Q20 { bits: 0 },
            temp_f: Q20 { bits: 0 },
        }
    }
}

/// Outcome of the calibration-status transaction, handed in by the caller.
#[derive(Clone, Copy, Debug)]
pub enum StatusReadResult {
    /// The one status byte the sensor answered with.
    Status(u8),
    /// The bus transaction failed.
    Failed,
}

/// What initialization decides: the step the caller performs next.
#[derive(Clone, Copy, PartialEq, Eq, Structural, Debug)]
pub enum InitStep {
    /// The calibration bit is clear: send the calibrate command, then wait
    /// [`POST_CALIBRATION_SETTLE_MS`].
    Calibrate,
    /// The calibration bit is set: the sensor is ready as it is.
    Calibrated,
    /// The status could not be read; the session stays uninitialized and
    /// the caller may retry.
    CheckFailed,
}

impl InitStep {
    /// The diagnostic line reported for this step, if any.
    pub fn message(&self) -> (text: Option<&'static str>)
        ensures
            match *self {
                InitStep::CheckFailed => text matches Some(s) && s@ == "Calibration Check NACK\r\n"@,
                _ => text is None,
            },
    {
        match self {
            InitStep::CheckFailed => Some("Calibration Check NACK\r\n"),
            _ => None,
        }
    }
}

/// Decides the initialization step from the calibration-status answer.
///
/// The caller first waits [`POWER_ON_SETTLE_MS`], then writes the
/// check-calibration command and reads one status byte; bit 3 of that byte
/// is the calibration bit.
pub fn aht20_init(result: StatusReadResult) -> (step: InitStep)
    ensures
        (step is Calibrate) <==> (result matches StatusReadResult::Status(s) && s & 0x08 == 0),
        (step is Calibrated) <==> (result matches StatusReadResult::Status(s) && s & 0x08 != 0),
        (step is CheckFailed) <==> (result is Failed),
{
    match result {
        StatusReadResult::Status(status) => {
            if status & 0x08 == 0 {
                InitStep::Calibrate
            } else {
                InitStep::Calibrated
            }
        },
        StatusReadResult::Failed => InitStep::CheckFailed,
    }
}

/// What the calibration command's acknowledgement decides.
#[derive(Clone, Copy, PartialEq, Eq, Structural, Debug)]
pub enum CalibrateStep {
    /// The sensor acknowledged the command.
    Acked,
    /// The write failed; the session still advances — the command has no
    /// readback and the hardware self-calibrates on power cycle.
    Nacked,
}

impl CalibrateStep {
    /// The diagnostic line reported for this step.
    pub fn message(&self) -> (text: &'static str)
        ensures
            match *self {
                CalibrateStep::Acked => text@ == "AHT20 Init OK\r\n"@,
                CalibrateStep::Nacked => text@ == "AHT20 Init NACK\r\n"@,
            },
    {
        match self {
            CalibrateStep::Acked => "AHT20 Init OK\r\n",
            CalibrateStep::Nacked => "AHT20 Init NACK\r\n",
        }
    }
}

/// Decides the step after the calibrate command was written. Whatever the
/// outcome, the caller then waits [`POST_CALIBRATION_SETTLE_MS`] and the
/// session is ready.
pub fn aht20_calibrate(write_ok: bool) -> (step: CalibrateStep)
    ensures
        (step is Acked) <==> write_ok,
{
    if write_ok {
        CalibrateStep::Acked
    } else {
        CalibrateStep::Nacked
    }
}

/// Outcome of one measurement attempt's bus work, handed in by the caller:
/// write the measure command, wait [`MEASUREMENT_CONVERSION_MS`], read a
/// 7-byte frame.
#[derive(Clone, Copy, Debug)]
pub enum MeasureEvent {
    /// Writing the measure command failed.
    WriteFailed,
    /// The command was written but the frame could not be read back.
    ReadFailed,
    /// The frame that was read back.
    Payload([u8; 7]),
}

/// What one measurement attempt decides.
#[derive(Clone, Copy, PartialEq, Eq, Structural, Debug)]
pub enum MeasureStep {
    /// The measure command was not acknowledged: nothing was stored.
    RequestFailed,
    /// The read failed: the caller sends one soft-reset command, waits
    /// [`SOFT_RESET_SETTLE_MS`] once, and the session is ready again.
    ResetAndSettle,
    /// The sensor reported busy: the frame was discarded.
    Busy,
    /// The received checksum does not match: the frame was discarded.
    CrcMismatch,
    /// The frame validated and the stored reading was updated.
    Updated,
}

impl MeasureStep {
    /// The diagnostic line reported for this step, if any.
    pub fn message(&self) -> (text: Option<&'static str>)
        ensures
            match *self {
                MeasureStep::RequestFailed => text matches Some(s) && s@
                    == "AHT20 Failed measurment\r\n"@,
                MeasureStep::ResetAndSettle => text matches Some(s) && s@
                    == "AHT20 Failed to get data. Performing soft reset...\r\n"@,
                MeasureStep::Busy => text matches Some(s) && s@ == "AHT20 Busy\r\n"@,
                MeasureStep::CrcMismatch => text matches Some(s) && s@
                    == "AHT20 CRC check failed\r\n"@,
                MeasureStep::Updated => text is None,
            },
    {
        match self {
            MeasureStep::RequestFailed => Some("AHT20 Failed measurment\r\n"),
            MeasureStep::ResetAndSettle => Some(
                "AHT20 Failed to get data. Performing soft reset...\r\n",
            ),
            MeasureStep::Busy => Some("AHT20 Busy\r\n"),
            MeasureStep::CrcMismatch => Some("AHT20 CRC check failed\r\n"),
            MeasureStep::Updated => None,
        }
    }
}

/// Decodes the raw fields of the stored frame into physical units and
/// overwrites the three derived values together.
pub fn aht20_calculate_measurments(sensor_data: &mut Aht20Data)
    ensures
        final(sensor_data).device_address == old(sensor_data).device_address,
        final(sensor_data).measured_data == old(sensor_data).measured_data,
        final(sensor_data).humidity.bits == humidity_bits(
            raw_humidity_of(old(sensor_data).measured_data@) as int,
        ),
        final(sensor_data).temp_c.bits == temp_c_bits(
            raw_temperature_of(old(sensor_data).measured_data@) as int,
        ),
        final(sensor_data).temp_f.bits == temp_f_bits(
            raw_temperature_of(old(sensor_data).measured_data@) as int,
        ),
        final(sensor_data).wf(),
{
    let raw_humidity: u32 = ((sensor_data.measured_data[1] as u32) << 12)
        | ((sensor_data.measured_data[2] as u32) << 4)
        | ((sensor_data.measured_data[3] as u32) >> 4);
    let raw_temperature: u32 = (((sensor_data.measured_data[3] as u32) & 0x0F) << 16)
        | ((sensor_data.measured_data[4] as u32) << 8)
        | (sensor_data.measured_data[5] as u32);
    proof {
        lemma_raw_fields_bounded(sensor_data.measured_data@);
        lemma_fahrenheit_identity(raw_temperature as int);
    }
    sensor_data.humidity = Q20 { bits: raw_humidity as i64 * 100 };
    sensor_data.temp_c = Q20 { bits: raw_temperature as i64 * 200 - 52428800 };
    sensor_data.temp_f = Q20 { bits: raw_temperature as i64 * 360 - 60817408 };
}

/// Takes the outcome of one measurement attempt and decides what follows.
///
/// A received frame always overwrites the stored frame wholesale; the three
/// physical values are overwritten together exactly when the frame is not
/// marked busy and its checksum matches, and are otherwise left at their
/// previous values. A failed read decides one soft reset and one settle
/// delay, and nothing else; no other outcome decides a reset.
pub fn aht20_measure(sensor_data: &mut Aht20Data, event: MeasureEvent) -> (step: MeasureStep)
    requires
        old(sensor_data).wf(),
    ensures
        final(sensor_data).wf(),
        final(sensor_data).device_address == old(sensor_data).device_address,
        (step is RequestFailed) <==> (event is WriteFailed),
        (step is ResetAndSettle) <==> (event is ReadFailed),
        (step is Busy) <==> (event matches MeasureEvent::Payload(frame) && frame@[0] & 0x80
            != 0),
        (step is CrcMismatch) <==> (event matches MeasureEvent::Payload(frame) && frame@[0] & 0x80
            == 0 && crc8(frame@.take(6)) != frame@[6]),
        (step is Updated) <==> (event matches MeasureEvent::Payload(frame) && frame@[0] & 0x80
            == 0 && crc8(frame@.take(6)) == frame@[6]),
        match event {
            MeasureEvent::Payload(frame) => final(sensor_data).measured_data == frame,
            _ => final(sensor_data).measured_data == old(sensor_data).measured_data,
        },
        !(step is Updated) ==> final(sensor_data).humidity == old(sensor_data).humidity
            && final(sensor_data).temp_c == old(sensor_data).temp_c
            && final(sensor_data).temp_f == old(sensor_data).temp_f,
        (step is Updated) ==> final(sensor_data).humidity.bits == humidity_bits(
            raw_humidity_of(final(sensor_data).measured_data@) as int,
        ) && final(sensor_data).temp_c.bits == temp_c_bits(
            raw_temperature_of(final(sensor_data).measured_data@) as int,
        ) && final(sensor_data).temp_f.bits == temp_f_bits(
            raw_temperature_of(final(sensor_data).measured_data@) as int,
        ),
{
    match event {
        MeasureEvent::WriteFailed => MeasureStep::RequestFailed,
        MeasureEvent::ReadFailed => MeasureStep::ResetAndSettle,
        MeasureEvent::Payload(frame) => {
            sensor_data.measured_data = frame;
            if sensor_data.measured_data[0] & 0x80 == 0 {
                let crc = aht20_check_crc(&sensor_data.measured_data);
                if crc == sensor_data.measured_data[6] {
                    aht20_calculate_measurments(sensor_data);
                    MeasureStep::Updated
                } else {
                    MeasureStep::CrcMismatch
                }
            } else {
                MeasureStep::Busy
            }
        },
    }
}

/// The label before the humidity value: "Humidity: ".
pub open spec fn humidity_label() -> Seq<u8> {
    seq![72u8, 117u8, 109u8, 105u8, 100u8, 105u8, 116u8, 121u8, 58u8, 32u8]
}

/// The label before the Celsius value: ", C: ".
pub open spec fn celsius_label() -> Seq<u8> {
    seq![44u8, 32u8, 67u8, 58u8, 32u8]
}

/// The label before the Fahrenheit value: ", F: ".
pub open spec fn fahrenheit_label() -> Seq<u8> {
    seq![44u8, 32u8, 70u8, 58u8, 32u8]
}

/// The line terminator of a report.
pub open spec fn line_end() -> Seq<u8> {
    seq![13u8, 10u8]
}

/// The characters actually transmitted for one value: the formatter's six
/// bytes, without the 0 pad byte that a non-negative value carries.
pub open spec fn visible_text(bits: int) -> Seq<u8> {
    if bits < 0 {
        fixed_point_text(bits)
    } else {
        fixed_point_text(bits).take(5)
    }
}

/// The full report line for a stored reading: each labelled value, then the
/// line terminator.
pub open spec fn report_bytes(data: Aht20Data) -> Seq<u8> {
    humidity_label() + visible_text(data.humidity.bits as int) + celsius_label()
        + visible_text(data.temp_c.bits as int) + fahrenheit_label() + visible_text(
        data.temp_f.bits as int,
    ) + line_end()
}

/// Appends a byte slice to the line under construction.
fn push_bytes(line: &mut Vec<u8>, bytes: &[u8])
    ensures
        final(line)@ == old(line)@ + bytes@,
{
    let mut k: usize = 0;
    while k < bytes.len()
        invariant
            k <= bytes@.len(),
            line@ == old(line)@ + bytes@.take(k as int),
        decreases bytes@.len() - k,
    {
        line.push(bytes[k]);
        proof {
            assert(bytes@.take(k + 1) =~= bytes@.take(k as int).push(bytes@[k as int]));
        }
        k += 1;
    }
    proof {
        assert(bytes@.take(bytes@.len() as int) =~= bytes@);
    }
}

/// Formats one value and appends its visible characters, skipping the 0 pad
/// byte as the serial path does.
fn push_value_text(line: &mut Vec<u8>, value: Q20)
    requires
        -Q20_FORMAT_BOUND < value.bits < Q20_FORMAT_BOUND,
    ensures
        final(line)@ == old(line)@ + visible_text(value.bits as int),
{
    let text = float_to_uart(value);
    let ghost entry = line@;
    line.push(text[0]);
    line.push(text[1]);
    line.push(text[2]);
    line.push(text[3]);
    line.push(text[4]);
    if text[5] != 0 {
        line.push(text[5]);
    }
    proof {
        if value.bits < 0 {
            // the last byte is an ASCII digit, never 0, so it was pushed
            assert(text@[5] != 0);
            assert(line@ =~= entry + visible_text(value.bits as int));
        } else {
            assert(text@[5] == 0);
            assert(line@ =~= entry + visible_text(value.bits as int));
        }
    }
}

/// Builds the serial report line for the current reading: the three
/// physical values as fixed labelled ASCII text. A pure read of the state;
/// the caller hands the bytes to the serial link.
pub fn aht20_uart_transmit_data(sensor_data: &Aht20Data) -> (line: Vec<u8>)
    requires
        sensor_data.wf(),
    ensures
        line@ == report_bytes(*sensor_data),
{
    let mut line: Vec<u8> = Vec::new();
    let humidity_text: [u8; 10] = [72, 117, 109, 105, 100, 105, 116, 121, 58, 32];
    let celsius_text: [u8; 5] = [44, 32, 67, 58, 32];
    let fahrenheit_text: [u8; 5] = [44, 32, 70, 58, 32];
    let end_text: [u8; 2] = [13, 10];
    proof {
        assert(humidity_text@ =~= humidity_label());
        assert(celsius_text@ =~= celsius_label());
        assert(fahrenheit_text@ =~= fahrenheit_label());
        assert(end_text@ =~= line_end());
    }
    push_bytes(&mut line, humidity_text.as_slice());
    push_value_text(&mut line, sensor_data.humidity);
    push_bytes(&mut line, celsius_text.as_slice());
    push_value_text(&mut line, sensor_data.temp_c);
    push_bytes(&mut line, fahrenheit_text.as_slice());
    push_value_text(&mut line, sensor_data.temp_f);
    push_bytes(&mut line, end_text.as_slice());
    proof {
        assert(line@ =~= report_bytes(*sensor_data));
    }
    line
}

/// Law: the report line is a function of the stored reading alone, so
/// repeated reports without an intervening successful measurement emit
/// identical text.
pub proof fn lemma_report_depends_only_on_reading(a: Aht20Data, b: Aht20Data)
    requires
        a.humidity == b.humidity,
        a.temp_c == b.temp_c,
        a.temp_f == b.temp_f,
    ensures
        report_bytes(a) == report_bytes(b),
{
}

} // verus!
