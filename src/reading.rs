//! The advertisement frame of each Aranet product line, and the measurement
//! decoded from it.
use std::time::{Duration, Instant, SystemTime};
use crate::text::{decimal, push_decimal};
use vstd::prelude::*;

verus! {

/// Why the sensor flagged one field of a frame as unusable.
#[derive(Debug, Clone, Copy, PartialEq, Eq, Structural)]
pub enum ReadingError {
    Invalid,
    NoData,
    HighHumidity,
}

/// The phrase that names each field error.
pub open spec fn reading_error_text(e: ReadingError) -> Seq<char> {
    match e {
        ReadingError::Invalid => "Invalid reading"@,
        ReadingError::NoData => "No data"@,
        ReadingError::HighHumidity => "Humidity too high"@,
    }
}

impl ReadingError {
    /// The phrase that names this error.
    pub fn description(&self) -> (r: &'static str)
        ensures
            r@ == reading_error_text(*self),
    {
        match self {
            ReadingError::Invalid => "Invalid reading",
            ReadingError::NoData => "No data",
            ReadingError::HighHumidity => "Humidity too high",
        }
    }
}

/// Relative humidity as sent on the wire: older sensors send whole percent in
/// one byte, newer ones tenths of a percent in two.
#[derive(Debug, Clone, Copy, PartialEq, Eq, Structural)]
pub enum Humidity {
    V1(u8),
    V2(u16),
}

/// The product line that broadcast a frame; it fixes the frame's layout.
#[derive(Debug, Clone, Copy, PartialEq, Eq, Structural)]
pub enum Device {
    Aranet4,
    Aranet2,
    AranetRadiation,
    AranetRadon,
}

/// The product line announced by a frame's leading type byte.
pub open spec fn device_of_type_byte(b: u8) -> Option<Device> {
    if b == 0 {
        Some(Device::Aranet4)
    } else if b == 1 {
        Some(Device::Aranet2)
    } else if b == 2 {
        Some(Device::AranetRadiation)
    } else if b == 3 {
        Some(Device::AranetRadon)
    } else {
        None
    }
}

/// The name of each product line.
pub open spec fn device_text(d: Device) -> Seq<char> {
    match d {
        Device::Aranet4 => "Aranet4"@,
        Device::Aranet2 => "Aranet2"@,
        Device::AranetRadiation => "AranetRadiation"@,
        Device::AranetRadon => "AranetRadon"@,
    }
}

impl Device {
    /// Maps a frame's type byte to the product line it announces.
    pub fn from_type_byte(b: u8) -> (r: Option<Device>)
        ensures
            r == device_of_type_byte(b),
    {
        match b {
            0 => Some(Device::Aranet4),
            1 => Some(Device::Aranet2),
            2 => Some(Device::AranetRadiation),
            3 => Some(Device::AranetRadon),
            _ => None,
        }
    }

    /// The name of the product line.
    pub fn name(&self) -> (r: &'static str)
        ensures
            r@ == device_text(*self),
    {
        match self {
            Device::Aranet4 => "Aranet4",
            Device::Aranet2 => "Aranet2",
            Device::AranetRadiation => "AranetRadiation",
            Device::AranetRadon => "AranetRadon",
        }
    }
}

/// What a radiation sensor reports: the dose in nSv accumulated over
/// `raw_duration` seconds, and the current dose rate in nSv/h.
#[derive(Debug, Clone, Copy, PartialEq, Eq, Structural)]
pub struct Radiation {
    pub raw_total: u32,
    pub raw_duration: u32,
    pub raw_rate: u16,
}

/// `v` followed by `unit`, as the only part of a list, or no part where `v`
/// is zero.
pub open spec fn nonzero_part(v: nat, unit: char) -> Seq<Seq<char>> {
    if v > 0 {
        seq![decimal(v).push(unit)]
    } else {
        seq![]
    }
}

/// The parts separated by single spaces.
pub open spec fn space_joined(parts: Seq<Seq<char>>) -> Seq<char>
    decreases parts.len(),
{
    if parts.len() == 0 {
        seq![]
    } else if parts.len() == 1 {
        parts[0]
    } else {
        space_joined(parts.drop_last()) + seq![' '] + parts.last()
    }
}

/// A span of seconds as hours, minutes and seconds (`1h 5s`), leaving out
/// each zero part; a zero span is `0s`.
pub open spec fn duration_text(secs: nat) -> Seq<char> {
    let parts = nonzero_part(secs / 3600, 'h') + nonzero_part((secs % 3600) / 60, 'm')
        + nonzero_part(secs % 60, 's');
    if parts.len() == 0 {
        seq!['0', 's']
    } else {
        space_joined(parts)
    }
}

/// Appends part `v` with `unit` to the text of list `parts`.
fn push_part(out: &mut String, v: u32, unit: &str, first: bool, Ghost(parts): Ghost<Seq<Seq<char>>>)
    requires
        v > 0,
        first == (parts.len() == 0),
        unit@.len() == 1,
        old(out)@ == space_joined(parts),
    ensures
        final(out)@ == space_joined(parts + seq![decimal(v as nat).push(unit@[0])]),
{
    let ghost next = parts + seq![decimal(v as nat).push(unit@[0])];
    assert(next.drop_last() =~= parts);
    if !first {
        proof {
            reveal_strlit(" ");
        }
        out.append(" ");
    }
    push_decimal(out, v);
    out.append(unit);
    assert(out@ =~= space_joined(next));
}

impl Radiation {
    /// The span over which `raw_total` was accumulated.
    pub fn duration(&self) -> Duration {
        Duration::from_secs(self.raw_duration as u64)
    }

    /// The span over which `raw_total` was accumulated, as text.
    pub fn duration_string(&self) -> (r: String)
        ensures
            r@ == duration_text(self.raw_duration as nat),
    {
        let duration = self.raw_duration;
        let hours = duration / 3600;
        let minutes = (duration % 3600) / 60;
        let seconds = duration % 60;
        let ghost p_h = nonzero_part(hours as nat, 'h');
        let ghost p_m = nonzero_part(minutes as nat, 'm');
        let ghost p_s = nonzero_part(seconds as nat, 's');
        proof {
            reveal_strlit("h");
            reveal_strlit("m");
            reveal_strlit("s");
            reveal_strlit("0s");
        }
        let mut out = String::new();
        assert(out@ =~= space_joined(seq![]));
        if hours > 0 {
            push_part(&mut out, hours, "h", true, Ghost(Seq::empty()));
        }
        assert(seq![] + p_h =~= p_h);
        if minutes > 0 {
            push_part(&mut out, minutes, "m", hours == 0, Ghost(p_h));
        }
        assert(p_h + p_m =~= if minutes > 0 { p_h + seq![decimal(minutes as nat).push('m')] } else { p_h });
        if seconds > 0 {
            push_part(&mut out, seconds, "s", hours == 0 && minutes == 0, Ghost(p_h + p_m));
        }
        assert(p_h + p_m + p_s =~= if seconds > 0 { p_h + p_m + seq![decimal(seconds as nat).push('s')] } else { p_h + p_m });
        if hours == 0 && minutes == 0 && seconds == 0 {
            out.append("0s");
        }
        out
    }
}

/// One decoded measurement. A field is `None` where the product line does not
/// measure that quantity, and `Some(Err(..))` where the sensor flagged it.
#[derive(Debug, Clone, Copy)]
pub struct Reading {
    pub device: Device,
    /// CO₂ concentration in ppm.
    pub co2: Option<Result<u16, ReadingError>>,
    /// Radon concentration in Bq/m³.
    pub radon: Option<Result<u16, ReadingError>>,
    pub radiation: Option<Radiation>,
    /// Temperature in twentieths of a degree Celsius.
    pub raw_temperature: Option<Result<u16, ReadingError>>,
    /// Pressure in tenths of a hectopascal.
    pub raw_pressure: Option<Result<u16, ReadingError>>,
    pub raw_humidity: Option<Result<Humidity, ReadingError>>,
    /// Battery charge in percent.
    pub battery: u8,
    /// Seconds between two measurements of the sensor.
    pub interval: u16,
    /// Seconds since the sensor took this measurement, by its own clock.
    pub age: u16,
    /// When the measurement was taken, by the monotonic clock.
    pub instant: Instant,
    /// When the measurement was taken, by the wall clock.
    pub time: SystemTime,
}

/// A frame could not be decoded.
#[derive(Debug, Clone, Copy, PartialEq, Eq, Structural)]
pub enum DecodeError {
    /// The frame is shorter than its layout.
    TooShort,
    /// The type byte names no known product line.
    UnknownVariant(u8),
    /// The product line is known but its frames are not decoded.
    Unsupported(Device),
    /// A clock cannot be set back by the measurement's age.
    ClockUnderflow,
}

/// No frame of any product line is shorter.
pub const MIN_FRAME_LEN: usize = 21;

/// The length of an Aranet4 frame that carries no type byte.
pub const UNTYPED_FRAME_LEN: usize = 22;

/// The little-endian 16-bit integer at `i`.
pub open spec fn le16(b: Seq<u8>, i: int) -> u16 {
    (b[i] + 256 * b[i + 1]) as u16
}

/// The little-endian 32-bit integer at `i`.
pub open spec fn le32(b: Seq<u8>, i: int) -> u32 {
    (le16(b, i) + 65536 * le16(b, i + 2)) as u32
}

/// Where the header begins: untyped frames have no type byte in front.
pub open spec fn header_start(b: Seq<u8>) -> int {
    if b.len() == UNTYPED_FRAME_LEN {
        0
    } else {
        1
    }
}

/// The bytes each product line puts before its first field.
pub open spec fn header_len(d: Device) -> int {
    match d {
        Device::Aranet4 => 8,
        Device::AranetRadon => 7,
        Device::AranetRadiation => 5,
        Device::Aranet2 => 0,
    }
}

/// The bytes from the first field to the end of the trailer.
pub open spec fn body_len(d: Device) -> int {
    match d {
        Device::Aranet4 => 13,
        Device::AranetRadon => 15,
        Device::AranetRadiation => 17,
        Device::Aranet2 => 0,
    }
}

/// The product line of a frame, or why the frame cannot be decoded.
pub open spec fn frame_device(b: Seq<u8>) -> Result<Device, DecodeError> {
    if b.len() < MIN_FRAME_LEN {
        Err(DecodeError::TooShort)
    } else if b.len() == UNTYPED_FRAME_LEN {
        Ok(Device::Aranet4)
    } else {
        match device_of_type_byte(b[0]) {
            None => Err(DecodeError::UnknownVariant(b[0])),
            Some(Device::Aranet2) => Err(DecodeError::Unsupported(Device::Aranet2)),
            Some(d) => if b.len() < 1 + header_len(d) + body_len(d) {
                Err(DecodeError::TooShort)
            } else {
                Ok(d)
            },
        }
    }
}

/// Where the first field of a frame of `d` begins.
pub open spec fn fields_start(b: Seq<u8>, d: Device) -> int {
    header_start(b) + header_len(d)
}

/// Where the trailer (battery, status, interval, age) begins.
pub open spec fn trailer_start(b: Seq<u8>, d: Device) -> int {
    fields_start(b, d) + body_len(d) - 6
}

/// A concentration whose top bit is set is invalid.
pub open spec fn co2_status(raw: u16) -> Result<u16, ReadingError> {
    if raw >= 0x8000 {
        Err(ReadingError::Invalid)
    } else {
        Ok(raw)
    }
}

/// Radon has two sentinels of its own; anything else above 0x1F00 is invalid.
pub open spec fn radon_status(raw: u16) -> Result<u16, ReadingError> {
    if raw == 0x1F01 {
        Err(ReadingError::NoData)
    } else if raw == 0x1F02 {
        Err(ReadingError::HighHumidity)
    } else if raw > 0x1F00 {
        Err(ReadingError::Invalid)
    } else {
        Ok(raw)
    }
}

/// A temperature whose second-highest bit is set is invalid.
pub open spec fn temperature_status(raw: u16) -> Result<u16, ReadingError> {
    if (raw / 0x4000) % 2 == 1 {
        Err(ReadingError::Invalid)
    } else {
        Ok(raw)
    }
}

/// A pressure whose top bit is set is invalid.
pub open spec fn pressure_status(raw: u16) -> Result<u16, ReadingError> {
    if raw >= 0x8000 {
        Err(ReadingError::Invalid)
    } else {
        Ok(raw)
    }
}

/// A one-byte humidity whose top bit is set is invalid.
pub open spec fn humidity_v1_status(raw: u8) -> Result<Humidity, ReadingError> {
    if raw >= 0x80 {
        Err(ReadingError::Invalid)
    } else {
        Ok(Humidity::V1(raw))
    }
}

/// A two-byte humidity whose top bit is set is invalid.
pub open spec fn humidity_v2_status(raw: u16) -> Result<Humidity, ReadingError> {
    if raw >= 0x8000 {
        Err(ReadingError::Invalid)
    } else {
        Ok(Humidity::V2(raw))
    }
}

/// The fields of `r` are those that the layout of its product line puts in `b`.
pub open spec fn fields_of(r: Reading, b: Seq<u8>) -> bool {
    let o = fields_start(b, r.device);
    let t = trailer_start(b, r.device);
    &&& r.battery == b[t]
    &&& r.interval == le16(b, t + 2)
    &&& r.age == le16(b, t + 4)
    &&& match r.device {
        Device::Aranet4 => {
            &&& r.co2 == Some(co2_status(le16(b, o)))
            &&& r.radon is None
            &&& r.radiation is None
            &&& r.raw_temperature == Some(temperature_status(le16(b, o + 2)))
            &&& r.raw_pressure == Some(pressure_status(le16(b, o + 4)))
            &&& r.raw_humidity == Some(humidity_v1_status(b[o + 6]))
        },
        Device::AranetRadon => {
            &&& r.co2 is None
            &&& r.radon == Some(radon_status(le16(b, o)))
            &&& r.radiation is None
            &&& r.raw_temperature == Some(temperature_status(le16(b, o + 2)))
            &&& r.raw_pressure == Some(pressure_status(le16(b, o + 4)))
            &&& r.raw_humidity == Some(humidity_v2_status(le16(b, o + 6)))
        },
        Device::AranetRadiation => {
            &&& r.co2 is None
            &&& r.radon is None
            &&& r.radiation == Some(
                Radiation {
                    raw_total: le32(b, o),
                    raw_duration: le32(b, o + 4),
                    raw_rate: le16(b, o + 8),
                },
            )
            &&& r.raw_temperature is None
            &&& r.raw_pressure is None
            &&& r.raw_humidity is None
        },
        Device::Aranet2 => false,
    }
}

/// `r` is the measurement that frame `b` carries (its clock fields aside).
pub open spec fn decodes_to(b: Seq<u8>, r: Reading) -> bool {
    &&& frame_device(b) == Ok::<Device, DecodeError>(r.device)
    &&& fields_of(r, b)
}

fn read_u16(raw: &[u8], i: usize) -> (r: u16)
    requires
        i + 2 <= raw.len(),
    ensures
        r == le16(raw@, i as int),
{
    raw[i] as u16 + (raw[i + 1] as u16) * 256
}

fn read_u32(raw: &[u8], i: usize) -> (r: u32)
    requires
        i + 4 <= raw.len(),
    ensures
        r == le32(raw@, i as int),
{
    read_u16(raw, i) as u32 + (read_u16(raw, i + 2) as u32) * 65536
}

fn co2_field(raw: u16) -> (r: Result<u16, ReadingError>)
    ensures
        r == co2_status(raw),
{
    if raw >= 0x8000 {
        Err(ReadingError::Invalid)
    } else {
        Ok(raw)
    }
}

fn radon_field(raw: u16) -> (r: Result<u16, ReadingError>)
    ensures
        r == radon_status(raw),
{
    if raw == 0x1F01 {
        Err(ReadingError::NoData)
    } else if raw == 0x1F02 {
        Err(ReadingError::HighHumidity)
    } else if raw > 0x1F00 {
        Err(ReadingError::Invalid)
    } else {
        Ok(raw)
    }
}

fn temperature_field(raw: u16) -> (r: Result<u16, ReadingError>)
    ensures
        r == temperature_status(raw),
{
    if (raw / 0x4000) % 2 == 1 {
        Err(ReadingError::Invalid)
    } else {
        Ok(raw)
    }
}

fn pressure_field(raw: u16) -> (r: Result<u16, ReadingError>)
    ensures
        r == pressure_status(raw),
{
    if raw >= 0x8000 {
        Err(ReadingError::Invalid)
    } else {
        Ok(raw)
    }
}

fn humidity_v1_field(raw: u8) -> (r: Result<Humidity, ReadingError>)
    ensures
        r == humidity_v1_status(raw),
{
    if raw >= 0x80 {
        Err(ReadingError::Invalid)
    } else {
        Ok(Humidity::V1(raw))
    }
}

fn humidity_v2_field(raw: u16) -> (r: Result<Humidity, ReadingError>)
    ensures
        r == humidity_v2_status(raw),
{
    if raw >= 0x8000 {
        Err(ReadingError::Invalid)
    } else {
        Ok(Humidity::V2(raw))
    }
}

/// Checks a frame's length and type byte, and names its product line.
fn frame_layout(raw: &[u8]) -> (r: Result<Device, DecodeError>)
    ensures
        r == frame_device(raw@),
{
    let n = raw.len();
    if n < MIN_FRAME_LEN {
        return Err(DecodeError::TooShort);
    }
    if n == UNTYPED_FRAME_LEN {
        return Ok(Device::Aranet4);
    }
    let d = match Device::from_type_byte(raw[0]) {
        None => return Err(DecodeError::UnknownVariant(raw[0])),
        Some(Device::Aranet2) => return Err(DecodeError::Unsupported(Device::Aranet2)),
        Some(d) => d,
    };
    let needed: usize = match d {
        Device::Aranet4 => 22,
        Device::AranetRadon => 23,
        _ => 23,
    };
    if n < needed {
        Err(DecodeError::TooShort)
    } else {
        Ok(d)
    }
}

fn decode_aranet4(raw: &[u8], o: usize, instant: Instant, time: SystemTime) -> (r: Reading)
    requires
        frame_device(raw@) == Ok::<Device, DecodeError>(Device::Aranet4),
        o == fields_start(raw@, Device::Aranet4),
    ensures
        r.device == Device::Aranet4,
        fields_of(r, raw@),
        r.instant == instant,
        r.time == time,
{
    Reading {
        device: Device::Aranet4,
        co2: Some(co2_field(read_u16(raw, o))),
        radon: None,
        radiation: None,
        raw_temperature: Some(temperature_field(read_u16(raw, o + 2))),
        raw_pressure: Some(pressure_field(read_u16(raw, o + 4))),
        raw_humidity: Some(humidity_v1_field(raw[o + 6])),
        battery: raw[o + 7],
        interval: read_u16(raw, o + 9),
        age: read_u16(raw, o + 11),
        instant,
        time,
    }
}

fn decode_radon(raw: &[u8], o: usize, instant: Instant, time: SystemTime) -> (r: Reading)
    requires
        frame_device(raw@) == Ok::<Device, DecodeError>(Device::AranetRadon),
        o == fields_start(raw@, Device::AranetRadon),
    ensures
        r.device == Device::AranetRadon,
        fields_of(r, raw@),
        r.instant == instant,
        r.time == time,
{
    Reading {
        device: Device::AranetRadon,
        co2: None,
        radon: Some(radon_field(read_u16(raw, o))),
        radiation: None,
        raw_temperature: Some(temperature_field(read_u16(raw, o + 2))),
        raw_pressure: Some(pressure_field(read_u16(raw, o + 4))),
        raw_humidity: Some(humidity_v2_field(read_u16(raw, o + 6))),
        battery: raw[o + 9],
        interval: read_u16(raw, o + 11),
        age: read_u16(raw, o + 13),
        instant,
        time,
    }
}

fn decode_radiation(raw: &[u8], o: usize, instant: Instant, time: SystemTime) -> (r: Reading)
    requires
        frame_device(raw@) == Ok::<Device, DecodeError>(Device::AranetRadiation),
        o == fields_start(raw@, Device::AranetRadiation),
    ensures
        r.device == Device::AranetRadiation,
        fields_of(r, raw@),
        r.instant == instant,
        r.time == time,
{
    let radiation = Radiation {
        raw_total: read_u32(raw, o),
        raw_duration: read_u32(raw, o + 4),
        raw_rate: read_u16(raw, o + 8),
    };
    Reading {
        device: Device::AranetRadiation,
        co2: None,
        radon: None,
        radiation: Some(radiation),
        raw_temperature: None,
        raw_pressure: None,
        raw_humidity: None,
        battery: raw[o + 11],
        interval: read_u16(raw, o + 13),
        age: read_u16(raw, o + 15),
        instant,
        time,
    }
}

impl Reading {
    /// Decodes frame `raw`, dating the measurement `age` seconds before the
    /// clock readings `now` and `wall`. Whether a clock can be set back that
    /// far is up to the platform.
    pub fn decode_at(raw: &[u8], now: Instant, wall: SystemTime) -> (r: Result<
        Reading,
        DecodeError,
    >)
        ensures
            raw@.len() < MIN_FRAME_LEN ==> r == Err::<Reading, DecodeError>(DecodeError::TooShort),
            frame_device(raw@) is Err ==> r == Err::<Reading, DecodeError>(
                frame_device(raw@)->Err_0,
            ),
            frame_device(raw@) is Ok ==> match r {
                Ok(m) => decodes_to(raw@, m),
                Err(e) => e == DecodeError::ClockUnderflow,
            },
    {
        let device = match frame_layout(raw) {
            Ok(d) => d,
            Err(e) => return Err(e),
        };
        let start: usize = if raw.len() == UNTYPED_FRAME_LEN {
            0
        } else {
            1
        };
        let (o, t): (usize, usize) = match device {
            Device::Aranet4 => (start + 8, start + 15),
            Device::AranetRadon => (start + 7, start + 16),
            _ => (start + 5, start + 16),
        };
        let age = read_u16(raw, t + 4);
        let instant = match now.checked_sub(Duration::from_secs(age as u64)) {
            Some(i) => i,
            None => return Err(DecodeError::ClockUnderflow),
        };
        let time = match wall.checked_sub(Duration::from_secs(age as u64)) {
            Some(t) => t,
            None => return Err(DecodeError::ClockUnderflow),
        };
        let r = match device {
            Device::Aranet4 => decode_aranet4(raw, o, instant, time),
            Device::AranetRadon => decode_radon(raw, o, instant, time),
            _ => decode_radiation(raw, o, instant, time),
        };
        Ok(r)
    }

    /// Decodes frame `raw`, dating the measurement by the clocks as they
    /// read now.
    pub fn decode(raw: &[u8]) -> (r: Result<Reading, DecodeError>)
        ensures
            raw@.len() < MIN_FRAME_LEN ==> r == Err::<Reading, DecodeError>(DecodeError::TooShort),
            frame_device(raw@) is Err ==> r == Err::<Reading, DecodeError>(
                frame_device(raw@)->Err_0,
            ),
            frame_device(raw@) is Ok ==> match r {
                Ok(m) => decodes_to(raw@, m),
                Err(e) => e == DecodeError::ClockUnderflow,
            },
    {
        Reading::decode_at(raw, Instant::now(), SystemTime::now())
    }
}

/// The two measurements carry the same sensor data: every measured quantity
/// and the battery charge agree.
pub open spec fn same_sensor_data(a: Reading, b: Reading) -> bool {
    &&& a.co2 == b.co2
    &&& a.radon == b.radon
    &&& a.radiation == b.radiation
    &&& a.raw_temperature == b.raw_temperature
    &&& a.raw_pressure == b.raw_pressure
    &&& a.raw_humidity == b.raw_humidity
    &&& a.battery == b.battery
}

/// Whether `newer` is a re-broadcast of `previous`, where `elapsed_secs` whole
/// seconds passed between their captures by the monotonic clock. New sensor
/// data is always fresh; an age that went down means the sensor's counter
/// rolled over, so the measurement is fresh too. A changed interval is taken
/// for a repeat: this is a heuristic, kept as it is. Otherwise a measurement is
/// fresh once more than one interval has passed.
pub open spec fn repeat_rule(previous: Reading, newer: Reading, elapsed_secs: nat) -> bool {
    if !same_sensor_data(previous, newer) {
        false
    } else if newer.age < previous.age {
        false
    } else if newer.interval != previous.interval {
        true
    } else {
        elapsed_secs <= newer.interval
    }
}

/// A field in `raw` ticks, scaled by `factor` and shifted by `offset`; an
/// absent or flagged field stays as it is.
pub open spec fn scaled(raw: Option<Result<u16, ReadingError>>, factor: int, offset: int) -> Option<
    Result<u32, ReadingError>,
> {
    match raw {
        None => None,
        Some(Err(e)) => Some(Err(e)),
        Some(Ok(v)) => Some(Ok((factor * v + offset) as u32)),
    }
}

fn same_value(a: Option<Result<u16, ReadingError>>, b: Option<Result<u16, ReadingError>>) -> (r:
    bool)
    ensures
        r == (a == b),
{
    match (a, b) {
        (None, None) => true,
        (Some(Ok(x)), Some(Ok(y))) => x == y,
        (Some(Err(x)), Some(Err(y))) => x == y,
        _ => false,
    }
}

fn same_humidity(a: Option<Result<Humidity, ReadingError>>, b: Option<Result<Humidity, ReadingError>>) -> (r: bool)
    ensures
        r == (a == b),
{
    match (a, b) {
        (None, None) => true,
        (Some(Ok(x)), Some(Ok(y))) => x == y,
        (Some(Err(x)), Some(Err(y))) => x == y,
        _ => false,
    }
}

fn same_radiation(a: Option<Radiation>, b: Option<Radiation>) -> (r: bool)
    ensures
        r == (a == b),
{
    match (a, b) {
        (None, None) => true,
        (Some(x), Some(y)) => x == y,
        _ => false,
    }
}

fn scale(raw: Option<Result<u16, ReadingError>>, factor: u32, offset: u32) -> (r: Option<
    Result<u32, ReadingError>,
>)
    requires
        factor <= 100,
        offset <= 100_000,
    ensures
        r == scaled(raw, factor as int, offset as int),
{
    match raw {
        None => None,
        Some(Err(e)) => Some(Err(e)),
        Some(Ok(v)) => {
            assert(factor * v <= 100 * 65535) by (nonlinear_arith)
                requires
                    factor <= 100,
                    v <= 65535,
            ;
            Some(Ok(factor * (v as u32) + offset))
        },
    }
}

impl Reading {
    /// Whether `newer` carries the same sensor data as `self`.
    pub fn same_sensor_data(&self, newer: &Reading) -> (r: bool)
        ensures
            r == same_sensor_data(*self, *newer),
    {
        same_value(self.co2, newer.co2) && same_value(self.radon, newer.radon) && same_radiation(
            self.radiation,
            newer.radiation,
        ) && same_value(self.raw_temperature, newer.raw_temperature) && same_value(
            self.raw_pressure,
            newer.raw_pressure,
        ) && same_humidity(self.raw_humidity, newer.raw_humidity) && self.battery == newer.battery
    }

    /// Whether `newer` is a re-broadcast of `self`, where `elapsed_secs`
    /// seconds passed between their captures.
    pub fn is_repeat_after(&self, newer: &Reading, elapsed_secs: u64) -> (r: bool)
        ensures
            r == repeat_rule(*self, *newer, elapsed_secs as nat),
    {
        if !self.same_sensor_data(newer) {
            return false;
        }
        if newer.age < self.age {
            return false;
        }
        if newer.interval != self.interval {
            return true;
        }
        elapsed_secs <= newer.interval as u64
    }

    /// Whether `newer` is a re-broadcast of `self`, by the seconds that the
    /// monotonic clock counted between their captures.
    pub fn is_repeat_reading(&self, newer: &Reading) -> (r: bool)
        ensures
            !same_sensor_data(*self, *newer) ==> !r,
            same_sensor_data(*self, *newer) && newer.age < self.age ==> !r,
            same_sensor_data(*self, *newer) && newer.age >= self.age && newer.interval
                != self.interval ==> r,
            exists|elapsed_secs: nat| r == #[trigger] repeat_rule(*self, *newer, elapsed_secs),
    {
        let elapsed_secs = newer.instant.saturating_duration_since(self.instant).as_secs();
        let r = self.is_repeat_after(newer, elapsed_secs);
        assert(r == repeat_rule(*self, *newer, elapsed_secs as nat));
        r
    }

    /// The temperature in thousandths of a degree Celsius: 50 per tick.
    pub fn celsius_milli(&self) -> (r: Option<Result<u32, ReadingError>>)
        ensures
            r == scaled(self.raw_temperature, 50, 0),
    {
        scale(self.raw_temperature, 50, 0)
    }

    /// The temperature in thousandths of a degree Fahrenheit: 90 per tick,
    /// from 32 degrees.
    pub fn fahrenheit_milli(&self) -> (r: Option<Result<u32, ReadingError>>)
        ensures
            r == scaled(self.raw_temperature, 90, 32_000),
    {
        scale(self.raw_temperature, 90, 32_000)
    }

    /// The pressure in pascals: 10 per tick.
    pub fn pressure_pa(&self) -> (r: Option<Result<u32, ReadingError>>)
        ensures
            r == scaled(self.raw_pressure, 10, 0),
    {
        scale(self.raw_pressure, 10, 0)
    }
}

impl<'a> TryFrom<&'a [u8]> for Reading {
    type Error = DecodeError;

    fn try_from(raw: &'a [u8]) -> Result<Reading, DecodeError> {
        Reading::decode(raw)
    }
}

/// A decoded measurement also depends on the clocks, so no function of the
/// bytes alone describes `try_from`: see `Reading::decode` instead.
impl<'a> vstd::std_specs::convert::TryFromSpecImpl<&'a [u8]> for Reading {
    open spec fn obeys_try_from_spec() -> bool {
        false
    }

    open spec fn try_from_spec(raw: &'a [u8]) -> Result<Reading, DecodeError> {
        Err(DecodeError::TooShort)
    }
}

/// A field of an Aranet4 frame that carries a sentinel bit.
#[derive(Debug, Clone, Copy, PartialEq, Eq, Structural)]
pub enum SensorField {
    Co2,
    Temperature,
    Pressure,
    Humidity,
}

/// Where the sentinel bit of `f` sits in Aranet4 frame `b`: the byte, and
/// the bit's mask within it.
pub open spec fn sentinel_bit(b: Seq<u8>, f: SensorField) -> (int, u8) {
    let o = fields_start(b, Device::Aranet4);
    match f {
        SensorField::Co2 => (o + 1, 0x80),
        SensorField::Temperature => (o + 3, 0x40),
        SensorField::Pressure => (o + 5, 0x80),
        SensorField::Humidity => (o + 6, 0x80),
    }
}

/// Aranet4 frame `b` with the sentinel bit of `f` set.
pub open spec fn with_sentinel(b: Seq<u8>, f: SensorField) -> Seq<u8> {
    let (k, mask) = sentinel_bit(b, f);
    b.update(k, b[k] | mask)
}

/// `f` of `r` is flagged invalid.
pub open spec fn flagged(r: Reading, f: SensorField) -> bool {
    match f {
        SensorField::Co2 => r.co2 == Some(Err::<u16, ReadingError>(ReadingError::Invalid)),
        SensorField::Temperature => r.raw_temperature == Some(
            Err::<u16, ReadingError>(ReadingError::Invalid),
        ),
        SensorField::Pressure => r.raw_pressure == Some(
            Err::<u16, ReadingError>(ReadingError::Invalid),
        ),
        SensorField::Humidity => r.raw_humidity == Some(
            Err::<Humidity, ReadingError>(ReadingError::Invalid),
        ),
    }
}

/// `r` and `s` agree on every field but `f` (their clock fields aside).
pub open spec fn agree_except(r: Reading, s: Reading, f: SensorField) -> bool {
    &&& r.device == s.device
    &&& f != SensorField::Co2 ==> r.co2 == s.co2
    &&& r.radon == s.radon
    &&& r.radiation == s.radiation
    &&& f != SensorField::Temperature ==> r.raw_temperature == s.raw_temperature
    &&& f != SensorField::Pressure ==> r.raw_pressure == s.raw_pressure
    &&& f != SensorField::Humidity ==> r.raw_humidity == s.raw_humidity
    &&& r.battery == s.battery
    &&& r.interval == s.interval
    &&& r.age == s.age
}

/// Setting the sentinel bit of one field of an Aranet4 frame flags that field
/// as invalid and leaves every other field as it was.
pub proof fn lemma_sentinel_flags_one_field(b: Seq<u8>, f: SensorField, r: Reading, s: Reading)
    requires
        decodes_to(b, r),
        r.device == Device::Aranet4,
        decodes_to(with_sentinel(b, f), s),
    ensures
        flagged(s, f),
        agree_except(r, s, f),
{
    let o = fields_start(b, Device::Aranet4);
    let (k, mask) = sentinel_bit(b, f);
    let x = b[k];
    let c = with_sentinel(b, f);
    assert(c.len() == b.len());
    assert(header_start(c) == header_start(b));
    assert(c[0] == b[0]);
    assert(s.device == Device::Aranet4);
    match f {
        SensorField::Temperature => {
            let lo = b[o + 2];
            assert(((lo as u32 + 256 * ((x | 0x40u8) as u32)) / 0x4000) % 2 == 1) by (bit_vector);
        },
        _ => {
            assert((x | 0x80u8) >= 0x80u8) by (bit_vector);
        },
    }
}

/// The radon field of a frame tells its two sentinels apart from other
/// values above range, and passes on every value up to 0x1F00.
pub proof fn lemma_radon_sentinels(b: Seq<u8>, r: Reading)
    requires
        decodes_to(b, r),
        r.device == Device::AranetRadon,
    ensures
        ({
            let raw = le16(b, fields_start(b, Device::AranetRadon));
            &&& raw == 0x1F01 ==> r.radon == Some(
                Err::<u16, ReadingError>(ReadingError::NoData),
            )
            &&& raw == 0x1F02 ==> r.radon == Some(
                Err::<u16, ReadingError>(ReadingError::HighHumidity),
            )
            &&& 0x1F00 < raw && raw != 0x1F01 && raw != 0x1F02 ==> r.radon == Some(
                Err::<u16, ReadingError>(ReadingError::Invalid),
            )
            &&& raw <= 0x1F00 ==> r.radon == Some(Ok::<u16, ReadingError>(raw))
        }),
{
}

/// Each product line reports its own set of quantities: a radiation sensor
/// no climate and no gas, and a companion sensor no CO₂.
pub proof fn lemma_variant_fields(b: Seq<u8>, r: Reading)
    requires
        decodes_to(b, r),
    ensures
        r.device == Device::AranetRadiation ==> {
            &&& r.raw_temperature is None
            &&& r.raw_pressure is None
            &&& r.raw_humidity is None
            &&& r.co2 is None
            &&& r.radon is None
        },
        r.device == Device::Aranet2 ==> r.co2 is None,
{
}

/// Two measurements with the same sensor data, the same interval and an age
/// that did not go down are repeats exactly while no more than one interval
/// passed between them.
pub proof fn lemma_repeat_within_interval(previous: Reading, newer: Reading, elapsed_secs: nat)
    requires
        same_sensor_data(previous, newer),
        newer.interval == previous.interval,
        newer.age >= previous.age,
    ensures
        repeat_rule(previous, newer, elapsed_secs) <==> elapsed_secs <= newer.interval,
{
}

/// An age that went down marks a fresh measurement, however much time
/// passed.
pub proof fn lemma_age_rollover_is_fresh(previous: Reading, newer: Reading, elapsed_secs: nat)
    requires
        same_sensor_data(previous, newer),
        newer.age < previous.age,
    ensures
        !repeat_rule(previous, newer, elapsed_secs),
{
}

/// A measurement whose sensor data differs from the previous one is fresh,
/// however little time passed.
pub proof fn lemma_new_data_is_fresh(previous: Reading, newer: Reading, elapsed_secs: nat)
    requires
        !same_sensor_data(previous, newer),
    ensures
        !repeat_rule(previous, newer, elapsed_secs),
{
}

} // verus!
