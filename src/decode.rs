use crate::bytes::{convert_byte, le16};
use crate::clock::{now, Timestamp};
use crate::reading::SensorReading;
use crate::variant::{variant_of, SensorVariant};
use vstd::prelude::*;
use vstd::std_specs::cmp::PartialEqSpec;

verus! {

/// The fewest bytes a payload must have: the discriminator sits at offset 11.
pub const MIN_PAYLOAD_LEN: usize = 12;

/// Why a payload yields no reading.
#[derive(Clone, Copy, Debug, PartialEq, Eq, Structural)]
pub enum DecodeError {
    /// The payload is too short to hold the fixed fields.
    Malformed,
    /// The discriminator byte names no variant that this library decodes.
    NotRecognized,
}

/// The 16-bit little-endian field that starts at offset `i`.
pub open spec fn field(data: Seq<u8>, i: int) -> nat {
    le16(data[i], data[i + 1])
}

/// The field at offset `i` where the variant carries it, else nothing.
pub open spec fn optional_field(present: bool, data: Seq<u8>, i: int) -> Option<u32> {
    if present {
        Some(field(data, i) as u32)
    } else {
        None
    }
}

/// The outcome that a payload must give, where it gives no reading.
pub open spec fn payload_error(data: Seq<u8>) -> Option<DecodeError> {
    if data.len() < MIN_PAYLOAD_LEN {
        Some(DecodeError::Malformed)
    } else if variant_of(data[11]) is None {
        Some(DecodeError::NotRecognized)
    } else {
        None
    }
}

/// `r` holds exactly what the payload `data` encodes (the time aside).
pub open spec fn describes(r: SensorReading, data: Seq<u8>) -> bool {
    let v = r.sensor_type;
    &&& data.len() >= MIN_PAYLOAD_LEN
    &&& variant_of(data[11]) == Some(v)
    &&& r.battery == field(data, 2)
    &&& r.event_status == data[4]
    &&& r.userdata == field(data, 9)
    &&& r.temperature == optional_field(v.spec_has_temperature(), data, 5)
    &&& r.ext_temperature == optional_field(v.spec_has_ext_temperature(), data, 7)
    &&& r.humidity == optional_field(v.spec_has_humidity(), data, 7)
    &&& r.distance == optional_field(v.spec_has_distance(), data, 7)
}

/// Reads the 16-bit little-endian field at offset `i` where `present` holds.
fn read_optional(data: &[u8], present: bool, i: usize) -> (r: Option<u32>)
    requires
        i + 1 < data@.len(),
    ensures
        r == optional_field(present, data@, i as int),
{
    if present {
        Some(convert_byte(data[i], data[i + 1]))
    } else {
        None
    }
}

/// Decodes a beacon payload, stamping the reading with `time`.
pub fn decode(data: &[u8], time: Timestamp) -> (r: Result<SensorReading, DecodeError>)
    ensures
        match r {
            Ok(reading) => payload_error(data@) is None && describes(reading, data@)
                && reading.time == time,
            Err(e) => payload_error(data@) == Some(e),
        },
{
    if data.len() < MIN_PAYLOAD_LEN {
        return Err(DecodeError::Malformed);
    }
    let v = match SensorVariant::from_code(data[11]) {
        Some(v) => v,
        None => return Err(DecodeError::NotRecognized),
    };
    Ok(
        SensorReading {
            time,
            sensor_type: v,
            temperature: read_optional(data, v.has_temperature(), 5),
            ext_temperature: read_optional(data, v.has_ext_temperature(), 7),
            humidity: read_optional(data, v.has_humidity(), 7),
            distance: read_optional(data, v.has_distance(), 7),
            battery: convert_byte(data[2], data[3]),
            userdata: convert_byte(data[9], data[10]),
            event_status: data[4],
        },
    )
}

/// Decodes a beacon payload, stamping the reading with the current time.
/// Gives nothing where the payload is too short or of an unknown variant.
pub fn parse_data(data: &[u8]) -> (r: Option<SensorReading>)
    ensures
        r is Some <==> payload_error(data@) is None,
        r matches Some(reading) ==> describes(reading, data@),
{
    match decode(data, now()) {
        Ok(reading) => Some(reading),
        Err(_) => None,
    }
}

/// Two readings decoded from the same payload, at whatever instants, compare
/// equal: equality looks at what was measured and never at the time.
pub proof fn lemma_equal_whenever_decoded(data: Seq<u8>, first: SensorReading, second: SensorReading)
    requires
        describes(first, data),
        describes(second, data),
    ensures
        first.eq_spec(&second),
{
}

/// Each variant fills exactly its own optional fields and leaves the others
/// absent, whatever bytes stand at their offsets.
pub proof fn lemma_field_presence(r: SensorReading, data: Seq<u8>)
    requires
        describes(r, data),
    ensures
        r.temperature is Some <==> (r.sensor_type == SensorVariant::Ibs03TRh || r.sensor_type
            == SensorVariant::Ibs03Tp || r.sensor_type == SensorVariant::Ibs05T),
        r.ext_temperature is Some <==> r.sensor_type == SensorVariant::Ibs03Tp,
        r.humidity is Some <==> r.sensor_type == SensorVariant::Ibs03TRh,
        r.distance is Some <==> r.sensor_type == SensorVariant::Ibs03R,
        !(r.humidity is Some && r.ext_temperature is Some),
{
}

} // verus!
