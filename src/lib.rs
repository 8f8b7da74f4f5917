//! Decoder for the manufacturer-data payloads broadcast by iBS sensor beacons.
mod bytes;
mod clock;
mod decode;
mod reading;
mod variant;

pub use bytes::{convert_byte, le16};
pub use clock::Timestamp;
pub use decode::{
    decode, describes, field, lemma_equal_whenever_decoded, lemma_field_presence,
    optional_field, parse_data, payload_error, DecodeError, MIN_PAYLOAD_LEN,
};
pub use reading::SensorReading;
pub use variant::{variant_of, SensorVariant};
