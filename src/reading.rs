use crate::clock::Timestamp;
use crate::variant::SensorVariant;
use vstd::prelude::*;

verus! {

/// One decoded beacon broadcast.
///
/// Scaled quantities are kept exactly, as the integers that the payload
/// carries: `battery` in hundredths of a volt, `temperature` and
/// `ext_temperature` in hundredths of a degree Celsius.
#[derive(Clone, Copy, Debug)]
pub struct SensorReading {
    /// When the broadcast was decoded; not taken from the payload.
    pub time: Timestamp,
    pub sensor_type: SensorVariant,
    pub temperature: Option<u32>,
    pub ext_temperature: Option<u32>,
    /// Relative humidity in percent.
    pub humidity: Option<u32>,
    /// Distance in millimetres.
    pub distance: Option<u32>,
    pub battery: u32,
    /// The identifier that the owner configured on the device.
    pub userdata: u32,
    /// Event flags, passed through as the device sent them.
    pub event_status: u8,
}

impl SensorReading {
    /// Two readings agree on everything but the time at which they were taken.
    pub open spec fn same_measurement(self, other: SensorReading) -> bool {
        &&& self.sensor_type == other.sensor_type
        &&& self.temperature == other.temperature
        &&& self.ext_temperature == other.ext_temperature
        &&& self.humidity == other.humidity
        &&& self.distance == other.distance
        &&& self.battery == other.battery
        &&& self.userdata == other.userdata
        &&& self.event_status == other.event_status
    }
}

/// Readings compare by what was measured; the decode time is left out.
impl PartialEq for SensorReading {
    fn eq(&self, other: &SensorReading) -> (r: bool) {
        self.sensor_type == other.sensor_type && self.temperature == other.temperature
            && self.ext_temperature == other.ext_temperature && self.humidity == other.humidity
            && self.distance == other.distance && self.battery == other.battery
            && self.userdata == other.userdata && self.event_status == other.event_status
    }
}

impl vstd::std_specs::cmp::PartialEqSpecImpl for SensorReading {
    open spec fn obeys_eq_spec() -> bool {
        true
    }

    open spec fn eq_spec(&self, other: &SensorReading) -> bool {
        self.same_measurement(*other)
    }
}

} // verus!
