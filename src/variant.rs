use vstd::prelude::*;

verus! {

/// The sensor models whose payloads this library decodes, told apart by the
/// discriminator byte of the payload.
#[derive(Clone, Copy, Debug, PartialEq, Eq, Structural)]
pub enum SensorVariant {
    Ibs03,
    Ibs03R,
    Ibs03TRh,
    Ibs03G,
    Ibs03Tp,
    Ibs05,
    Ibs05H,
    Ibs05T,
    Ibs05G,
}

/// The variant that a discriminator byte selects, if any.
pub open spec fn variant_of(code: u8) -> Option<SensorVariant> {
    if code == 0x10 {
        Some(SensorVariant::Ibs03)
    } else if code == 0x13 {
        Some(SensorVariant::Ibs03R)
    } else if code == 0x14 {
        Some(SensorVariant::Ibs03TRh)
    } else if code == 0x16 {
        Some(SensorVariant::Ibs03G)
    } else if code == 0x17 {
        Some(SensorVariant::Ibs03Tp)
    } else if code == 0x30 {
        Some(SensorVariant::Ibs05)
    } else if code == 0x31 {
        Some(SensorVariant::Ibs05H)
    } else if code == 0x32 {
        Some(SensorVariant::Ibs05T)
    } else if code == 0x33 {
        Some(SensorVariant::Ibs05G)
    } else {
        None
    }
}

impl SensorVariant {
    /// The label under which readings of this variant are reported.
    pub open spec fn label_view(self) -> Seq<char> {
        match self {
            SensorVariant::Ibs03 => "iBS03"@,
            SensorVariant::Ibs03R => "iBS03R"@,
            SensorVariant::Ibs03TRh => "iBS03T_RH"@,
            SensorVariant::Ibs03G => "iBS03G"@,
            SensorVariant::Ibs03Tp => "iBS03TP"@,
            SensorVariant::Ibs05 => "iBS05"@,
            SensorVariant::Ibs05H => "iBS05H"@,
            SensorVariant::Ibs05T => "iBS05T"@,
            SensorVariant::Ibs05G => "iBS05G"@,
        }
    }

    /// Whether a payload of this variant carries a temperature at offset 5.
    pub open spec fn spec_has_temperature(self) -> bool {
        self == SensorVariant::Ibs03TRh || self == SensorVariant::Ibs03Tp || self
            == SensorVariant::Ibs05T
    }

    /// Whether a payload of this variant carries a probe temperature at offset 7.
    pub open spec fn spec_has_ext_temperature(self) -> bool {
        self == SensorVariant::Ibs03Tp
    }

    /// Whether a payload of this variant carries a relative humidity at offset 7.
    pub open spec fn spec_has_humidity(self) -> bool {
        self == SensorVariant::Ibs03TRh
    }

    /// Whether a payload of this variant carries a distance at offset 7.
    pub open spec fn spec_has_distance(self) -> bool {
        self == SensorVariant::Ibs03R
    }

    /// Looks up the variant for a discriminator byte.
    pub fn from_code(code: u8) -> (r: Option<SensorVariant>)
        ensures
            r == variant_of(code),
    {
        match code {
            0x10 => Some(SensorVariant::Ibs03),
            0x13 => Some(SensorVariant::Ibs03R),
            0x14 => Some(SensorVariant::Ibs03TRh),
            0x16 => Some(SensorVariant::Ibs03G),
            0x17 => Some(SensorVariant::Ibs03Tp),
            0x30 => Some(SensorVariant::Ibs05),
            0x31 => Some(SensorVariant::Ibs05H),
            0x32 => Some(SensorVariant::Ibs05T),
            0x33 => Some(SensorVariant::Ibs05G),
            _ => None,
        }
    }

    /// The label under which readings of this variant are reported.
    pub fn label(&self) -> (r: &'static str)
        ensures
            r@ == self.label_view(),
    {
        match self {
            SensorVariant::Ibs03 => "iBS03",
            SensorVariant::Ibs03R => "iBS03R",
            SensorVariant::Ibs03TRh => "iBS03T_RH",
            SensorVariant::Ibs03G => "iBS03G",
            SensorVariant::Ibs03Tp => "iBS03TP",
            SensorVariant::Ibs05 => "iBS05",
            SensorVariant::Ibs05H => "iBS05H",
            SensorVariant::Ibs05T => "iBS05T",
            SensorVariant::Ibs05G => "iBS05G",
        }
    }

    /// Whether readings of this variant carry a temperature.
    pub fn has_temperature(&self) -> (r: bool)
        ensures
            r == self.spec_has_temperature(),
    {
        matches!(self, SensorVariant::Ibs03TRh | SensorVariant::Ibs03Tp | SensorVariant::Ibs05T)
    }

    /// Whether readings of this variant carry a probe temperature.
    pub fn has_ext_temperature(&self) -> (r: bool)
        ensures
            r == self.spec_has_ext_temperature(),
    {
        matches!(self, SensorVariant::Ibs03Tp)
    }

    /// Whether readings of this variant carry a relative humidity.
    pub fn has_humidity(&self) -> (r: bool)
        ensures
            r == self.spec_has_humidity(),
    {
        matches!(self, SensorVariant::Ibs03TRh)
    }

    /// Whether readings of this variant carry a distance.
    pub fn has_distance(&self) -> (r: bool)
        ensures
            r == self.spec_has_distance(),
    {
        matches!(self, SensorVariant::Ibs03R)
    }
}

} // verus!
