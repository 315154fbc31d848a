//! The supported sensor models and the scale of their readings.

use vstd::prelude::*;
use vstd::string::StrSliceExecFns;

verus! {

/// The input names no supported sensor model.
#[derive(Debug, Copy, Clone, PartialEq, Eq, Hash, Structural)]
pub struct UnknownDeviceVariant;

/// A scale constant held exactly: the physical quantity that one count
/// stands for is `num / den` units.
#[derive(Debug, Copy, Clone, PartialEq, Eq, Hash, Structural)]
pub struct Scale {
    pub num: u32,
    pub den: u32,
}

/// The supported sensor models.
#[allow(non_camel_case_types)]
#[derive(Debug, Copy, Clone, PartialEq, Eq, Hash, Structural)]
pub enum AdisVersion {
    ADIS16505_1BMLZ,
    ADIS16505_2BMLZ,
    ADIS16505_3BMLZ,
    ADIS16465_1BMLZ,
    ADIS16465_2BMLZ,
    ADIS16465_3BMLZ,
}

/// Whether two strings hold the same characters.
fn same_text(left: &str, right: &str) -> (same: bool)
    ensures
        same == (left@ == right@),
{
    let count: usize = left.unicode_len();
    if count != right.unicode_len() {
        return false;
    }
    let mut i: usize = 0;
    while i < count
        invariant
            count == left@.len(),
            count == right@.len(),
            i <= count,
            forall|j: int| 0 <= j < i ==> left@[j] == right@[j],
        decreases count - i,
    {
        if left.get_char(i) != right.get_char(i) {
            return false;
        }
        i += 1;
    }
    assert(left@ =~= right@);
    true
}

impl AdisVersion {
    /// The model with the given product number and range digit, if any.
    pub open spec fn with_id(prod_id: u32, version: u32) -> Option<AdisVersion> {
        if prod_id == 16505 && version == 1 {
            Some(AdisVersion::ADIS16505_1BMLZ)
        } else if prod_id == 16505 && version == 2 {
            Some(AdisVersion::ADIS16505_2BMLZ)
        } else if prod_id == 16505 && version == 3 {
            Some(AdisVersion::ADIS16505_3BMLZ)
        } else if prod_id == 16465 && version == 1 {
            Some(AdisVersion::ADIS16465_1BMLZ)
        } else if prod_id == 16465 && version == 2 {
            Some(AdisVersion::ADIS16465_2BMLZ)
        } else if prod_id == 16465 && version == 3 {
            Some(AdisVersion::ADIS16465_3BMLZ)
        } else {
            None
        }
    }

    /// The canonical name of the model.
    pub open spec fn name(self) -> Seq<char> {
        match self {
            AdisVersion::ADIS16505_1BMLZ => "ADIS16505_1BMLZ"@,
            AdisVersion::ADIS16505_2BMLZ => "ADIS16505_2BMLZ"@,
            AdisVersion::ADIS16505_3BMLZ => "ADIS16505_3BMLZ"@,
            AdisVersion::ADIS16465_1BMLZ => "ADIS16465_1BMLZ"@,
            AdisVersion::ADIS16465_2BMLZ => "ADIS16465_2BMLZ"@,
            AdisVersion::ADIS16465_3BMLZ => "ADIS16465_3BMLZ"@,
        }
    }

    /// The model whose canonical name is `text`, if any.
    pub open spec fn with_name(text: Seq<char>) -> Option<AdisVersion> {
        if text == AdisVersion::ADIS16505_1BMLZ.name() {
            Some(AdisVersion::ADIS16505_1BMLZ)
        } else if text == AdisVersion::ADIS16505_2BMLZ.name() {
            Some(AdisVersion::ADIS16505_2BMLZ)
        } else if text == AdisVersion::ADIS16505_3BMLZ.name() {
            Some(AdisVersion::ADIS16505_3BMLZ)
        } else if text == AdisVersion::ADIS16465_1BMLZ.name() {
            Some(AdisVersion::ADIS16465_1BMLZ)
        } else if text == AdisVersion::ADIS16465_2BMLZ.name() {
            Some(AdisVersion::ADIS16465_2BMLZ)
        } else if text == AdisVersion::ADIS16465_3BMLZ.name() {
            Some(AdisVersion::ADIS16465_3BMLZ)
        } else {
            None
        }
    }

    /// Product number of the model.
    pub open spec fn prod_id(self) -> u32 {
        match self {
            AdisVersion::ADIS16505_1BMLZ => 16505,
            AdisVersion::ADIS16505_2BMLZ => 16505,
            AdisVersion::ADIS16505_3BMLZ => 16505,
            AdisVersion::ADIS16465_1BMLZ => 16465,
            AdisVersion::ADIS16465_2BMLZ => 16465,
            AdisVersion::ADIS16465_3BMLZ => 16465,
        }
    }

    /// Range digit of the model.
    pub open spec fn range(self) -> u32 {
        match self {
            AdisVersion::ADIS16505_1BMLZ => 1,
            AdisVersion::ADIS16505_2BMLZ => 2,
            AdisVersion::ADIS16505_3BMLZ => 3,
            AdisVersion::ADIS16465_1BMLZ => 1,
            AdisVersion::ADIS16465_2BMLZ => 2,
            AdisVersion::ADIS16465_3BMLZ => 3,
        }
    }

    /// Degrees per second in one gyroscope count.
    pub open spec fn gyro_scale(self) -> Scale {
        match self.range() {
            1 => Scale { num: 625, den: 100_000 },
            2 => Scale { num: 25, den: 1_000 },
            _ => Scale { num: 1, den: 10 },
        }
    }

    /// Metres per second squared in one accelerometer count.
    pub open spec fn accl_scale(self) -> Scale {
        if self.prod_id() == 16505 {
            Scale { num: 245, den: 100_000 }
        } else {
            Scale { num: 24_516_625, den: 10_000_000 }
        }
    }

    /// Degrees in one delta-angle count.
    pub open spec fn deltang_scale(self) -> Scale {
        match self.range() {
            1 => Scale { num: 360, den: 1 },
            2 => Scale { num: 720, den: 1 },
            _ => Scale { num: 2160, den: 1 },
        }
    }

    /// Metres per second in one delta-velocity count.
    pub open spec fn deltvel_scale(self) -> Scale {
        Scale { num: 100, den: 32_768 }
    }

    /// Degrees Celsius in one temperature count.
    pub open spec fn temp_scale(self) -> Scale {
        Scale { num: 1, den: 10 }
    }

    /// Looks a model up by product number and range digit.
    pub fn from_id(prod_id: u32, version: u32) -> (found: Result<Self, UnknownDeviceVariant>)
        ensures
            found == match AdisVersion::with_id(prod_id, version) {
                Some(model) => Ok::<AdisVersion, UnknownDeviceVariant>(model),
                None => Err(UnknownDeviceVariant),
            },
    {
        if prod_id == 16505 && version == 1 {
            Ok(AdisVersion::ADIS16505_1BMLZ)
        } else if prod_id == 16505 && version == 2 {
            Ok(AdisVersion::ADIS16505_2BMLZ)
        } else if prod_id == 16505 && version == 3 {
            Ok(AdisVersion::ADIS16505_3BMLZ)
        } else if prod_id == 16465 && version == 1 {
            Ok(AdisVersion::ADIS16465_1BMLZ)
        } else if prod_id == 16465 && version == 2 {
            Ok(AdisVersion::ADIS16465_2BMLZ)
        } else if prod_id == 16465 && version == 3 {
            Ok(AdisVersion::ADIS16465_3BMLZ)
        } else {
            Err(UnknownDeviceVariant)
        }
    }

    /// Scale of the gyroscope readings.
    pub fn gyro_constant(&self) -> (scale: Scale)
        ensures
            scale == self.gyro_scale(),
    {
        match self {
            AdisVersion::ADIS16505_1BMLZ | AdisVersion::ADIS16465_1BMLZ => Scale {
                num: 625,
                den: 100_000,
            },
            AdisVersion::ADIS16505_2BMLZ | AdisVersion::ADIS16465_2BMLZ => Scale {
                num: 25,
                den: 1_000,
            },
            AdisVersion::ADIS16505_3BMLZ | AdisVersion::ADIS16465_3BMLZ => Scale {
                num: 1,
                den: 10,
            },
        }
    }

    /// Scale of the accelerometer readings.
    pub fn accl_constant(&self) -> (scale: Scale)
        ensures
            scale == self.accl_scale(),
    {
        match self {
            AdisVersion::ADIS16505_1BMLZ
            | AdisVersion::ADIS16505_2BMLZ
            | AdisVersion::ADIS16505_3BMLZ => Scale { num: 245, den: 100_000 },
            AdisVersion::ADIS16465_1BMLZ
            | AdisVersion::ADIS16465_2BMLZ
            | AdisVersion::ADIS16465_3BMLZ => Scale { num: 24_516_625, den: 10_000_000 },
        }
    }

    /// Scale of the delta-angle readings.
    pub fn deltang_constant(&self) -> (scale: Scale)
        ensures
            scale == self.deltang_scale(),
    {
        match self {
            AdisVersion::ADIS16505_1BMLZ | AdisVersion::ADIS16465_1BMLZ => Scale {
                num: 360,
                den: 1,
            },
            AdisVersion::ADIS16505_2BMLZ | AdisVersion::ADIS16465_2BMLZ => Scale {
                num: 720,
                den: 1,
            },
            AdisVersion::ADIS16505_3BMLZ | AdisVersion::ADIS16465_3BMLZ => Scale {
                num: 2160,
                den: 1,
            },
        }
    }

    /// Scale of the delta-velocity readings, the same for every model.
    pub fn deltvel_constant(&self) -> (scale: Scale)
        ensures
            scale == self.deltvel_scale(),
    {
        Scale { num: 100, den: 32_768 }
    }

    /// Scale of the temperature reading, the same for every model.
    pub fn temp_constant(&self) -> (scale: Scale)
        ensures
            scale == self.temp_scale(),
    {
        Scale { num: 1, den: 10 }
    }
}

impl TryFrom<&str> for AdisVersion {
    type Error = UnknownDeviceVariant;

    /// Looks a model up by its canonical name.
    fn try_from(s: &str) -> (found: Result<Self, UnknownDeviceVariant>) {
        if same_text(s, "ADIS16505_1BMLZ") {
            Ok(AdisVersion::ADIS16505_1BMLZ)
        } else if same_text(s, "ADIS16505_2BMLZ") {
            Ok(AdisVersion::ADIS16505_2BMLZ)
        } else if same_text(s, "ADIS16505_3BMLZ") {
            Ok(AdisVersion::ADIS16505_3BMLZ)
        } else if same_text(s, "ADIS16465_1BMLZ") {
            Ok(AdisVersion::ADIS16465_1BMLZ)
        } else if same_text(s, "ADIS16465_2BMLZ") {
            Ok(AdisVersion::ADIS16465_2BMLZ)
        } else if same_text(s, "ADIS16465_3BMLZ") {
            Ok(AdisVersion::ADIS16465_3BMLZ)
        } else {
            Err(UnknownDeviceVariant)
        }
    }
}

impl vstd::std_specs::convert::TryFromSpecImpl<&str> for AdisVersion {
    open spec fn obeys_try_from_spec() -> bool {
        true
    }

    open spec fn try_from_spec(s: &str) -> Result<Self, UnknownDeviceVariant> {
        match AdisVersion::with_name(s@) {
            Some(model) => Ok(model),
            None => Err(UnknownDeviceVariant),
        }
    }
}

/// Every model is found again by its own product number and range digit,
/// and by its own canonical name: no two models share either.
pub proof fn lemma_lookup_finds_each(model: AdisVersion)
    ensures
        AdisVersion::with_id(model.prod_id(), model.range()) == Some(model),
        AdisVersion::with_name(model.name()) == Some(model),
{
    reveal_strlit("ADIS16505_1BMLZ");
    reveal_strlit("ADIS16505_2BMLZ");
    reveal_strlit("ADIS16505_3BMLZ");
    reveal_strlit("ADIS16465_1BMLZ");
    reveal_strlit("ADIS16465_2BMLZ");
    reveal_strlit("ADIS16465_3BMLZ");
    let a1 = AdisVersion::ADIS16505_1BMLZ.name();
    let a2 = AdisVersion::ADIS16505_2BMLZ.name();
    let a3 = AdisVersion::ADIS16505_3BMLZ.name();
    let b1 = AdisVersion::ADIS16465_1BMLZ.name();
    let b2 = AdisVersion::ADIS16465_2BMLZ.name();
    let b3 = AdisVersion::ADIS16465_3BMLZ.name();
    assert(a1[10] == '1' && a2[10] == '2' && a3[10] == '3');
    assert(b1[10] == '1' && b2[10] == '2' && b3[10] == '3');
    assert(a1[6] == '5' && a2[6] == '5' && a3[6] == '5');
    assert(b1[6] == '4' && b2[6] == '4' && b3[6] == '4');
}

} // verus!
