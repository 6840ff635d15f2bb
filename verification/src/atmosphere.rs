//! The inputs of an atmosphere, conditioned at construction, and the choice
//! of coefficients for the Tetens equation.

use vstd::prelude::*;
use vstd::arithmetic::power2::lemma2_to64_rest;
use crate::binary64::Binary64;
use crate::vector3::Vector3;

verus! {

/// Where a relative humidity lies with respect to the interval from 0 to 1.
#[derive(Clone, Copy, Debug, PartialEq, Eq, Structural)]
pub enum HumidityRange {
    /// Below 0.
    Below,
    /// Not below 0 and not above 1.  A NaN lies here: it compares with
    /// neither bound.
    Within,
    /// Above 1.
    Above,
}

/// Where `humidity` lies: above 1, below 0, or neither.
pub open spec fn spec_humidity_range(humidity: Binary64) -> HumidityRange {
    if humidity.spec_gt(Binary64::spec_one()) {
        HumidityRange::Above
    } else if humidity.spec_lt(Binary64::spec_zero()) {
        HumidityRange::Below
    } else {
        HumidityRange::Within
    }
}

/// The humidity that an atmosphere stores for a given input: the nearest
/// bound for an input outside the interval, the input itself otherwise.
pub open spec fn spec_clamp_humidity(humidity: Binary64) -> Binary64 {
    match spec_humidity_range(humidity) {
        HumidityRange::Above => Binary64::spec_one(),
        HumidityRange::Below => Binary64::spec_zero(),
        HumidityRange::Within => humidity,
    }
}

/// Classifies a relative humidity.  Any result but `Within` means that
/// construction will replace the input, which a caller may want to report.
#[verifier::when_used_as_spec(spec_humidity_range)]
pub fn humidity_range(humidity: Binary64) -> (range: HumidityRange)
    ensures
        range == spec_humidity_range(humidity),
{
    if humidity.gt(Binary64::one()) {
        HumidityRange::Above
    } else if humidity.lt(Binary64::zero()) {
        HumidityRange::Below
    } else {
        HumidityRange::Within
    }
}

/// Brings a relative humidity into the interval from 0 to 1.
#[verifier::when_used_as_spec(spec_clamp_humidity)]
pub fn clamp_humidity(humidity: Binary64) -> (clamped: Binary64)
    ensures
        clamped == spec_clamp_humidity(humidity),
        humidity_range(clamped) == HumidityRange::Within,
        !humidity.is_nan() ==> 0 <= clamped.scaled() <= Binary64::spec_one().scaled(),
{
    proof {
        Binary64::lemma_zero_below_one();
    }
    match humidity_range(humidity) {
        HumidityRange::Above => Binary64::one(),
        HumidityRange::Below => Binary64::zero(),
        HumidityRange::Within => humidity,
    }
}

/// The bits of the factor of the Tetens equation, 0.61078.
pub const TETENS_SCALE_BITS: u64 = 0x3FE3_8B82_7FA1_A0CF;

/// The bits of the slope below freezing, 17.27.
pub const FROST_SLOPE_BITS: u64 = 0x4031_451E_B851_EB85;

/// The bits of the shift below freezing, 265.5.
pub const FROST_SHIFT_BITS: u64 = 0x4070_9800_0000_0000;

/// The bits of the slope from freezing up, 21.875.
pub const THAW_SLOPE_BITS: u64 = 0x4035_E000_0000_0000;

/// The bits of the shift from freezing up, 237.3.
pub const THAW_SHIFT_BITS: u64 = 0x406D_A999_9999_999A;

/// The coefficients of the Tetens equation, which estimates the saturation
/// vapour pressure as `scale * exp(slope * t / (c + shift))`.
#[derive(Clone, Copy, Debug)]
pub struct TetensCoefficients {
    pub scale: Binary64,
    pub slope: Binary64,
    pub shift: Binary64,
}

/// The coefficients for a temperature in degrees Celsius: one set below
/// freezing, the other from freezing up.  A NaN is not below freezing.
pub open spec fn spec_tetens_coefficients(celsius: Binary64) -> TetensCoefficients {
    if celsius.spec_lt(Binary64::spec_zero()) {
        TetensCoefficients {
            scale: Binary64 { bits: TETENS_SCALE_BITS },
            slope: Binary64 { bits: FROST_SLOPE_BITS },
            shift: Binary64 { bits: FROST_SHIFT_BITS },
        }
    } else {
        TetensCoefficients {
            scale: Binary64 { bits: TETENS_SCALE_BITS },
            slope: Binary64 { bits: THAW_SLOPE_BITS },
            shift: Binary64 { bits: THAW_SHIFT_BITS },
        }
    }
}

/// Chooses the coefficients of the Tetens equation by the sign of the
/// temperature in degrees Celsius.
#[verifier::when_used_as_spec(spec_tetens_coefficients)]
pub fn tetens_coefficients(celsius: Binary64) -> (coefficients: TetensCoefficients)
    ensures
        coefficients == spec_tetens_coefficients(celsius),
{
    let scale = Binary64::from_bits(TETENS_SCALE_BITS);
    if celsius.lt(Binary64::zero()) {
        TetensCoefficients {
            scale,
            slope: Binary64::from_bits(FROST_SLOPE_BITS),
            shift: Binary64::from_bits(FROST_SHIFT_BITS),
        }
    } else {
        TetensCoefficients {
            scale,
            slope: Binary64::from_bits(THAW_SLOPE_BITS),
            shift: Binary64::from_bits(THAW_SHIFT_BITS),
        }
    }
}

/// The coefficients lie within half a spacing of their decimal figures:
/// 0.61078; 17.27 and 265.5 below freezing; 21.875 and 237.3 from freezing
/// up.
pub proof fn lemma_tetens_figures(celsius: Binary64)
    ensures
        tetens_coefficients(celsius).scale.approximates(61078, 100000),
        celsius.spec_lt(Binary64::spec_zero()) ==> {
            &&& tetens_coefficients(celsius).slope.approximates(1727, 100)
            &&& tetens_coefficients(celsius).shift.approximates(2655, 10)
        },
        !celsius.spec_lt(Binary64::spec_zero()) ==> {
            &&& tetens_coefficients(celsius).slope.approximates(21875, 1000)
            &&& tetens_coefficients(celsius).shift.approximates(2373, 10)
        },
{
    lemma2_to64_rest();
    Binary64 { bits: TETENS_SCALE_BITS }.lemma_approximates(61078, 100000, 53);
    Binary64 { bits: FROST_SLOPE_BITS }.lemma_approximates(1727, 100, 48);
    Binary64 { bits: FROST_SHIFT_BITS }.lemma_approximates(2655, 10, 44);
    Binary64 { bits: THAW_SLOPE_BITS }.lemma_approximates(21875, 1000, 48);
    Binary64 { bits: THAW_SHIFT_BITS }.lemma_approximates(2373, 10, 45);
}

/// The state of the air that a projectile flies through.  Fixed once
/// constructed.
#[derive(Clone, Copy, Debug)]
pub struct Atmosphere {
    temperature: Binary64,
    humidity: Binary64,
    elevation: Binary64,
    wind: Vector3,
}

impl Atmosphere {
    /// The stored humidity is never below 0 nor above 1.
    #[verifier::type_invariant]
    spec fn humidity_in_range(self) -> bool {
        humidity_range(self.humidity) == HumidityRange::Within
    }

    /// The absolute temperature.
    pub closed spec fn spec_temperature(&self) -> Binary64 {
        self.temperature
    }

    /// The relative humidity.
    pub closed spec fn spec_humidity(&self) -> Binary64 {
        self.humidity
    }

    /// The elevation above sea level.
    pub closed spec fn spec_elevation(&self) -> Binary64 {
        self.elevation
    }

    /// The wind velocity.
    pub closed spec fn spec_wind(&self) -> Vector3 {
        self.wind
    }

    /// An atmosphere with the given absolute temperature, elevation and
    /// wind, and with the relative humidity brought into the interval from
    /// 0 to 1.
    pub fn new(
        temperature: Binary64,
        humidity: Binary64,
        elevation: Binary64,
        wind: Vector3,
    ) -> (atmosphere: Atmosphere)
        ensures
            atmosphere.temperature() == temperature,
            atmosphere.humidity() == clamp_humidity(humidity),
            atmosphere.elevation() == elevation,
            atmosphere.wind() == wind,
    {
        Atmosphere { temperature, humidity: clamp_humidity(humidity), elevation, wind }
    }

    /// The absolute temperature.
    #[verifier::when_used_as_spec(spec_temperature)]
    pub fn temperature(&self) -> (temperature: Binary64)
        ensures
            temperature == self.spec_temperature(),
    {
        self.temperature
    }

    /// The relative humidity, never below 0 nor above 1.
    #[verifier::when_used_as_spec(spec_humidity)]
    pub fn humidity(&self) -> (humidity: Binary64)
        ensures
            humidity == self.spec_humidity(),
            humidity_range(humidity) == HumidityRange::Within,
            !humidity.is_nan() ==> 0 <= humidity.scaled() <= Binary64::spec_one().scaled(),
    {
        proof {
            use_type_invariant(self);
            Binary64::lemma_zero_below_one();
        }
        self.humidity
    }

    /// The elevation above sea level.
    #[verifier::when_used_as_spec(spec_elevation)]
    pub fn elevation(&self) -> (elevation: Binary64)
        ensures
            elevation == self.spec_elevation(),
    {
        self.elevation
    }

    /// The wind velocity.
    #[verifier::when_used_as_spec(spec_wind)]
    pub fn wind(&self) -> (wind: Vector3)
        ensures
            wind == self.spec_wind(),
    {
        self.wind
    }
}

} // verus!
