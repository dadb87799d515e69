//! Decoded beacon payloads and the readings they expose.
//!
//! A measured real number (a temperature, a humidity, a particle density) is
//! carried through this library untouched: every type here is parametric in
//! `R`, the representation of such a number, and nothing computes with it.
//! Where a reading is a fraction of what the beacon reports, the divisor is
//! attached and the division is left to whoever publishes the value.

use vstd::prelude::*;

verus! {

/// What a number is to be divided by before it is published.
#[derive(Clone, Copy, Debug, PartialEq, Eq)]
pub enum Divisor {
    One,
    Hundred,
    Thousand,
}

impl Divisor {
    /// The divisor as an integer.
    pub open spec fn as_int(self) -> int {
        match self {
            Divisor::One => 1,
            Divisor::Hundred => 100,
            Divisor::Thousand => 1000,
        }
    }

    /// The divisor as a machine integer.
    pub fn get(&self) -> (r: u16)
        ensures
            r == self.as_int(),
    {
        match self {
            Divisor::One => 1,
            Divisor::Hundred => 100,
            Divisor::Thousand => 1000,
        }
    }
}

/// A number as the beacon reported it.
#[derive(Clone, Copy, Debug, PartialEq)]
pub enum Number<R> {
    /// A measured real number.
    Real(R),
    /// An exact signed count.
    Signed(i64),
    /// An exact unsigned count.
    Unsigned(u64),
}

/// The value of one gauge: `number` divided by `divisor`.
#[derive(Clone, Copy, Debug, PartialEq)]
pub struct Value<R> {
    pub number: Number<R>,
    pub divisor: Divisor,
}

/// A measured real number, as it is.
pub open spec fn measured<R>(r: R) -> Value<R> {
    Value { number: Number::Real(r), divisor: Divisor::One }
}

/// A measured real number, divided by `divisor`.
pub open spec fn measured_over<R>(r: R, divisor: Divisor) -> Value<R> {
    Value { number: Number::Real(r), divisor }
}

/// A signed count `n`, divided by `divisor`.
pub open spec fn signed_over<R>(n: int, divisor: Divisor) -> Value<R> {
    Value { number: Number::Signed(n as i64), divisor }
}

/// An unsigned count `n`, divided by `divisor`.
pub open spec fn unsigned_over<R>(n: int, divisor: Divisor) -> Value<R> {
    Value { number: Number::Unsigned(n as u64), divisor }
}

/// `measured_over` of an optional number.
pub open spec fn opt_measured<R>(r: Option<R>, divisor: Divisor) -> Option<Value<R>> {
    match r {
        Some(x) => Some(measured_over(x, divisor)),
        None => None,
    }
}

/// `signed_over` of an optional count.
pub open spec fn opt_signed<R>(n: Option<int>, divisor: Divisor) -> Option<Value<R>> {
    match n {
        Some(x) => Some(signed_over(x, divisor)),
        None => None,
    }
}

/// `unsigned_over` of an optional count.
pub open spec fn opt_unsigned<R>(n: Option<int>, divisor: Divisor) -> Option<Value<R>> {
    match n {
        Some(x) => Some(unsigned_over(x, divisor)),
        None => None,
    }
}

/// The integer inside an optional `i16`.
pub open spec fn int_of_i16(v: Option<i16>) -> Option<int> {
    match v {
        Some(x) => Some(x as int),
        None => None,
    }
}

/// The integer inside an optional `i8`.
pub open spec fn int_of_i8(v: Option<i8>) -> Option<int> {
    match v {
        Some(x) => Some(x as int),
        None => None,
    }
}

/// The integer inside an optional `u8`.
pub open spec fn int_of_u8(v: Option<u8>) -> Option<int> {
    match v {
        Some(x) => Some(x as int),
        None => None,
    }
}

/// The integer inside an optional `u16`.
pub open spec fn int_of_u16(v: Option<u16>) -> Option<int> {
    match v {
        Some(x) => Some(x as int),
        None => None,
    }
}

/// The integer inside an optional `u32`.
pub open spec fn int_of_u32(v: Option<u32>) -> Option<int> {
    match v {
        Some(x) => Some(x as int),
        None => None,
    }
}

impl<R: Copy> Value<R> {
    /// A measured real number, divided by `divisor`.
    pub fn of_real(r: R, divisor: Divisor) -> (v: Self)
        ensures
            v == measured_over(r, divisor),
    {
        Value { number: Number::Real(r), divisor }
    }

    /// A signed count, divided by `divisor`.
    pub fn of_signed(n: i64, divisor: Divisor) -> (v: Self)
        ensures
            v == signed_over::<R>(n as int, divisor),
    {
        Value { number: Number::Signed(n), divisor }
    }

    /// An unsigned count, divided by `divisor`.
    pub fn of_unsigned(n: u64, divisor: Divisor) -> (v: Self)
        ensures
            v == unsigned_over::<R>(n as int, divisor),
    {
        Value { number: Number::Unsigned(n), divisor }
    }
}

/// Temperature, relative humidity and air pressure of one payload.
#[derive(Clone, Copy, Debug, PartialEq)]
pub struct EnvironmentReadings<R> {
    /// Degrees Celsius.
    pub temperature: Value<R>,
    /// Relative humidity as a ratio between 0 and 1.
    pub humidity_ratio: Value<R>,
    /// Hectopascal.
    pub pressure_hpa: Value<R>,
}

/// Acceleration and the state of the beacon itself.
#[derive(Clone, Copy, Debug, PartialEq)]
pub struct MotionReadings<R> {
    /// Acceleration along each axis, in g.
    pub acceleration_x_g: Option<Value<R>>,
    pub acceleration_y_g: Option<Value<R>>,
    pub acceleration_z_g: Option<Value<R>>,
    /// Volts.
    pub battery_voltage: Option<Value<R>>,
    /// dBm.
    pub tx_power: Option<Value<R>>,
    pub movement_count: Option<Value<R>>,
}

/// Particles and gases in the air.
#[derive(Clone, Copy, Debug, PartialEq)]
pub struct AirQualityReadings<R> {
    /// Particle densities in micrograms per cubic metre.
    pub pm1_0: Option<Value<R>>,
    pub pm2_5: Option<Value<R>>,
    pub pm4_0: Option<Value<R>>,
    pub pm10_0: Option<Value<R>>,
    /// Parts per million.
    pub co2: Option<Value<R>>,
    pub voc_index: Option<Value<R>>,
    pub nox_index: Option<Value<R>>,
    /// 1 while the sensor calibrates, else 0.
    pub calibrating: Option<Value<R>>,
}

/// A payload that may report the environment.
pub trait HasEnvironment<R> {
    /// The environment readings of this payload, if it has them.
    spec fn environment_spec(&self) -> Option<EnvironmentReadings<R>>;

    fn environment(&self) -> (r: Option<EnvironmentReadings<R>>)
        ensures
            r == self.environment_spec(),
    ;
}

/// A payload that may report motion.
pub trait HasMotion<R> {
    /// The motion readings of this payload, if it has them.
    spec fn motion_spec(&self) -> Option<MotionReadings<R>>;

    fn motion(&self) -> (r: Option<MotionReadings<R>>)
        ensures
            r == self.motion_spec(),
    ;
}

/// A payload that may report air quality.
pub trait HasAirQuality<R> {
    /// The air quality readings of this payload, if it has them.
    spec fn air_quality_spec(&self) -> Option<AirQualityReadings<R>>;

    fn air_quality(&self) -> (r: Option<AirQualityReadings<R>>)
        ensures
            r == self.air_quality_spec(),
    ;
}

/// A payload that may carry a sequence number.
pub trait HasSequenceNumber<R> {
    /// The sequence number of this payload, if it has one.
    spec fn sequence_number_spec(&self) -> Option<Value<R>>;

    fn sequence_number(&self) -> (r: Option<Value<R>>)
        ensures
            r == self.sequence_number_spec(),
    ;
}

/// The environment readings made of three optional numbers: present when all
/// three are, with the humidity in percent and the pressure to be divided by
/// `pressure_divisor`.
pub open spec fn environment_of<R>(
    temperature: Option<R>,
    humidity: Option<R>,
    pressure: Option<R>,
    pressure_divisor: Divisor,
) -> Option<EnvironmentReadings<R>> {
    if temperature is Some && humidity is Some && pressure is Some {
        Some(
            EnvironmentReadings {
                temperature: measured(temperature->0),
                humidity_ratio: measured_over(humidity->0, Divisor::Hundred),
                pressure_hpa: measured_over(pressure->0, pressure_divisor),
            },
        )
    } else {
        None
    }
}

fn environment_from<R: Copy>(
    temperature: Option<R>,
    humidity: Option<R>,
    pressure: Option<R>,
    pressure_divisor: Divisor,
) -> (r: Option<EnvironmentReadings<R>>)
    ensures
        r == environment_of(temperature, humidity, pressure, pressure_divisor),
{
    match (temperature, humidity, pressure) {
        (Some(t), Some(h), Some(p)) => Some(
            EnvironmentReadings {
                temperature: Value::of_real(t, Divisor::One),
                humidity_ratio: Value::of_real(h, Divisor::Hundred),
                pressure_hpa: Value::of_real(p, pressure_divisor),
            },
        ),
        _ => None,
    }
}

fn measured_from<R: Copy>(r: Option<R>, divisor: Divisor) -> (v: Option<Value<R>>)
    ensures
        v == opt_measured(r, divisor),
{
    match r {
        Some(x) => Some(Value::of_real(x, divisor)),
        None => None,
    }
}

fn signed_from<R: Copy>(n: Option<i64>, divisor: Divisor) -> (v: Option<Value<R>>)
    ensures
        v == opt_signed::<R>(
            match n {
                Some(x) => Some(x as int),
                None => None,
            },
            divisor,
        ),
{
    match n {
        Some(x) => Some(Value::of_signed(x, divisor)),
        None => None,
    }
}

fn unsigned_from<R: Copy>(n: Option<u64>, divisor: Divisor) -> (v: Option<Value<R>>)
    ensures
        v == opt_unsigned::<R>(
            match n {
                Some(x) => Some(x as int),
                None => None,
            },
            divisor,
        ),
{
    match n {
        Some(x) => Some(Value::of_unsigned(x, divisor)),
        None => None,
    }
}

fn widen_i16(v: Option<i16>) -> (r: Option<i64>)
    ensures
        r is Some <==> v is Some,
        v is Some ==> r->0 == v->0,
{
    match v {
        Some(x) => Some(x as i64),
        None => None,
    }
}

fn widen_i8(v: Option<i8>) -> (r: Option<i64>)
    ensures
        r is Some <==> v is Some,
        v is Some ==> r->0 == v->0,
{
    match v {
        Some(x) => Some(x as i64),
        None => None,
    }
}

fn widen_u8(v: Option<u8>) -> (r: Option<u64>)
    ensures
        r is Some <==> v is Some,
        v is Some ==> r->0 == v->0,
{
    match v {
        Some(x) => Some(x as u64),
        None => None,
    }
}

fn widen_u16(v: Option<u16>) -> (r: Option<u64>)
    ensures
        r is Some <==> v is Some,
        v is Some ==> r->0 == v->0,
{
    match v {
        Some(x) => Some(x as u64),
        None => None,
    }
}

fn widen_u32(v: Option<u32>) -> (r: Option<u64>)
    ensures
        r is Some <==> v is Some,
        v is Some ==> r->0 == v->0,
{
    match v {
        Some(x) => Some(x as u64),
        None => None,
    }
}

/// Bit 0 of a flags byte: 1 while the sensor calibrates.
pub open spec fn calibrating_bit(flags: u8) -> int {
    (flags & 1) as int
}

/// The calibrating flag is 0 or 1: it is the parity of the flags byte.
pub proof fn law_calibrating_is_zero_or_one(flags: u8)
    ensures
        calibrating_bit(flags) == flags as int % 2,
        calibrating_bit(flags) == 0 || calibrating_bit(flags) == 1,
{
    assert(flags & 1 == flags % 2) by (bit_vector);
}

/// A payload of the first format: environment, motion and a sequence number.
#[derive(Clone, Copy, Debug, PartialEq)]
pub struct DataFormatV5<R> {
    /// Degrees Celsius.
    pub temperature: Option<R>,
    /// Percent.
    pub humidity: Option<R>,
    /// Pascal.
    pub pressure: Option<R>,
    /// Thousandths of g.
    pub acceleration_x: Option<i16>,
    pub acceleration_y: Option<i16>,
    pub acceleration_z: Option<i16>,
    /// Millivolt.
    pub battery_voltage: Option<u16>,
    /// dBm.
    pub tx_power: Option<i8>,
    pub movement_counter: Option<u8>,
    pub measurement_sequence: Option<u16>,
}

/// A payload of the second format: environment, a part of air quality and a
/// sequence number.
#[derive(Clone, Copy, Debug, PartialEq)]
pub struct DataFormatV6<R> {
    /// Degrees Celsius.
    pub temperature: Option<R>,
    /// Percent.
    pub humidity: Option<R>,
    /// Hectopascal.
    pub pressure: Option<R>,
    pub pm2_5: Option<R>,
    pub co2: Option<u16>,
    pub voc_index: Option<u16>,
    pub nox_index: Option<u16>,
    pub measurement_sequence: Option<u8>,
    pub flags: u8,
}

/// A payload of the extended format: environment, air quality and a sequence
/// number.
#[derive(Clone, Copy, Debug, PartialEq)]
pub struct DataFormatE1<R> {
    /// Degrees Celsius.
    pub temperature: Option<R>,
    /// Percent.
    pub humidity: Option<R>,
    /// Hectopascal.
    pub pressure: Option<R>,
    pub pm1_0: Option<R>,
    pub pm2_5: Option<R>,
    pub pm4_0: Option<R>,
    pub pm10_0: Option<R>,
    pub co2: Option<u16>,
    pub voc_index: Option<u16>,
    pub nox_index: Option<u16>,
    pub measurement_sequence: Option<u32>,
    pub flags: u8,
}

/// A decoded payload, by format.
#[derive(Clone, Copy, Debug, PartialEq)]
pub enum RuuviData<R> {
    V5(DataFormatV5<R>),
    V6(DataFormatV6<R>),
    E1(DataFormatE1<R>),
}

impl<R: Copy> HasEnvironment<R> for DataFormatV5<R> {
    open spec fn environment_spec(&self) -> Option<EnvironmentReadings<R>> {
        environment_of(self.temperature, self.humidity, self.pressure, Divisor::Hundred)
    }

    fn environment(&self) -> (r: Option<EnvironmentReadings<R>>) {
        environment_from(self.temperature, self.humidity, self.pressure, Divisor::Hundred)
    }
}

impl<R: Copy> HasMotion<R> for DataFormatV5<R> {
    open spec fn motion_spec(&self) -> Option<MotionReadings<R>> {
        Some(
            MotionReadings {
                acceleration_x_g: opt_signed(int_of_i16(self.acceleration_x), Divisor::Thousand),
                acceleration_y_g: opt_signed(int_of_i16(self.acceleration_y), Divisor::Thousand),
                acceleration_z_g: opt_signed(int_of_i16(self.acceleration_z), Divisor::Thousand),
                battery_voltage: opt_unsigned(int_of_u16(self.battery_voltage), Divisor::Thousand),
                tx_power: opt_signed(int_of_i8(self.tx_power), Divisor::One),
                movement_count: opt_unsigned(int_of_u8(self.movement_counter), Divisor::One),
            },
        )
    }

    fn motion(&self) -> (r: Option<MotionReadings<R>>) {
        Some(
            MotionReadings {
                acceleration_x_g: signed_from(widen_i16(self.acceleration_x), Divisor::Thousand),
                acceleration_y_g: signed_from(widen_i16(self.acceleration_y), Divisor::Thousand),
                acceleration_z_g: signed_from(widen_i16(self.acceleration_z), Divisor::Thousand),
                battery_voltage: unsigned_from(
                    widen_u16(self.battery_voltage),
                    Divisor::Thousand,
                ),
                tx_power: signed_from(widen_i8(self.tx_power), Divisor::One),
                movement_count: unsigned_from(widen_u8(self.movement_counter), Divisor::One),
            },
        )
    }
}

impl<R: Copy> HasSequenceNumber<R> for DataFormatV5<R> {
    open spec fn sequence_number_spec(&self) -> Option<Value<R>> {
        opt_unsigned(int_of_u16(self.measurement_sequence), Divisor::One)
    }

    fn sequence_number(&self) -> (r: Option<Value<R>>) {
        unsigned_from(widen_u16(self.measurement_sequence), Divisor::One)
    }
}

impl<R: Copy> HasEnvironment<R> for DataFormatV6<R> {
    open spec fn environment_spec(&self) -> Option<EnvironmentReadings<R>> {
        environment_of(self.temperature, self.humidity, self.pressure, Divisor::One)
    }

    fn environment(&self) -> (r: Option<EnvironmentReadings<R>>) {
        environment_from(self.temperature, self.humidity, self.pressure, Divisor::One)
    }
}

impl<R: Copy> HasAirQuality<R> for DataFormatV6<R> {
    open spec fn air_quality_spec(&self) -> Option<AirQualityReadings<R>> {
        Some(
            AirQualityReadings {
                pm1_0: None,
                pm2_5: opt_measured(self.pm2_5, Divisor::One),
                pm4_0: None,
                pm10_0: None,
                co2: opt_unsigned(int_of_u16(self.co2), Divisor::One),
                voc_index: opt_unsigned(int_of_u16(self.voc_index), Divisor::One),
                nox_index: opt_unsigned(int_of_u16(self.nox_index), Divisor::One),
                calibrating: Some(unsigned_over(calibrating_bit(self.flags), Divisor::One)),
            },
        )
    }

    fn air_quality(&self) -> (r: Option<AirQualityReadings<R>>) {
        let bit: u8 = self.flags & 1;
        Some(
            AirQualityReadings {
                pm1_0: None,
                pm2_5: measured_from(self.pm2_5, Divisor::One),
                pm4_0: None,
                pm10_0: None,
                co2: unsigned_from(widen_u16(self.co2), Divisor::One),
                voc_index: unsigned_from(widen_u16(self.voc_index), Divisor::One),
                nox_index: unsigned_from(widen_u16(self.nox_index), Divisor::One),
                calibrating: Some(Value::of_unsigned(bit as u64, Divisor::One)),
            },
        )
    }
}

impl<R: Copy> HasSequenceNumber<R> for DataFormatV6<R> {
    open spec fn sequence_number_spec(&self) -> Option<Value<R>> {
        opt_unsigned(int_of_u8(self.measurement_sequence), Divisor::One)
    }

    fn sequence_number(&self) -> (r: Option<Value<R>>) {
        unsigned_from(widen_u8(self.measurement_sequence), Divisor::One)
    }
}

impl<R: Copy> HasEnvironment<R> for DataFormatE1<R> {
    open spec fn environment_spec(&self) -> Option<EnvironmentReadings<R>> {
        environment_of(self.temperature, self.humidity, self.pressure, Divisor::One)
    }

    fn environment(&self) -> (r: Option<EnvironmentReadings<R>>) {
        environment_from(self.temperature, self.humidity, self.pressure, Divisor::One)
    }
}

impl<R: Copy> HasAirQuality<R> for DataFormatE1<R> {
    open spec fn air_quality_spec(&self) -> Option<AirQualityReadings<R>> {
        Some(
            AirQualityReadings {
                pm1_0: opt_measured(self.pm1_0, Divisor::One),
                pm2_5: opt_measured(self.pm2_5, Divisor::One),
                pm4_0: opt_measured(self.pm4_0, Divisor::One),
                pm10_0: opt_measured(self.pm10_0, Divisor::One),
                co2: opt_unsigned(int_of_u16(self.co2), Divisor::One),
                voc_index: opt_unsigned(int_of_u16(self.voc_index), Divisor::One),
                nox_index: opt_unsigned(int_of_u16(self.nox_index), Divisor::One),
                calibrating: Some(unsigned_over(calibrating_bit(self.flags), Divisor::One)),
            },
        )
    }

    fn air_quality(&self) -> (r: Option<AirQualityReadings<R>>) {
        let bit: u8 = self.flags & 1;
        Some(
            AirQualityReadings {
                pm1_0: measured_from(self.pm1_0, Divisor::One),
                pm2_5: measured_from(self.pm2_5, Divisor::One),
                pm4_0: measured_from(self.pm4_0, Divisor::One),
                pm10_0: measured_from(self.pm10_0, Divisor::One),
                co2: unsigned_from(widen_u16(self.co2), Divisor::One),
                voc_index: unsigned_from(widen_u16(self.voc_index), Divisor::One),
                nox_index: unsigned_from(widen_u16(self.nox_index), Divisor::One),
                calibrating: Some(Value::of_unsigned(bit as u64, Divisor::One)),
            },
        )
    }
}

impl<R: Copy> HasSequenceNumber<R> for DataFormatE1<R> {
    open spec fn sequence_number_spec(&self) -> Option<Value<R>> {
        opt_unsigned(int_of_u32(self.measurement_sequence), Divisor::One)
    }

    fn sequence_number(&self) -> (r: Option<Value<R>>) {
        unsigned_from(widen_u32(self.measurement_sequence), Divisor::One)
    }
}

} // verus!
