//! The recorder: every counter increment and gauge update that the library
//! decides on is appended to a `Metrics` value, in order, for the caller to
//! publish.

use crate::reading::Value;
use vstd::prelude::*;

verus! {

/// Whether a series counts or holds a value.
#[derive(Clone, Copy, Debug, PartialEq, Eq, Structural)]
pub enum Kind {
    Counter,
    Gauge,
}

/// The series that are published.
#[derive(Clone, Copy, Debug, PartialEq, Eq, Structural)]
pub enum Series {
    FramesTotal,
    Temperature,
    Humidity,
    DewPoint,
    Pressure,
    Acceleration,
    BatteryVolts,
    Rssi,
    TxPower,
    Seqno,
    Pm1_0,
    Pm2_5,
    Pm4_0,
    Pm10_0,
    Co2,
    Voc,
    Nox,
    Calibrating,
    LastUpdated,
    RustInfo,
    MoveCount,
    AirQualityIndex,
}

impl Series {
    /// The name under which the series is published.
    pub open spec fn name_spec(self) -> Seq<char> {
        match self {
            Series::FramesTotal => "ruuvi_frames_total"@,
            Series::Temperature => "ruuvi_temperature_celsius"@,
            Series::Humidity => "ruuvi_humidity_ratio"@,
            Series::DewPoint => "ruuvi_dew_point_celsius"@,
            Series::Pressure => "ruuvi_pressure_hpa"@,
            Series::Acceleration => "ruuvi_acceleration_g"@,
            Series::BatteryVolts => "ruuvi_battery_volts"@,
            Series::Rssi => "ruuvi_rssi_dbm"@,
            Series::TxPower => "ruuvi_txpower_dbm"@,
            Series::Seqno => "ruuvi_seqno_current"@,
            Series::Pm1_0 => "ruuvi_pm1_0_ug_m3"@,
            Series::Pm2_5 => "ruuvi_pm2_5_ug_m3"@,
            Series::Pm4_0 => "ruuvi_pm4_0_ug_m3"@,
            Series::Pm10_0 => "ruuvi_pm10_0_ug_m3"@,
            Series::Co2 => "ruuvi_co2_ppm"@,
            Series::Voc => "ruuvi_voc_index"@,
            Series::Nox => "ruuvi_nox_index"@,
            Series::Calibrating => "ruuvi_air_calibrating"@,
            Series::LastUpdated => "ruuvi_last_updated"@,
            Series::RustInfo => "rust_info"@,
            Series::MoveCount => "ruuvi_movecount_total"@,
            Series::AirQualityIndex => "ruuvi_air_quality_index"@,
        }
    }

    /// The line that describes the series to a reader.
    pub open spec fn help_spec(self) -> Seq<char> {
        match self {
            Series::FramesTotal => "Total Ruuvi frames received"@,
            Series::Temperature => "Ruuvi tag sensor temperature"@,
            Series::Humidity => "Ruuvi tag sensor relative humidity"@,
            Series::DewPoint => "Calculated dew point derived from temperature and humidity"@,
            Series::Pressure => "Ruuvi tag sensor air pressure"@,
            Series::Acceleration => "Ruuvi tag sensor acceleration X/Y/Z"@,
            Series::BatteryVolts => "Ruuvi tag battery voltage"@,
            Series::Rssi => "Ruuvi tag received signal strength RSSI"@,
            Series::TxPower => "Ruuvi transmit power in dBm"@,
            Series::Seqno => "Ruuvi frame sequence number"@,
            Series::Pm1_0 => "Ruuvi PM1.0 concentration in ug/m3"@,
            Series::Pm2_5 => "Ruuvi PM2.5 concentration in ug/m3"@,
            Series::Pm4_0 => "Ruuvi PM4.0 concentration in ug/m3"@,
            Series::Pm10_0 => "Ruuvi PM10.0 concentration in ug/m3"@,
            Series::Co2 => "Ruuvi CO2 concentration in ppm"@,
            Series::Voc => "Ruuvi VOC index"@,
            Series::Nox => "Ruuvi NOx index"@,
            Series::Calibrating => "Ruuvi calibrating"@,
            Series::LastUpdated => "Last update of RuuviTag"@,
            Series::RustInfo => "Info about the Rust version"@,
            Series::MoveCount => "Ruuvi movement counter"@,
            Series::AirQualityIndex => "Ruuvi air quality index"@,
        }
    }

    /// Frames are counted; everything else is a gauge.
    pub open spec fn kind_spec(self) -> Kind {
        if self == Series::FramesTotal {
            Kind::Counter
        } else {
            Kind::Gauge
        }
    }

    pub fn name(&self) -> (r: &'static str)
        ensures
            r@ == self.name_spec(),
    {
        match self {
            Series::FramesTotal => "ruuvi_frames_total",
            Series::Temperature => "ruuvi_temperature_celsius",
            Series::Humidity => "ruuvi_humidity_ratio",
            Series::DewPoint => "ruuvi_dew_point_celsius",
            Series::Pressure => "ruuvi_pressure_hpa",
            Series::Acceleration => "ruuvi_acceleration_g",
            Series::BatteryVolts => "ruuvi_battery_volts",
            Series::Rssi => "ruuvi_rssi_dbm",
            Series::TxPower => "ruuvi_txpower_dbm",
            Series::Seqno => "ruuvi_seqno_current",
            Series::Pm1_0 => "ruuvi_pm1_0_ug_m3",
            Series::Pm2_5 => "ruuvi_pm2_5_ug_m3",
            Series::Pm4_0 => "ruuvi_pm4_0_ug_m3",
            Series::Pm10_0 => "ruuvi_pm10_0_ug_m3",
            Series::Co2 => "ruuvi_co2_ppm",
            Series::Voc => "ruuvi_voc_index",
            Series::Nox => "ruuvi_nox_index",
            Series::Calibrating => "ruuvi_air_calibrating",
            Series::LastUpdated => "ruuvi_last_updated",
            Series::RustInfo => "rust_info",
            Series::MoveCount => "ruuvi_movecount_total",
            Series::AirQualityIndex => "ruuvi_air_quality_index",
        }
    }

    pub fn help(&self) -> (r: &'static str)
        ensures
            r@ == self.help_spec(),
    {
        match self {
            Series::FramesTotal => "Total Ruuvi frames received",
            Series::Temperature => "Ruuvi tag sensor temperature",
            Series::Humidity => "Ruuvi tag sensor relative humidity",
            Series::DewPoint => "Calculated dew point derived from temperature and humidity",
            Series::Pressure => "Ruuvi tag sensor air pressure",
            Series::Acceleration => "Ruuvi tag sensor acceleration X/Y/Z",
            Series::BatteryVolts => "Ruuvi tag battery voltage",
            Series::Rssi => "Ruuvi tag received signal strength RSSI",
            Series::TxPower => "Ruuvi transmit power in dBm",
            Series::Seqno => "Ruuvi frame sequence number",
            Series::Pm1_0 => "Ruuvi PM1.0 concentration in ug/m3",
            Series::Pm2_5 => "Ruuvi PM2.5 concentration in ug/m3",
            Series::Pm4_0 => "Ruuvi PM4.0 concentration in ug/m3",
            Series::Pm10_0 => "Ruuvi PM10.0 concentration in ug/m3",
            Series::Co2 => "Ruuvi CO2 concentration in ppm",
            Series::Voc => "Ruuvi VOC index",
            Series::Nox => "Ruuvi NOx index",
            Series::Calibrating => "Ruuvi calibrating",
            Series::LastUpdated => "Last update of RuuviTag",
            Series::RustInfo => "Info about the Rust version",
            Series::MoveCount => "Ruuvi movement counter",
            Series::AirQualityIndex => "Ruuvi air quality index",
        }
    }

    pub fn kind(&self) -> (r: Kind)
        ensures
            r == self.kind_spec(),
    {
        match self {
            Series::FramesTotal => Kind::Counter,
            _ => Kind::Gauge,
        }
    }
}

/// The label that names the source of a reading.
pub const LABEL_DEVICE: &'static str = "device";

/// The label that names the axis of an acceleration.
pub const LABEL_AXIS: &'static str = "axis";

/// The label that names the format of a counted frame.
pub const LABEL_FORMAT: &'static str = "format";

/// Every series, in the order in which they are described.
pub open spec fn series_table() -> Seq<Series> {
    seq![
        Series::FramesTotal,
        Series::Temperature,
        Series::Humidity,
        Series::DewPoint,
        Series::Pressure,
        Series::Acceleration,
        Series::BatteryVolts,
        Series::Rssi,
        Series::TxPower,
        Series::Seqno,
        Series::Pm1_0,
        Series::Pm2_5,
        Series::Pm4_0,
        Series::Pm10_0,
        Series::Co2,
        Series::Voc,
        Series::Nox,
        Series::Calibrating,
        Series::LastUpdated,
        Series::RustInfo,
        Series::MoveCount,
        Series::AirQualityIndex,
    ]
}

/// One thing to publish.
#[derive(Clone, Debug, PartialEq)]
pub enum Update<R> {
    /// Describe a series.
    Described(Series),
    /// Set the gauge that tells of the build to 1.
    RustInfo,
    /// Count one frame of `format` from `device`.
    Frame { device: String, format: String },
    /// Set a gauge of `device`, and of `axis` where the series has one.
    Gauge { series: Series, device: String, axis: Option<String>, value: Value<R> },
    /// Set the dew point of `device` to what follows from the temperature
    /// and the humidity ratio, where a dew point is defined for them.
    DewPoint { device: String, temperature: Value<R>, humidity_ratio: Value<R> },
    /// Set the air quality index of `device` to what follows from the PM2.5
    /// density and the CO2 concentration.
    AirQuality { device: String, pm2_5: Value<R>, co2: Value<R> },
}

/// An `Update` with its texts as sequences of characters.
pub enum Entry<R> {
    Described(Series),
    RustInfo,
    Frame { device: Seq<char>, format: Seq<char> },
    Gauge { series: Series, device: Seq<char>, axis: Option<Seq<char>>, value: Value<R> },
    DewPoint { device: Seq<char>, temperature: Value<R>, humidity_ratio: Value<R> },
    AirQuality { device: Seq<char>, pm2_5: Value<R>, co2: Value<R> },
}

impl<R> View for Update<R> {
    type V = Entry<R>;

    open spec fn view(&self) -> Entry<R> {
        match *self {
            Update::Described(series) => Entry::Described(series),
            Update::RustInfo => Entry::RustInfo,
            Update::Frame { device, format } => Entry::Frame { device: device@, format: format@ },
            Update::Gauge { series, device, axis, value } => Entry::Gauge {
                series,
                device: device@,
                axis: match axis {
                    Some(a) => Some(a@),
                    None => None,
                },
                value,
            },
            Update::DewPoint { device, temperature, humidity_ratio } => Entry::DewPoint {
                device: device@,
                temperature,
                humidity_ratio,
            },
            Update::AirQuality { device, pm2_5, co2 } => Entry::AirQuality {
                device: device@,
                pm2_5,
                co2,
            },
        }
    }
}

/// The entries of a sequence of updates.
pub open spec fn entries<R>(updates: Seq<Update<R>>) -> Seq<Entry<R>> {
    updates.map_values(|u: Update<R>| u@)
}

/// A gauge of `device` without an axis.
pub open spec fn gauge<R>(series: Series, device: Seq<char>, value: Value<R>) -> Entry<R> {
    Entry::Gauge { series, device, axis: None, value }
}

/// The acceleration of `device` along `axis`.
pub open spec fn acceleration<R>(device: Seq<char>, axis: Seq<char>, value: Value<R>) -> Entry<
    R,
> {
    Entry::Gauge { series: Series::Acceleration, device, axis: Some(axis), value }
}

/// What registration records: the description of every series, then the
/// gauge that tells of the build.
pub open spec fn registration<R>() -> Seq<Entry<R>> {
    series_table().map_values(|s: Series| Entry::<R>::Described(s)).push(Entry::RustInfo)
}

/// How many frames of `format` from `device` a log counts.
pub open spec fn frame_count<R>(log: Seq<Entry<R>>, device: Seq<char>, format: Seq<char>) -> nat
    decreases log.len(),
{
    if log.len() == 0 {
        0
    } else {
        frame_count(log.drop_last(), device, format) + if log.last() == (Entry::<R>::Frame {
            device,
            format,
        }) {
            1nat
        } else {
            0nat
        }
    }
}

/// The value that a gauge has after a log: that of its last update, if the
/// log holds one.
pub open spec fn gauge_value<R>(
    log: Seq<Entry<R>>,
    series: Series,
    device: Seq<char>,
    axis: Option<Seq<char>>,
) -> Option<Value<R>>
    decreases log.len(),
{
    if log.len() == 0 {
        None
    } else {
        match log.last() {
            Entry::Gauge { series: s, device: d, axis: a, value } if s == series && d == device
                && a == axis => Some(value),
            _ => gauge_value(log.drop_last(), series, device, axis),
        }
    }
}

/// The recorder: the updates decided on so far, oldest first.
pub struct Metrics<R> {
    updates: Vec<Update<R>>,
}

impl<R> View for Metrics<R> {
    type V = Seq<Entry<R>>;

    closed spec fn view(&self) -> Seq<Entry<R>> {
        entries(self.updates@)
    }
}

impl<R: Copy> Metrics<R> {
    /// A recorder that holds what registration records.
    pub fn register() -> (r: Self)
        ensures
            r@ == registration::<R>(),
    {
        let table = Self::describe_metrics();
        let mut updates: Vec<Update<R>> = Vec::new();
        let mut i: usize = 0;
        while i < table.len()
            invariant
                i <= table.len(),
                table@ == series_table(),
                updates@.len() == i,
                forall|j: int|
                    0 <= j < i ==> (#[trigger] updates@[j])@ == Entry::<R>::Described(
                        series_table()[j],
                    ),
            decreases table.len() - i,
        {
            updates.push(Update::Described(table[i]));
            i += 1;
        }
        updates.push(Update::RustInfo);
        let r = Metrics { updates };
        assert(r@ =~= registration::<R>());
        r
    }

    /// A recorder that holds nothing.
    pub fn new() -> (r: Self)
        ensures
            r@ == Seq::<Entry<R>>::empty(),
    {
        let r = Metrics { updates: Vec::new() };
        assert(r@ =~= Seq::<Entry<R>>::empty());
        r
    }

    /// Every series, in the order in which they are described.
    pub fn describe_metrics() -> (table: Vec<Series>)
        ensures
            table@ == series_table(),
    {
        let table = vec![
            Series::FramesTotal,
            Series::Temperature,
            Series::Humidity,
            Series::DewPoint,
            Series::Pressure,
            Series::Acceleration,
            Series::BatteryVolts,
            Series::Rssi,
            Series::TxPower,
            Series::Seqno,
            Series::Pm1_0,
            Series::Pm2_5,
            Series::Pm4_0,
            Series::Pm10_0,
            Series::Co2,
            Series::Voc,
            Series::Nox,
            Series::Calibrating,
            Series::LastUpdated,
            Series::RustInfo,
            Series::MoveCount,
            Series::AirQualityIndex,
        ];
        assert(table@ =~= series_table());
        table
    }

    /// The updates recorded so far, oldest first.
    pub fn updates(&self) -> (r: &Vec<Update<R>>)
        ensures
            entries(r@) == self@,
    {
        &self.updates
    }

    /// How many frames of `format` from `device` were counted.
    pub fn frames_counted(&self, device: &str, format: &str) -> (n: usize)
        ensures
            n == frame_count(self@, device@, format@),
    {
        let device = device.to_owned();
        let format = format.to_owned();
        let mut n: usize = 0;
        let mut i: usize = 0;
        while i < self.updates.len()
            invariant
                i <= self.updates@.len(),
                n <= i,
                n == frame_count(self@.take(i as int), device@, format@),
            decreases self.updates@.len() - i,
        {
            assert(self@.take(i + 1).drop_last() =~= self@.take(i as int));
            assert(self@.take(i + 1).last() == self.updates@[i as int]@);
            if let Update::Frame { device: d, format: f } = &self.updates[i] {
                if *d == device && *f == format {
                    n += 1;
                }
            }
            i += 1;
        }
        assert(self@.take(i as int) =~= self@);
        n
    }

    /// The value to which a gauge was last set, if it was set at all. A
    /// dew point or an air quality index that was asked for is no such
    /// value: it is still to be derived.
    pub fn gauge_value(&self, series: Series, device: &str, axis: Option<&str>) -> (value: Option<
        Value<R>,
    >)
        ensures
            value == gauge_value(
                self@,
                series,
                device@,
                match axis {
                    Some(a) => Some(a@),
                    None => None,
                },
            ),
    {
        let ghost axis_text = match axis {
            Some(a) => Some(a@),
            None => None,
        };
        let device = device.to_owned();
        let axis = match axis {
            Some(a) => Some(a.to_owned()),
            None => None,
        };
        let mut value: Option<Value<R>> = None;
        let mut i: usize = 0;
        while i < self.updates.len()
            invariant
                i <= self.updates@.len(),
                axis_text == match axis {
                    Some(a) => Some(a@),
                    None => None,
                },
                value == gauge_value(self@.take(i as int), series, device@, axis_text),
            decreases self.updates@.len() - i,
        {
            assert(self@.take(i + 1).drop_last() =~= self@.take(i as int));
            assert(self@.take(i + 1).last() == self.updates@[i as int]@);
            if let Update::Gauge { series: s, device: d, axis: a, value: v } = &self.updates[i] {
                let same_axis = match (a, &axis) {
                    (Some(x), Some(y)) => *x == *y,
                    (None, None) => true,
                    _ => false,
                };
                if *s == series && *d == device && same_axis {
                    value = Some(*v);
                }
            }
            i += 1;
        }
        assert(self@.take(i as int) =~= self@);
        value
    }

    /// Hands out the updates recorded so far and forgets them.
    pub fn take(&mut self) -> (r: Vec<Update<R>>)
        ensures
            entries(r@) == old(self)@,
            final(self)@ == Seq::<Entry<R>>::empty(),
    {
        let mut taken: Vec<Update<R>> = Vec::new();
        std::mem::swap(&mut self.updates, &mut taken);
        assert(self@ =~= Seq::<Entry<R>>::empty());
        taken
    }

    fn record(&mut self, update: Update<R>)
        ensures
            final(self)@ == old(self)@.push(update@),
    {
        self.updates.push(update);
        assert(self@ =~= old(self)@.push(update@));
    }

    fn set(&mut self, series: Series, device: &str, value: Value<R>)
        ensures
            final(self)@ == old(self)@.push(gauge(series, device@, value)),
    {
        self.record(Update::Gauge { series, device: device.to_owned(), axis: None, value });
    }

    /// Counts one frame of `format` from `device`.
    pub fn inc_ruuvi_frames(&mut self, device: &str, format: &str)
        ensures
            final(self)@ == old(self)@.push(Entry::Frame { device: device@, format: format@ }),
    {
        self.record(Update::Frame { device: device.to_owned(), format: format.to_owned() });
    }

    pub fn set_temperature(&mut self, device: &str, value: Value<R>)
        ensures
            final(self)@ == old(self)@.push(gauge(Series::Temperature, device@, value)),
    {
        self.set(Series::Temperature, device, value)
    }

    pub fn set_humidity(&mut self, device: &str, value: Value<R>)
        ensures
            final(self)@ == old(self)@.push(gauge(Series::Humidity, device@, value)),
    {
        self.set(Series::Humidity, device, value)
    }

    /// Asks for the dew point that follows from a temperature and a
    /// humidity ratio.
    pub fn set_dew_point(
        &mut self,
        device: &str,
        temperature: Value<R>,
        humidity_ratio: Value<R>,
    )
        ensures
            final(self)@ == old(self)@.push(
                Entry::DewPoint { device: device@, temperature, humidity_ratio },
            ),
    {
        self.record(Update::DewPoint { device: device.to_owned(), temperature, humidity_ratio });
    }

    pub fn set_pressure(&mut self, device: &str, value: Value<R>)
        ensures
            final(self)@ == old(self)@.push(gauge(Series::Pressure, device@, value)),
    {
        self.set(Series::Pressure, device, value)
    }

    pub fn set_acceleration(&mut self, device: &str, axis: &str, value: Value<R>)
        ensures
            final(self)@ == old(self)@.push(acceleration(device@, axis@, value)),
    {
        self.record(
            Update::Gauge {
                series: Series::Acceleration,
                device: device.to_owned(),
                axis: Some(axis.to_owned()),
                value,
            },
        );
    }

    pub fn set_voltage(&mut self, device: &str, value: Value<R>)
        ensures
            final(self)@ == old(self)@.push(gauge(Series::BatteryVolts, device@, value)),
    {
        self.set(Series::BatteryVolts, device, value)
    }

    pub fn set_signal_rssi(&mut self, device: &str, value: Value<R>)
        ensures
            final(self)@ == old(self)@.push(gauge(Series::Rssi, device@, value)),
    {
        self.set(Series::Rssi, device, value)
    }

    pub fn set_tx_power(&mut self, device: &str, value: Value<R>)
        ensures
            final(self)@ == old(self)@.push(gauge(Series::TxPower, device@, value)),
    {
        self.set(Series::TxPower, device, value)
    }

    pub fn set_seqno(&mut self, device: &str, value: Value<R>)
        ensures
            final(self)@ == old(self)@.push(gauge(Series::Seqno, device@, value)),
    {
        self.set(Series::Seqno, device, value)
    }

    pub fn set_pm1_0(&mut self, device: &str, value: Value<R>)
        ensures
            final(self)@ == old(self)@.push(gauge(Series::Pm1_0, device@, value)),
    {
        self.set(Series::Pm1_0, device, value)
    }

    pub fn set_pm2_5(&mut self, device: &str, value: Value<R>)
        ensures
            final(self)@ == old(self)@.push(gauge(Series::Pm2_5, device@, value)),
    {
        self.set(Series::Pm2_5, device, value)
    }

    pub fn set_pm4_0(&mut self, device: &str, value: Value<R>)
        ensures
            final(self)@ == old(self)@.push(gauge(Series::Pm4_0, device@, value)),
    {
        self.set(Series::Pm4_0, device, value)
    }

    pub fn set_pm10_0(&mut self, device: &str, value: Value<R>)
        ensures
            final(self)@ == old(self)@.push(gauge(Series::Pm10_0, device@, value)),
    {
        self.set(Series::Pm10_0, device, value)
    }

    pub fn set_co2(&mut self, device: &str, value: Value<R>)
        ensures
            final(self)@ == old(self)@.push(gauge(Series::Co2, device@, value)),
    {
        self.set(Series::Co2, device, value)
    }

    pub fn set_voc(&mut self, device: &str, value: Value<R>)
        ensures
            final(self)@ == old(self)@.push(gauge(Series::Voc, device@, value)),
    {
        self.set(Series::Voc, device, value)
    }

    pub fn set_nox(&mut self, device: &str, value: Value<R>)
        ensures
            final(self)@ == old(self)@.push(gauge(Series::Nox, device@, value)),
    {
        self.set(Series::Nox, device, value)
    }

    pub fn set_calibrating(&mut self, device: &str, value: Value<R>)
        ensures
            final(self)@ == old(self)@.push(gauge(Series::Calibrating, device@, value)),
    {
        self.set(Series::Calibrating, device, value)
    }

    pub fn set_last_updated(&mut self, device: &str, value: Value<R>)
        ensures
            final(self)@ == old(self)@.push(gauge(Series::LastUpdated, device@, value)),
    {
        self.set(Series::LastUpdated, device, value)
    }

    pub fn set_move_count(&mut self, device: &str, value: Value<R>)
        ensures
            final(self)@ == old(self)@.push(gauge(Series::MoveCount, device@, value)),
    {
        self.set(Series::MoveCount, device, value)
    }

    /// Asks for the air quality index that follows from a PM2.5 density and
    /// a CO2 concentration.
    pub fn set_air_quality_index(&mut self, device: &str, pm2_5: Value<R>, co2: Value<R>)
        ensures
            final(self)@ == old(self)@.push(Entry::AirQuality { device: device@, pm2_5, co2 }),
    {
        self.record(Update::AirQuality { device: device.to_owned(), pm2_5, co2 });
    }
}

} // verus!
