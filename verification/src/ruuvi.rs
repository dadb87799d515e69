//! From a decoded payload to what is recorded of it.
//!
//! Each payload is asked for each kind of reading in turn. What it has is
//! recorded, one gauge for each value that is present; what it lacks is
//! passed over, so that a gauge keeps the value it had.
//!
//! The specifications here are functions from the log before to the log
//! after: `with_motion(log, device, readings)` is `log` with the motion
//! readings of `device` recorded at its end.

use crate::metrics::{acceleration, frame_count, gauge, gauge_value, Entry, Metrics, Series};
use crate::reading::{
    unsigned_over, AirQualityReadings, Divisor, EnvironmentReadings, HasAirQuality,
    HasEnvironment, HasMotion, HasSequenceNumber, MotionReadings, RuuviData, Value,
};
use vstd::prelude::*;

verus! {

/// The tag under which frames of a format are counted.
pub open spec fn format_tag<R>(data: RuuviData<R>) -> Seq<char> {
    match data {
        RuuviData::V5(_) => "5"@,
        RuuviData::V6(_) => "6"@,
        RuuviData::E1(_) => "E1"@,
    }
}

/// `log` with a gauge set to a value that is present; `log` itself where
/// the value is absent.
pub open spec fn with_gauge<R>(
    log: Seq<Entry<R>>,
    series: Series,
    device: Seq<char>,
    value: Option<Value<R>>,
) -> Seq<Entry<R>> {
    match value {
        Some(v) => log.push(gauge(series, device, v)),
        None => log,
    }
}

/// `log` with the acceleration along one axis, where it is present.
pub open spec fn with_acceleration<R>(
    log: Seq<Entry<R>>,
    device: Seq<char>,
    axis: Seq<char>,
    value: Option<Value<R>>,
) -> Seq<Entry<R>> {
    match value {
        Some(v) => log.push(acceleration(device, axis, v)),
        None => log,
    }
}

/// `log` with the environment recorded: temperature, humidity, the dew
/// point that follows from the two, and pressure.
pub open spec fn with_environment<R>(
    log: Seq<Entry<R>>,
    device: Seq<char>,
    readings: Option<EnvironmentReadings<R>>,
) -> Seq<Entry<R>> {
    match readings {
        Some(env) => log.push(gauge(Series::Temperature, device, env.temperature)).push(
            gauge(Series::Humidity, device, env.humidity_ratio),
        ).push(
            Entry::DewPoint {
                device,
                temperature: env.temperature,
                humidity_ratio: env.humidity_ratio,
            },
        ).push(gauge(Series::Pressure, device, env.pressure_hpa)),
        None => log,
    }
}

/// `log` with motion recorded: the acceleration along X, Y and Z, the
/// battery voltage, the transmit power and the movement count, each where
/// it is present.
pub open spec fn with_motion<R>(
    log: Seq<Entry<R>>,
    device: Seq<char>,
    readings: Option<MotionReadings<R>>,
) -> Seq<Entry<R>> {
    match readings {
        Some(motion) => {
            let log = with_acceleration(log, device, "X"@, motion.acceleration_x_g);
            let log = with_acceleration(log, device, "Y"@, motion.acceleration_y_g);
            let log = with_acceleration(log, device, "Z"@, motion.acceleration_z_g);
            let log = with_gauge(log, Series::BatteryVolts, device, motion.battery_voltage);
            let log = with_gauge(log, Series::TxPower, device, motion.tx_power);
            with_gauge(log, Series::MoveCount, device, motion.movement_count)
        },
        None => log,
    }
}

/// `log` with the air quality index asked for, which is when the PM2.5
/// density and the CO2 concentration are both present, and only then.
pub open spec fn with_index<R>(
    log: Seq<Entry<R>>,
    device: Seq<char>,
    pm2_5: Option<Value<R>>,
    co2: Option<Value<R>>,
) -> Seq<Entry<R>> {
    if pm2_5 is Some && co2 is Some {
        log.push(Entry::AirQuality { device, pm2_5: pm2_5->0, co2: co2->0 })
    } else {
        log
    }
}

/// `log` with air quality recorded: the four particle densities, CO2, the
/// VOC and NOx indices and the calibrating flag, each where it is present,
/// then the air quality index.
pub open spec fn with_air_quality<R>(
    log: Seq<Entry<R>>,
    device: Seq<char>,
    readings: Option<AirQualityReadings<R>>,
) -> Seq<Entry<R>> {
    match readings {
        Some(air) => {
            let log = with_gauge(log, Series::Pm1_0, device, air.pm1_0);
            let log = with_gauge(log, Series::Pm2_5, device, air.pm2_5);
            let log = with_gauge(log, Series::Pm4_0, device, air.pm4_0);
            let log = with_gauge(log, Series::Pm10_0, device, air.pm10_0);
            let log = with_gauge(log, Series::Co2, device, air.co2);
            let log = with_gauge(log, Series::Voc, device, air.voc_index);
            let log = with_gauge(log, Series::Nox, device, air.nox_index);
            let log = with_gauge(log, Series::Calibrating, device, air.calibrating);
            with_index(log, device, air.pm2_5, air.co2)
        },
        None => log,
    }
}

/// `log` with a sequence number recorded, where there is one.
pub open spec fn with_sequence_number<R>(
    log: Seq<Entry<R>>,
    device: Seq<char>,
    number: Option<Value<R>>,
) -> Seq<Entry<R>> {
    with_gauge(log, Series::Seqno, device, number)
}

/// `log` with the readings of a payload recorded, kind by kind.
pub open spec fn with_readings<R: Copy>(
    log: Seq<Entry<R>>,
    device: Seq<char>,
    data: RuuviData<R>,
) -> Seq<Entry<R>> {
    match data {
        RuuviData::V5(v5) => {
            let log = with_environment(log, device, v5.environment_spec());
            let log = with_motion(log, device, v5.motion_spec());
            with_sequence_number(log, device, v5.sequence_number_spec())
        },
        RuuviData::V6(v6) => {
            let log = with_environment(log, device, v6.environment_spec());
            let log = with_air_quality(log, device, v6.air_quality_spec());
            with_sequence_number(log, device, v6.sequence_number_spec())
        },
        RuuviData::E1(e1) => {
            let log = with_environment(log, device, e1.environment_spec());
            let log = with_air_quality(log, device, e1.air_quality_spec());
            with_sequence_number(log, device, e1.sequence_number_spec())
        },
    }
}

/// The time of the last update, in seconds since the Unix epoch.
pub open spec fn last_updated<R>(device: Seq<char>, timestamp: u64) -> Entry<R> {
    gauge(Series::LastUpdated, device, unsigned_over(timestamp as int, Divisor::One))
}

/// `log` with a decoded payload recorded: one counted frame, its readings,
/// and the time of the update.
pub open spec fn with_payload<R: Copy>(
    log: Seq<Entry<R>>,
    device: Seq<char>,
    data: RuuviData<R>,
    timestamp: u64,
) -> Seq<Entry<R>> {
    let log = log.push(Entry::Frame { device, format: format_tag(data) });
    let log = with_readings(log, device, data);
    log.push(last_updated(device, timestamp))
}

/// `log` after an attempt to decode: unchanged where the attempt failed.
pub open spec fn with_decoded<R: Copy>(
    log: Seq<Entry<R>>,
    device: Seq<char>,
    decoded: Option<RuuviData<R>>,
    timestamp: u64,
) -> Seq<Entry<R>> {
    match decoded {
        Some(data) => with_payload(log, device, data, timestamp),
        None => log,
    }
}

/// Records the environment readings of `data`, if it has them.
pub fn apply_environment_metrics<R: Copy, T: HasEnvironment<R>>(
    metrics: &mut Metrics<R>,
    addr: &str,
    data: &T,
)
    ensures
        final(metrics)@ == with_environment(old(metrics)@, addr@, data.environment_spec()),
{
    if let Some(env) = data.environment() {
        metrics.set_temperature(addr, env.temperature);
        metrics.set_humidity(addr, env.humidity_ratio);
        metrics.set_dew_point(addr, env.temperature, env.humidity_ratio);
        metrics.set_pressure(addr, env.pressure_hpa);
    }
}

/// Records the motion readings of `data`, if it has them.
pub fn apply_motion_metrics<R: Copy, T: HasMotion<R>>(
    metrics: &mut Metrics<R>,
    addr: &str,
    data: &T,
)
    ensures
        final(metrics)@ == with_motion(old(metrics)@, addr@, data.motion_spec()),
{
    if let Some(motion) = data.motion() {
        if let Some(acceleration_x) = motion.acceleration_x_g {
            metrics.set_acceleration(addr, "X", acceleration_x);
        }
        if let Some(acceleration_y) = motion.acceleration_y_g {
            metrics.set_acceleration(addr, "Y", acceleration_y);
        }
        if let Some(acceleration_z) = motion.acceleration_z_g {
            metrics.set_acceleration(addr, "Z", acceleration_z);
        }
        if let Some(voltage) = motion.battery_voltage {
            metrics.set_voltage(addr, voltage);
        }
        if let Some(tx_power) = motion.tx_power {
            metrics.set_tx_power(addr, tx_power);
        }
        if let Some(movement_count) = motion.movement_count {
            metrics.set_move_count(addr, movement_count);
        }
    }
}

/// Records the air quality readings of `data`, if it has them, and asks for
/// the air quality index where PM2.5 and CO2 are both present.
pub fn apply_air_quality_metrics<R: Copy, T: HasAirQuality<R>>(
    metrics: &mut Metrics<R>,
    addr: &str,
    data: &T,
)
    ensures
        final(metrics)@ == with_air_quality(old(metrics)@, addr@, data.air_quality_spec()),
{
    if let Some(air) = data.air_quality() {
        if let Some(pm1_0) = air.pm1_0 {
            metrics.set_pm1_0(addr, pm1_0);
        }
        if let Some(pm2_5) = air.pm2_5 {
            metrics.set_pm2_5(addr, pm2_5);
        }
        if let Some(pm4_0) = air.pm4_0 {
            metrics.set_pm4_0(addr, pm4_0);
        }
        if let Some(pm10_0) = air.pm10_0 {
            metrics.set_pm10_0(addr, pm10_0);
        }
        if let Some(co2) = air.co2 {
            metrics.set_co2(addr, co2);
        }
        if let Some(voc_index) = air.voc_index {
            metrics.set_voc(addr, voc_index);
        }
        if let Some(nox_index) = air.nox_index {
            metrics.set_nox(addr, nox_index);
        }
        if let Some(calibrating) = air.calibrating {
            metrics.set_calibrating(addr, calibrating);
        }
        if let Some(pm2_5) = air.pm2_5 {
            if let Some(co2) = air.co2 {
                metrics.set_air_quality_index(addr, pm2_5, co2);
            }
        }
    }
}

/// Records the sequence number of `data`, if it has one.
pub fn apply_sequence_number<R: Copy, T: HasSequenceNumber<R>>(
    metrics: &mut Metrics<R>,
    addr: &str,
    data: &T,
)
    ensures
        final(metrics)@ == with_sequence_number(
            old(metrics)@,
            addr@,
            data.sequence_number_spec(),
        ),
{
    if let Some(seqno) = data.sequence_number() {
        metrics.set_seqno(addr, seqno);
    }
}

/// Records what came of decoding a payload of `addr` at `timestamp`, in
/// seconds since the Unix epoch. A payload that was decoded counts as one
/// frame of its format, sets a gauge for each reading it has, and sets the
/// time of the last update. One that could not be decoded records nothing.
pub fn handle_manufacturer_data<R: Copy>(
    metrics: &mut Metrics<R>,
    addr: &str,
    decoded: Option<RuuviData<R>>,
    timestamp: u64,
)
    ensures
        final(metrics)@ == with_decoded(old(metrics)@, addr@, decoded, timestamp),
{
    match decoded {
        Some(data) => {
            match data {
                RuuviData::V5(v5) => {
                    metrics.inc_ruuvi_frames(addr, "5");
                    apply_environment_metrics(metrics, addr, &v5);
                    apply_motion_metrics(metrics, addr, &v5);
                    apply_sequence_number(metrics, addr, &v5);
                },
                RuuviData::V6(v6) => {
                    metrics.inc_ruuvi_frames(addr, "6");
                    apply_environment_metrics(metrics, addr, &v6);
                    apply_air_quality_metrics(metrics, addr, &v6);
                    apply_sequence_number(metrics, addr, &v6);
                },
                RuuviData::E1(e1) => {
                    metrics.inc_ruuvi_frames(addr, "E1");
                    apply_environment_metrics(metrics, addr, &e1);
                    apply_air_quality_metrics(metrics, addr, &e1);
                    apply_sequence_number(metrics, addr, &e1);
                },
            }
            metrics.set_last_updated(addr, Value::of_unsigned(timestamp, Divisor::One));
        },
        None => {},
    }
}

/// Whether an entry is a reading of `device`: a gauge of it other than the
/// time of the last update, or a dew point or an air quality index that is
/// asked for it.
pub open spec fn is_reading_of<R>(entry: Entry<R>, device: Seq<char>) -> bool {
    match entry {
        Entry::Gauge { series, device: d, .. } => series != Series::LastUpdated && d == device,
        Entry::DewPoint { device: d, .. } => d == device,
        Entry::AirQuality { device: d, .. } => d == device,
        _ => false,
    }
}

/// Whether `after` is `before` with readings of `device` at its end, and
/// nothing else.
pub open spec fn adds_readings<R>(
    before: Seq<Entry<R>>,
    after: Seq<Entry<R>>,
    device: Seq<char>,
) -> bool {
    &&& before.len() <= after.len()
    &&& after.take(before.len() as int) == before
    &&& forall|i: int| before.len() <= i < after.len() ==> is_reading_of(#[trigger] after[i], device)
}

proof fn lemma_adds_nothing<R>(log: Seq<Entry<R>>, device: Seq<char>)
    ensures
        adds_readings(log, log, device),
{
    assert(log.take(log.len() as int) =~= log);
}

proof fn lemma_adds_one<R>(
    before: Seq<Entry<R>>,
    log: Seq<Entry<R>>,
    entry: Entry<R>,
    device: Seq<char>,
)
    requires
        adds_readings(before, log, device),
        is_reading_of(entry, device),
    ensures
        adds_readings(before, log.push(entry), device),
{
    assert(log.push(entry).take(before.len() as int) =~= log.take(before.len() as int));
}

proof fn lemma_adds_gauge<R>(
    before: Seq<Entry<R>>,
    log: Seq<Entry<R>>,
    series: Series,
    device: Seq<char>,
    value: Option<Value<R>>,
)
    requires
        adds_readings(before, log, device),
        series != Series::LastUpdated,
    ensures
        adds_readings(before, with_gauge(log, series, device, value), device),
{
    if value is Some {
        lemma_adds_one(before, log, gauge(series, device, value->0), device);
    }
}

proof fn lemma_adds_acceleration<R>(
    before: Seq<Entry<R>>,
    log: Seq<Entry<R>>,
    device: Seq<char>,
    axis: Seq<char>,
    value: Option<Value<R>>,
)
    requires
        adds_readings(before, log, device),
    ensures
        adds_readings(before, with_acceleration(log, device, axis, value), device),
{
    if value is Some {
        lemma_adds_one(before, log, acceleration(device, axis, value->0), device);
    }
}

proof fn lemma_adds_environment<R>(
    before: Seq<Entry<R>>,
    log: Seq<Entry<R>>,
    device: Seq<char>,
    readings: Option<EnvironmentReadings<R>>,
)
    requires
        adds_readings(before, log, device),
    ensures
        adds_readings(before, with_environment(log, device, readings), device),
{
    if let Some(env) = readings {
        let temperature = gauge(Series::Temperature, device, env.temperature);
        let humidity = gauge(Series::Humidity, device, env.humidity_ratio);
        let dew_point = Entry::DewPoint {
            device,
            temperature: env.temperature,
            humidity_ratio: env.humidity_ratio,
        };
        let pressure = gauge(Series::Pressure, device, env.pressure_hpa);
        lemma_adds_one(before, log, temperature, device);
        lemma_adds_one(before, log.push(temperature), humidity, device);
        lemma_adds_one(before, log.push(temperature).push(humidity), dew_point, device);
        lemma_adds_one(
            before,
            log.push(temperature).push(humidity).push(dew_point),
            pressure,
            device,
        );
    }
}

proof fn lemma_adds_motion<R>(
    before: Seq<Entry<R>>,
    log: Seq<Entry<R>>,
    device: Seq<char>,
    readings: Option<MotionReadings<R>>,
)
    requires
        adds_readings(before, log, device),
    ensures
        adds_readings(before, with_motion(log, device, readings), device),
{
    if let Some(motion) = readings {
        lemma_adds_acceleration(before, log, device, "X"@, motion.acceleration_x_g);
        let log = with_acceleration(log, device, "X"@, motion.acceleration_x_g);
        lemma_adds_acceleration(before, log, device, "Y"@, motion.acceleration_y_g);
        let log = with_acceleration(log, device, "Y"@, motion.acceleration_y_g);
        lemma_adds_acceleration(before, log, device, "Z"@, motion.acceleration_z_g);
        let log = with_acceleration(log, device, "Z"@, motion.acceleration_z_g);
        lemma_adds_gauge(before, log, Series::BatteryVolts, device, motion.battery_voltage);
        let log = with_gauge(log, Series::BatteryVolts, device, motion.battery_voltage);
        lemma_adds_gauge(before, log, Series::TxPower, device, motion.tx_power);
        let log = with_gauge(log, Series::TxPower, device, motion.tx_power);
        lemma_adds_gauge(before, log, Series::MoveCount, device, motion.movement_count);
    }
}

proof fn lemma_adds_air_quality<R>(
    before: Seq<Entry<R>>,
    log: Seq<Entry<R>>,
    device: Seq<char>,
    readings: Option<AirQualityReadings<R>>,
)
    requires
        adds_readings(before, log, device),
    ensures
        adds_readings(before, with_air_quality(log, device, readings), device),
{
    if let Some(air) = readings {
        lemma_adds_gauge(before, log, Series::Pm1_0, device, air.pm1_0);
        let log = with_gauge(log, Series::Pm1_0, device, air.pm1_0);
        lemma_adds_gauge(before, log, Series::Pm2_5, device, air.pm2_5);
        let log = with_gauge(log, Series::Pm2_5, device, air.pm2_5);
        lemma_adds_gauge(before, log, Series::Pm4_0, device, air.pm4_0);
        let log = with_gauge(log, Series::Pm4_0, device, air.pm4_0);
        lemma_adds_gauge(before, log, Series::Pm10_0, device, air.pm10_0);
        let log = with_gauge(log, Series::Pm10_0, device, air.pm10_0);
        lemma_adds_gauge(before, log, Series::Co2, device, air.co2);
        let log = with_gauge(log, Series::Co2, device, air.co2);
        lemma_adds_gauge(before, log, Series::Voc, device, air.voc_index);
        let log = with_gauge(log, Series::Voc, device, air.voc_index);
        lemma_adds_gauge(before, log, Series::Nox, device, air.nox_index);
        let log = with_gauge(log, Series::Nox, device, air.nox_index);
        lemma_adds_gauge(before, log, Series::Calibrating, device, air.calibrating);
        let log = with_gauge(log, Series::Calibrating, device, air.calibrating);
        if air.pm2_5 is Some && air.co2 is Some {
            lemma_adds_one(
                before,
                log,
                Entry::AirQuality { device, pm2_5: air.pm2_5->0, co2: air.co2->0 },
                device,
            );
        }
    }
}

/// The readings of a payload are recorded after what the log held, and
/// nothing is recorded with them but readings of the same device.
pub proof fn law_readings_are_added<R: Copy>(
    log: Seq<Entry<R>>,
    device: Seq<char>,
    data: RuuviData<R>,
)
    ensures
        adds_readings(log, with_readings(log, device, data), device),
{
    lemma_adds_nothing(log, device);
    match data {
        RuuviData::V5(v5) => {
            lemma_adds_environment(log, log, device, v5.environment_spec());
            let mid = with_environment(log, device, v5.environment_spec());
            lemma_adds_motion(log, mid, device, v5.motion_spec());
            let mid = with_motion(mid, device, v5.motion_spec());
            lemma_adds_gauge(log, mid, Series::Seqno, device, v5.sequence_number_spec());
        },
        RuuviData::V6(v6) => {
            lemma_adds_environment(log, log, device, v6.environment_spec());
            let mid = with_environment(log, device, v6.environment_spec());
            lemma_adds_air_quality(log, mid, device, v6.air_quality_spec());
            let mid = with_air_quality(mid, device, v6.air_quality_spec());
            lemma_adds_gauge(log, mid, Series::Seqno, device, v6.sequence_number_spec());
        },
        RuuviData::E1(e1) => {
            lemma_adds_environment(log, log, device, e1.environment_spec());
            let mid = with_environment(log, device, e1.environment_spec());
            lemma_adds_air_quality(log, mid, device, e1.air_quality_spec());
            let mid = with_air_quality(mid, device, e1.air_quality_spec());
            lemma_adds_gauge(log, mid, Series::Seqno, device, e1.sequence_number_spec());
        },
    }
}

/// Readings count no frame.
proof fn lemma_readings_count_no_frame<R>(
    before: Seq<Entry<R>>,
    after: Seq<Entry<R>>,
    device: Seq<char>,
    of_device: Seq<char>,
    of_format: Seq<char>,
)
    requires
        adds_readings(before, after, device),
    ensures
        frame_count(after, of_device, of_format) == frame_count(before, of_device, of_format),
    decreases after.len(),
{
    if after.len() == before.len() {
        assert(after.take(before.len() as int) =~= after);
    } else {
        let front = after.drop_last();
        assert(front.take(before.len() as int) =~= after.take(before.len() as int));
        assert(is_reading_of(after[after.len() - 1], device));
        assert forall|i: int| before.len() <= i < front.len() implies is_reading_of(
            #[trigger] front[i],
            device,
        ) by {
            assert(front[i] == after[i]);
        }
        lemma_readings_count_no_frame(before, front, device, of_device, of_format);
    }
}

/// Readings leave the time of the last update as it was.
proof fn lemma_readings_keep_last_update<R>(
    before: Seq<Entry<R>>,
    after: Seq<Entry<R>>,
    device: Seq<char>,
    of_device: Seq<char>,
)
    requires
        adds_readings(before, after, device),
    ensures
        gauge_value(after, Series::LastUpdated, of_device, None) == gauge_value(
            before,
            Series::LastUpdated,
            of_device,
            None,
        ),
    decreases after.len(),
{
    if after.len() == before.len() {
        assert(after.take(before.len() as int) =~= after);
    } else {
        let front = after.drop_last();
        assert(front.take(before.len() as int) =~= after.take(before.len() as int));
        assert(is_reading_of(after[after.len() - 1], device));
        assert forall|i: int| before.len() <= i < front.len() implies is_reading_of(
            #[trigger] front[i],
            device,
        ) by {
            assert(front[i] == after[i]);
        }
        lemma_readings_keep_last_update(before, front, device, of_device);
    }
}

/// Every decoded payload is recorded in one shape, whatever readings it
/// has: what the log held, then the counted frame, then readings of the
/// device and nothing else, then the time of the update.
pub proof fn law_payload_shape<R: Copy>(
    log: Seq<Entry<R>>,
    device: Seq<char>,
    data: RuuviData<R>,
    timestamp: u64,
)
    ensures
        ({
            let after = with_payload(log, device, data, timestamp);
            &&& after.len() >= log.len() + 2
            &&& after.take(log.len() as int) == log
            &&& after[log.len() as int] == (Entry::<R>::Frame { device, format: format_tag(data) })
            &&& after.last() == last_updated::<R>(device, timestamp)
            &&& forall|i: int|
                log.len() < i < after.len() - 1 ==> is_reading_of(#[trigger] after[i], device)
        }),
{
    let counted = log.push(Entry::Frame { device, format: format_tag(data) });
    let read = with_readings(counted, device, data);
    let after = with_payload(log, device, data, timestamp);
    law_readings_are_added(counted, device, data);
    assert(read.take(counted.len() as int)[log.len() as int] == read[log.len() as int]);
    assert(after.take(log.len() as int) =~= log) by {
        assert forall|i: int| 0 <= i < log.len() implies after[i] == log[i] by {
            assert(read.take(counted.len() as int)[i] == read[i]);
        }
    }
    assert forall|i: int| log.len() < i < after.len() - 1 implies is_reading_of(
        #[trigger] after[i],
        device,
    ) by {
        assert(after[i] == read[i]);
    }
}

/// A decoded payload counts as exactly one frame, of its own device and
/// format: every frame counter but that one stays as it was.
pub proof fn law_one_frame_per_payload<R: Copy>(
    log: Seq<Entry<R>>,
    device: Seq<char>,
    data: RuuviData<R>,
    timestamp: u64,
    of_device: Seq<char>,
    of_format: Seq<char>,
)
    ensures
        frame_count(with_payload(log, device, data, timestamp), of_device, of_format)
            == frame_count(log, of_device, of_format) + if of_device == device && of_format
            == format_tag(data) {
            1nat
        } else {
            0nat
        },
{
    let counted = log.push(Entry::Frame { device, format: format_tag(data) });
    let read = with_readings(counted, device, data);
    let after = read.push(last_updated(device, timestamp));
    law_readings_are_added(counted, device, data);
    lemma_readings_count_no_frame(counted, read, device, of_device, of_format);
    assert(counted.drop_last() =~= log);
    assert(after.drop_last() =~= read);
}

/// A decoded payload sets the time of the last update of its device, and
/// of no other.
pub proof fn law_payload_sets_last_update<R: Copy>(
    log: Seq<Entry<R>>,
    device: Seq<char>,
    data: RuuviData<R>,
    timestamp: u64,
    of_device: Seq<char>,
)
    ensures
        gauge_value(
            with_payload(log, device, data, timestamp),
            Series::LastUpdated,
            of_device,
            None,
        ) == if of_device == device {
            Some(unsigned_over::<R>(timestamp as int, Divisor::One))
        } else {
            gauge_value(log, Series::LastUpdated, of_device, None)
        },
{
    let counted = log.push(Entry::Frame { device, format: format_tag(data) });
    let read = with_readings(counted, device, data);
    let after = read.push(last_updated(device, timestamp));
    law_readings_are_added(counted, device, data);
    lemma_readings_keep_last_update(counted, read, device, of_device);
    assert(counted.drop_last() =~= log);
    assert(after.drop_last() =~= read);
}

/// A payload that could not be decoded records nothing: the log, and with
/// it every frame counter and every gauge, stays as it was.
pub proof fn law_failed_decode_records_nothing<R: Copy>(
    log: Seq<Entry<R>>,
    device: Seq<char>,
    timestamp: u64,
    of_device: Seq<char>,
    of_format: Seq<char>,
)
    ensures
        with_decoded(log, device, None, timestamp) == log,
        frame_count(with_decoded(log, device, None, timestamp), of_device, of_format)
            == frame_count(log, of_device, of_format),
{
}

} // verus!
