use ruuvi_telemetry::address::payload_hex;
use ruuvi_telemetry::metrics::{Metrics, Series, Update};
use ruuvi_telemetry::reading::{
    DataFormatE1, DataFormatV5, DataFormatV6, Divisor, HasAirQuality, HasEnvironment, HasMotion,
    HasSequenceNumber, Number, RuuviData, Value,
};
use ruuvi_telemetry::ruuvi::{
    apply_air_quality_metrics, apply_environment_metrics, apply_motion_metrics,
    apply_sequence_number, handle_manufacturer_data,
};

const V5: [u8; 24] = [
    0x05, 0x12, 0xFC, 0x53, 0x94, 0xC3, 0x7C, 0x00, 0x04, 0xFF, 0xFC, 0x04, 0x0C, 0xAC, 0x36, 0x42,
    0x00, 0xCD, 0xCB, 0xB8, 0x33, 0x4C, 0x88, 0x4F,
];

const V6: [u8; 20] = [
    0x06, 0x17, 0x0C, 0x56, 0x68, 0xC7, 0x9E, 0x00, 0x70, 0x00, 0xC9, 0x05, 0x01, 0xD9, 0xFF, 0xCD,
    0x00, 0x4C, 0x88, 0x4F,
];

const E1: [u8; 40] = [
    0xE1, 0x17, 0x0C, 0x56, 0x68, 0xC7, 0x9E, 0x00, 0x65, 0x00, 0x70, 0x04, 0xBD, 0x11, 0xCA, 0x00,
    0xC9, 0x0A, 0x02, 0x13, 0xE0, 0xAC, 0x00, 0x00, 0x00, 0xDE, 0xCD, 0xEE, 0x11, 0x00, 0x00, 0x00,
    0x00, 0x00, 0xCB, 0xB8, 0x33, 0x4C, 0x88, 0x4F,
];

fn frame(data: ruuvi_decoders::RuuviData) -> RuuviData<f64> {
    match data {
        ruuvi_decoders::RuuviData::V5(d) => RuuviData::V5(DataFormatV5 {
            temperature: d.temperature,
            humidity: d.humidity,
            pressure: d.pressure,
            acceleration_x: d.acceleration_x,
            acceleration_y: d.acceleration_y,
            acceleration_z: d.acceleration_z,
            battery_voltage: d.battery_voltage,
            tx_power: d.tx_power,
            movement_counter: d.movement_counter,
            measurement_sequence: d.measurement_sequence,
        }),
        ruuvi_decoders::RuuviData::V6(d) => RuuviData::V6(DataFormatV6 {
            temperature: d.temperature,
            humidity: d.humidity,
            pressure: d.pressure,
            pm2_5: d.pm2_5,
            co2: d.co2,
            voc_index: d.voc_index,
            nox_index: d.nox_index,
            measurement_sequence: d.measurement_sequence,
            flags: d.flags,
        }),
        ruuvi_decoders::RuuviData::E1(d) => RuuviData::E1(DataFormatE1 {
            temperature: d.temperature,
            humidity: d.humidity,
            pressure: d.pressure,
            pm1_0: d.pm1_0,
            pm2_5: d.pm2_5,
            pm4_0: d.pm4_0,
            pm10_0: d.pm10_0,
            co2: d.co2,
            voc_index: d.voc_index,
            nox_index: d.nox_index,
            measurement_sequence: d.measurement_sequence,
            flags: d.flags,
        }),
    }
}

fn decode(payload: &[u8]) -> Option<RuuviData<f64>> {
    ruuvi_decoders::decode(payload_hex(payload).as_str()).ok().map(frame)
}

fn published(value: Value<f64>) -> f64 {
    let number = match value.number {
        Number::Real(r) => r,
        Number::Signed(n) => n as f64,
        Number::Unsigned(n) => n as f64,
    };
    number / f64::from(value.divisor.get())
}

fn gauge(metrics: &Metrics<f64>, series: Series, axis: Option<&str>) -> f64 {
    published(metrics.gauge_value(series, "aa:bb", axis).unwrap())
}

fn close(a: f64, b: f64) -> bool {
    (a - b).abs() < 1e-9
}

fn measured(r: f64, divisor: Divisor) -> Value<f64> {
    Value { number: Number::Real(r), divisor }
}

fn signed(n: i64, divisor: Divisor) -> Value<f64> {
    Value { number: Number::Signed(n), divisor }
}

fn unsigned(n: u64, divisor: Divisor) -> Value<f64> {
    Value { number: Number::Unsigned(n), divisor }
}

fn set(series: Series, value: Value<f64>) -> Update<f64> {
    Update::Gauge { series, device: "aa:bb".to_string(), axis: None, value }
}

fn set_axis(axis: &str, value: Value<f64>) -> Update<f64> {
    Update::Gauge {
        series: Series::Acceleration,
        device: "aa:bb".to_string(),
        axis: Some(axis.to_string()),
        value,
    }
}

fn empty_v5() -> DataFormatV5<f64> {
    DataFormatV5 {
        temperature: None,
        humidity: None,
        pressure: None,
        acceleration_x: None,
        acceleration_y: None,
        acceleration_z: None,
        battery_voltage: None,
        tx_power: None,
        movement_counter: None,
        measurement_sequence: None,
    }
}

fn empty_e1() -> DataFormatE1<f64> {
    DataFormatE1 {
        temperature: None,
        humidity: None,
        pressure: None,
        pm1_0: None,
        pm2_5: None,
        pm4_0: None,
        pm10_0: None,
        co2: None,
        voc_index: None,
        nox_index: None,
        measurement_sequence: None,
        flags: 0,
    }
}

#[test]
fn decoded_payload_counts_one_frame_and_sets_its_gauges() {
    let mut metrics = Metrics::<f64>::new();

    handle_manufacturer_data(&mut metrics, "aa:bb", decode(&V5), 1_700_000_000);

    assert_eq!(1, metrics.frames_counted("aa:bb", "5"));
    assert_eq!(0, metrics.frames_counted("aa:bb", "6"));
    assert_eq!(0, metrics.frames_counted("aa:bb", "E1"));
    assert!(close(24.3, gauge(&metrics, Series::Temperature, None)));
    // 53.49 % is the ratio 0.5349
    assert!(close(0.5349, gauge(&metrics, Series::Humidity, None)));
    // 100044 Pa are 1000.44 hPa
    assert!(close(1000.44, gauge(&metrics, Series::Pressure, None)));
    // 4 thousandths of g
    assert_eq!(0.004, gauge(&metrics, Series::Acceleration, Some("X")));
    assert_eq!(-0.004, gauge(&metrics, Series::Acceleration, Some("Y")));
    assert_eq!(1.036, gauge(&metrics, Series::Acceleration, Some("Z")));
    // 2977 mV
    assert_eq!(2.977, gauge(&metrics, Series::BatteryVolts, None));
    assert_eq!(4.0, gauge(&metrics, Series::TxPower, None));
    assert_eq!(66.0, gauge(&metrics, Series::MoveCount, None));
    assert_eq!(205.0, gauge(&metrics, Series::Seqno, None));
    assert_eq!(1_700_000_000.0, gauge(&metrics, Series::LastUpdated, None));
}

#[test]
fn decoded_payload_is_recorded_in_order() {
    let mut metrics = Metrics::<f64>::new();

    handle_manufacturer_data(&mut metrics, "aa:bb", decode(&V5), 17);

    let updates = metrics.updates();
    assert_eq!(13, updates.len());
    assert_eq!(
        Update::Frame { device: "aa:bb".to_string(), format: "5".to_string() },
        updates[0]
    );
    assert!(matches!(updates[1], Update::Gauge { series: Series::Temperature, .. }));
    assert!(
        matches!(updates[2], Update::Gauge { series: Series::Humidity, value, .. } if value.divisor == Divisor::Hundred)
    );
    assert!(matches!(updates[3], Update::DewPoint { .. }));
    assert!(
        matches!(updates[4], Update::Gauge { series: Series::Pressure, value, .. } if value.divisor == Divisor::Hundred)
    );
    assert_eq!(set_axis("X", signed(4, Divisor::Thousand)), updates[5]);
    assert_eq!(set_axis("Y", signed(-4, Divisor::Thousand)), updates[6]);
    assert_eq!(set_axis("Z", signed(1036, Divisor::Thousand)), updates[7]);
    assert_eq!(set(Series::BatteryVolts, unsigned(2977, Divisor::Thousand)), updates[8]);
    assert_eq!(set(Series::TxPower, signed(4, Divisor::One)), updates[9]);
    assert_eq!(set(Series::MoveCount, unsigned(66, Divisor::One)), updates[10]);
    assert_eq!(set(Series::Seqno, unsigned(205, Divisor::One)), updates[11]);
    assert_eq!(set(Series::LastUpdated, unsigned(17, Divisor::One)), updates[12]);
}

#[test]
fn dew_point_is_asked_for_with_temperature_and_humidity_ratio() {
    let mut metrics = Metrics::<f64>::new();

    handle_manufacturer_data(&mut metrics, "aa:bb", decode(&V5), 17);

    match &metrics.updates()[3] {
        Update::DewPoint { device, temperature, humidity_ratio } => {
            assert_eq!("aa:bb", device);
            assert!(close(24.3, published(*temperature)));
            assert!(close(0.5349, published(*humidity_ratio)));
            assert_eq!(Divisor::One, temperature.divisor);
            assert_eq!(Divisor::Hundred, humidity_ratio.divisor);
        }
        other => panic!("no dew point: {:?}", other),
    }
}

#[test]
fn second_format_reports_air_quality_and_no_motion() {
    let mut metrics = Metrics::<f64>::new();

    handle_manufacturer_data(&mut metrics, "aa:bb", decode(&V6), 17);

    assert_eq!(1, metrics.frames_counted("aa:bb", "6"));
    assert_eq!(0, metrics.frames_counted("aa:bb", "5"));
    assert!(close(29.5, gauge(&metrics, Series::Temperature, None)));
    assert!(close(0.553, gauge(&metrics, Series::Humidity, None)));
    // the pressure of this format is in hPa already
    assert!(close(1011.02, gauge(&metrics, Series::Pressure, None)));
    assert!(close(11.2, gauge(&metrics, Series::Pm2_5, None)));
    assert_eq!(201.0, gauge(&metrics, Series::Co2, None));
    assert_eq!(10.0, gauge(&metrics, Series::Voc, None));
    assert_eq!(2.0, gauge(&metrics, Series::Nox, None));
    assert_eq!(0.0, gauge(&metrics, Series::Calibrating, None));
    assert_eq!(205.0, gauge(&metrics, Series::Seqno, None));
    assert_eq!(17.0, gauge(&metrics, Series::LastUpdated, None));
    for series in [Series::Pm1_0, Series::Pm4_0, Series::Pm10_0, Series::BatteryVolts] {
        assert_eq!(None, metrics.gauge_value(series, "aa:bb", None));
    }
    for axis in ["X", "Y", "Z"] {
        assert_eq!(None, metrics.gauge_value(Series::Acceleration, "aa:bb", Some(axis)));
    }
    assert_eq!(
        1,
        metrics
            .updates()
            .iter()
            .filter(|update| matches!(update, Update::AirQuality { .. }))
            .count()
    );
}

#[test]
fn extended_format_reports_all_particle_sizes() {
    let mut metrics = Metrics::<f64>::new();

    handle_manufacturer_data(&mut metrics, "aa:bb", decode(&E1), 17);

    assert_eq!(1, metrics.frames_counted("aa:bb", "E1"));
    assert!(close(10.1, gauge(&metrics, Series::Pm1_0, None)));
    assert!(close(11.2, gauge(&metrics, Series::Pm2_5, None)));
    assert!(close(121.3, gauge(&metrics, Series::Pm4_0, None)));
    assert!(close(455.4, gauge(&metrics, Series::Pm10_0, None)));
    assert_eq!(201.0, gauge(&metrics, Series::Co2, None));
    assert_eq!(20.0, gauge(&metrics, Series::Voc, None));
    assert_eq!(4.0, gauge(&metrics, Series::Nox, None));
    // bit 0 of the flags 0x11
    assert_eq!(1.0, gauge(&metrics, Series::Calibrating, None));
    assert_eq!(14_601_710.0, gauge(&metrics, Series::Seqno, None));
    let last = metrics.updates().len() - 1;
    assert_eq!(set(Series::LastUpdated, unsigned(17, Divisor::One)), metrics.updates()[last]);
    assert!(matches!(
        metrics.updates()[last - 2],
        Update::AirQuality { pm2_5, co2, .. }
            if close(11.2, published(pm2_5)) && co2 == unsigned(201, Divisor::One)
    ));
}

#[test]
fn payload_that_cannot_be_decoded_records_nothing() {
    let mut metrics = Metrics::<f64>::new();
    metrics.inc_ruuvi_frames("aa:bb", "5");

    assert_eq!(None, decode(&V5[..23]));
    assert_eq!(None, decode(&[0x63; 24]));
    assert_eq!(None, decode(&[]));
    handle_manufacturer_data(&mut metrics, "aa:bb", None, 17);

    assert_eq!(1, metrics.updates().len());
    assert_eq!(1, metrics.frames_counted("aa:bb", "5"));
    assert_eq!(None, metrics.gauge_value(Series::LastUpdated, "aa:bb", None));
}

#[test]
fn payload_without_readings_still_counts_and_sets_the_time() {
    let mut metrics = Metrics::<f64>::new();

    handle_manufacturer_data(&mut metrics, "aa:bb", Some(RuuviData::V5(empty_v5())), 99);

    assert_eq!(
        &vec![
            Update::Frame { device: "aa:bb".to_string(), format: "5".to_string() },
            set(Series::LastUpdated, unsigned(99, Divisor::One)),
        ],
        metrics.updates()
    );

    // the extended format always tells whether it calibrates
    let mut metrics = Metrics::<f64>::new();
    handle_manufacturer_data(&mut metrics, "aa:bb", Some(RuuviData::E1(empty_e1())), 99);
    assert_eq!(
        &vec![
            Update::Frame { device: "aa:bb".to_string(), format: "E1".to_string() },
            set(Series::Calibrating, unsigned(0, Divisor::One)),
            set(Series::LastUpdated, unsigned(99, Divisor::One)),
        ],
        metrics.updates()
    );
}

#[test]
fn environment_needs_all_three_readings() {
    let whole = DataFormatV5 {
        temperature: Some(20.0),
        humidity: Some(40.0),
        pressure: Some(100_000.0),
        ..empty_v5()
    };
    assert!(whole.environment().is_some());
    for partial in [
        DataFormatV5 { temperature: None, ..whole },
        DataFormatV5 { humidity: None, ..whole },
        DataFormatV5 { pressure: None, ..whole },
    ] {
        assert_eq!(None, partial.environment());
        let mut metrics = Metrics::<f64>::new();
        apply_environment_metrics(&mut metrics, "aa:bb", &partial);
        assert!(metrics.updates().is_empty());
    }

    let mut metrics = Metrics::<f64>::new();
    apply_environment_metrics(&mut metrics, "aa:bb", &whole);
    assert_eq!(
        &vec![
            set(Series::Temperature, measured(20.0, Divisor::One)),
            set(Series::Humidity, measured(40.0, Divisor::Hundred)),
            Update::DewPoint {
                device: "aa:bb".to_string(),
                temperature: measured(20.0, Divisor::One),
                humidity_ratio: measured(40.0, Divisor::Hundred),
            },
            set(Series::Pressure, measured(100_000.0, Divisor::Hundred)),
        ],
        metrics.updates()
    );
}

#[test]
fn pressure_is_scaled_by_format() {
    let v5 = DataFormatV5 {
        temperature: Some(1.0),
        humidity: Some(2.0),
        pressure: Some(3.0),
        ..empty_v5()
    };
    let e1 = DataFormatE1 {
        temperature: Some(1.0),
        humidity: Some(2.0),
        pressure: Some(3.0),
        ..empty_e1()
    };
    let v6 = DataFormatV6 {
        temperature: Some(1.0),
        humidity: Some(2.0),
        pressure: Some(3.0),
        pm2_5: None,
        co2: None,
        voc_index: None,
        nox_index: None,
        measurement_sequence: None,
        flags: 0,
    };

    assert_eq!(measured(3.0, Divisor::Hundred), v5.environment().unwrap().pressure_hpa);
    assert_eq!(measured(3.0, Divisor::One), v6.environment().unwrap().pressure_hpa);
    assert_eq!(measured(3.0, Divisor::One), e1.environment().unwrap().pressure_hpa);
    for humidity in [
        v5.environment().unwrap().humidity_ratio,
        v6.environment().unwrap().humidity_ratio,
        e1.environment().unwrap().humidity_ratio,
    ] {
        assert_eq!(measured(2.0, Divisor::Hundred), humidity);
    }
}

#[test]
fn motion_readings_are_scaled() {
    let v5 = DataFormatV5 {
        acceleration_x: Some(i16::MIN),
        acceleration_z: Some(i16::MAX),
        battery_voltage: Some(u16::MAX),
        tx_power: Some(i8::MIN),
        movement_counter: Some(u8::MAX),
        ..empty_v5()
    };

    let motion = v5.motion().unwrap();
    assert_eq!(Some(signed(-32768, Divisor::Thousand)), motion.acceleration_x_g);
    assert_eq!(None, motion.acceleration_y_g);
    assert_eq!(Some(signed(32767, Divisor::Thousand)), motion.acceleration_z_g);
    assert_eq!(Some(unsigned(65535, Divisor::Thousand)), motion.battery_voltage);
    assert_eq!(Some(signed(-128, Divisor::One)), motion.tx_power);
    assert_eq!(Some(unsigned(255, Divisor::One)), motion.movement_count);

    let mut metrics = Metrics::<f64>::new();
    apply_motion_metrics(&mut metrics, "aa:bb", &v5);
    assert_eq!(
        &vec![
            set_axis("X", signed(-32768, Divisor::Thousand)),
            set_axis("Z", signed(32767, Divisor::Thousand)),
            set(Series::BatteryVolts, unsigned(65535, Divisor::Thousand)),
            set(Series::TxPower, signed(-128, Divisor::One)),
            set(Series::MoveCount, unsigned(255, Divisor::One)),
        ],
        metrics.updates()
    );
}

#[test]
fn air_quality_index_needs_particles_and_co2() {
    let both = DataFormatE1 { pm2_5: Some(12.5), co2: Some(800), ..empty_e1() };
    let asked = |data: &DataFormatE1<f64>| {
        let mut metrics = Metrics::<f64>::new();
        apply_air_quality_metrics(&mut metrics, "aa:bb", data);
        metrics
            .updates()
            .iter()
            .filter(|update| matches!(update, Update::AirQuality { .. }))
            .count()
    };

    assert_eq!(1, asked(&both));
    assert_eq!(0, asked(&DataFormatE1 { pm2_5: None, ..both }));
    assert_eq!(0, asked(&DataFormatE1 { co2: None, ..both }));
    assert_eq!(0, asked(&empty_e1()));
    // the other particle sizes do not stand in for PM2.5
    assert_eq!(0, asked(&DataFormatE1 { pm2_5: None, pm1_0: Some(1.0), pm4_0: Some(4.0), ..both }));

    let mut metrics = Metrics::<f64>::new();
    apply_air_quality_metrics(&mut metrics, "aa:bb", &both);
    assert_eq!(
        &vec![
            set(Series::Pm2_5, measured(12.5, Divisor::One)),
            set(Series::Co2, unsigned(800, Divisor::One)),
            set(Series::Calibrating, unsigned(0, Divisor::One)),
            Update::AirQuality {
                device: "aa:bb".to_string(),
                pm2_5: measured(12.5, Divisor::One),
                co2: unsigned(800, Divisor::One),
            },
        ],
        metrics.updates()
    );
}

#[test]
fn calibrating_is_bit_zero_of_the_flags() {
    for flags in 0..=255_u8 {
        let e1 = DataFormatE1 { flags, ..empty_e1() };
        let expected = unsigned(u64::from(flags % 2), Divisor::One);
        assert_eq!(Some(expected), e1.air_quality().unwrap().calibrating);
    }
}

#[test]
fn sequence_numbers_of_every_width_are_recorded() {
    let mut metrics = Metrics::<f64>::new();
    apply_sequence_number(
        &mut metrics,
        "aa:bb",
        &DataFormatV5 { measurement_sequence: Some(65534), ..empty_v5() },
    );
    apply_sequence_number(
        &mut metrics,
        "aa:bb",
        &DataFormatE1 { measurement_sequence: Some(16_777_214), ..empty_e1() },
    );
    apply_sequence_number(&mut metrics, "aa:bb", &empty_e1());

    assert_eq!(
        &vec![
            set(Series::Seqno, unsigned(65534, Divisor::One)),
            set(Series::Seqno, unsigned(16_777_214, Divisor::One)),
        ],
        metrics.updates()
    );
    assert_eq!(None, empty_v5().sequence_number());
}

#[test]
fn absent_readings_leave_their_gauges_as_they_were() {
    let mut metrics = Metrics::<f64>::new();
    handle_manufacturer_data(&mut metrics, "aa:bb", decode(&V5), 17);
    let voltage = metrics.gauge_value(Series::BatteryVolts, "aa:bb", None);
    assert!(voltage.is_some());

    let later = DataFormatV5 { tx_power: Some(-8), ..empty_v5() };
    handle_manufacturer_data(&mut metrics, "aa:bb", Some(RuuviData::V5(later)), 18);

    assert_eq!(voltage, metrics.gauge_value(Series::BatteryVolts, "aa:bb", None));
    assert_eq!(-8.0, gauge(&metrics, Series::TxPower, None));
    assert_eq!(18.0, gauge(&metrics, Series::LastUpdated, None));
    assert_eq!(2, metrics.frames_counted("aa:bb", "5"));
}
