use std::collections::HashMap;

use ruuvi_telemetry::address::{
    format_device_address, manufacturer_pattern, MANUFACTURER_ID, MANUFACTURER_SPECIFIC_DATA,
};
use ruuvi_telemetry::bluetooth::{
    choose_adapter, device_found, device_lost, follow, handle_device_property, mark_active,
    seed_from_properties_iter, DeviceEvent, DeviceProperty, Disposition, EventProcessor,
    ProcessorState,
};
use ruuvi_telemetry::metrics::{Metrics, Series};
use ruuvi_telemetry::reading::{
    DataFormatE1, DataFormatV5, DataFormatV6, Divisor, Number, RuuviData, Value,
};
use ruuvi_telemetry::registry::ActiveDevices;

const PAYLOAD: [u8; 24] = [
    0x05, 0x12, 0xFC, 0x53, 0x94, 0xC3, 0x7C, 0x00, 0x04, 0xFF, 0xFC, 0x04, 0x0C, 0xAC, 0x36, 0x42,
    0x00, 0xCD, 0xCB, 0xB8, 0x33, 0x4C, 0x88, 0x4F,
];

fn frame(data: ruuvi_decoders::RuuviData) -> RuuviData<f64> {
    match data {
        ruuvi_decoders::RuuviData::V5(d) => RuuviData::V5(DataFormatV5 {
            temperature: d.temperature,
            humidity: d.humidity,
            pressure: d.pressure,
            acceleration_x: d.acceleration_x,
            acceleration_y: d.acceleration_y,
            acceleration_z: d.acceleration_z,
            battery_voltage: d.battery_voltage,
            tx_power: d.tx_power,
            movement_counter: d.movement_counter,
            measurement_sequence: d.measurement_sequence,
        }),
        ruuvi_decoders::RuuviData::V6(d) => RuuviData::V6(DataFormatV6 {
            temperature: d.temperature,
            humidity: d.humidity,
            pressure: d.pressure,
            pm2_5: d.pm2_5,
            co2: d.co2,
            voc_index: d.voc_index,
            nox_index: d.nox_index,
            measurement_sequence: d.measurement_sequence,
            flags: d.flags,
        }),
        ruuvi_decoders::RuuviData::E1(d) => RuuviData::E1(DataFormatE1 {
            temperature: d.temperature,
            humidity: d.humidity,
            pressure: d.pressure,
            pm1_0: d.pm1_0,
            pm2_5: d.pm2_5,
            pm4_0: d.pm4_0,
            pm10_0: d.pm10_0,
            co2: d.co2,
            voc_index: d.voc_index,
            nox_index: d.nox_index,
            measurement_sequence: d.measurement_sequence,
            flags: d.flags,
        }),
    }
}

/// Has a payload decoded where that is asked for, and follows up.
fn react(metrics: &mut Metrics<f64>, addr: &str, disposition: Disposition) {
    let decoded = match &disposition {
        Disposition::Decode(hex) => ruuvi_decoders::decode(hex.as_str()).ok().map(frame),
        _ => None,
    };
    follow(metrics, addr, &disposition, decoded, 1_700_000_000);
}

fn published(value: Value<f64>) -> f64 {
    let number = match value.number {
        Number::Real(r) => r,
        Number::Signed(n) => n as f64,
        Number::Unsigned(n) => n as f64,
    };
    number / f64::from(value.divisor.get())
}

fn manufacturer_data(key: u16, payload: &[u8]) -> DeviceProperty {
    let mut map = HashMap::new();
    map.insert(key, payload.to_vec());
    DeviceProperty::ManufacturerData(map)
}

#[test]
fn manufacturer_pattern_matches_ruuvi_prefix() {
    let pattern = manufacturer_pattern();

    assert_eq!(MANUFACTURER_SPECIFIC_DATA, pattern.data_type);
    assert_eq!(0xFF, pattern.data_type);
    assert_eq!(0, pattern.start_position);
    assert_eq!(vec![0x99, 0x04], pattern.content);
}

#[test]
fn device_addresses_are_formatted_lowercase() {
    let addr = [0xAA, 0xBB, 0xCC, 0xDD, 0xEE, 0xFF];
    assert_eq!("aa:bb:cc:dd:ee:ff", format_device_address(&addr));
}

#[test]
fn mark_active_allows_first_seen_only_once() {
    let mut active = ActiveDevices::new();

    assert!(mark_active(&mut active, "aa:bb"));
    assert!(!mark_active(&mut active, "aa:bb"));
    assert!(mark_active(&mut active, "cc:dd"));
}

#[test]
fn manufacturer_data_is_forwarded() {
    let mut metrics = Metrics::<f64>::new();
    let mut map = HashMap::new();
    map.insert(0x0499, PAYLOAD.to_vec());

    let disposition = handle_device_property(
        &mut metrics,
        "aa:bb",
        DeviceEvent::PropertyChanged(DeviceProperty::ManufacturerData(map)),
    );
    assert_eq!(
        Disposition::Decode("0512fc5394c37c0004fffc040cac364200cdcbb8334c884f".to_string()),
        disposition
    );
    assert_eq!(0, metrics.updates().len());
    react(&mut metrics, "aa:bb", disposition);

    assert_eq!(1, metrics.frames_counted("aa:bb", "5"));
    assert_eq!("ruuvi_frames_total", Series::FramesTotal.name());
}

#[test]
fn non_ruuvi_manufacturer_data_is_ignored() {
    let mut metrics = Metrics::<f64>::new();
    let mut map = HashMap::new();
    map.insert(0x1234, vec![0xde, 0xad, 0xbe, 0xef]);

    let disposition = handle_device_property(
        &mut metrics,
        "aa:bb",
        DeviceEvent::PropertyChanged(DeviceProperty::ManufacturerData(map)),
    );
    assert_eq!(Disposition::NoData, disposition);
    react(&mut metrics, "aa:bb", disposition);

    assert_eq!(0, metrics.frames_counted("aa:bb", "5"));
    assert!(metrics.updates().is_empty());
}

#[test]
fn rssi_updates_metric() {
    let mut metrics = Metrics::<f64>::new();

    let disposition = handle_device_property(
        &mut metrics,
        "aa:bb",
        DeviceEvent::PropertyChanged(DeviceProperty::Rssi(-42)),
    );
    assert_eq!(Disposition::SignalStrength, disposition);

    assert_eq!("ruuvi_rssi_dbm", Series::Rssi.name());
    assert!(metrics
        .gauge_value(Series::Rssi, "aa:bb", None)
        .is_some_and(|v| (published(v) + 42.0).abs() < f64::EPSILON));
    assert_eq!(
        Some(Value { number: Number::Signed(-42), divisor: Divisor::One }),
        metrics.gauge_value(Series::Rssi, "aa:bb", None)
    );
    assert_eq!(None, metrics.gauge_value(Series::Rssi, "cc:dd", None));
}

#[test]
fn advertising_flags_are_ignored() {
    let mut metrics = Metrics::<f64>::new();

    let disposition = handle_device_property(
        &mut metrics,
        "aa:bb",
        DeviceEvent::PropertyChanged(DeviceProperty::AdvertisingFlags(vec![0x01, 0x02])),
    );
    assert_eq!(Disposition::Flags, disposition);
    react(&mut metrics, "aa:bb", disposition);

    assert_eq!(0, metrics.frames_counted("aa:bb", "5"));
    assert!(metrics.updates().is_empty());
}

#[test]
fn unrelated_properties_fall_through() {
    let mut metrics = Metrics::<f64>::new();

    let disposition = handle_device_property(
        &mut metrics,
        "aa:bb",
        DeviceEvent::PropertyChanged(DeviceProperty::Other),
    );
    assert_eq!(Disposition::Unknown, disposition);
    react(&mut metrics, "aa:bb", disposition);

    assert_eq!(0, metrics.frames_counted("aa:bb", "5"));
    assert!(metrics.updates().is_empty());
}

#[test]
fn choose_adapter_prefers_requested() {
    let mut preferred_hit = false;
    let mut default_hit = false;

    let lookup = Some("hci0").map(|name| {
        assert_eq!("hci0", name);
        preferred_hit = true;
        Err::<u8, &str>("invalid arguments")
    });
    let adapter = match choose_adapter(lookup) {
        Some(adapter) => Ok(adapter),
        None => {
            default_hit = true;
            Err::<u8, &str>("not ready")
        }
    };

    assert!(preferred_hit);
    assert!(adapter.is_err());
    assert!(default_hit);
}

#[test]
fn choose_adapter_takes_the_named_adapter_when_found() {
    assert_eq!(Some(7), choose_adapter(Some(Ok::<u8, &str>(7))));
    assert_eq!(None, choose_adapter(Some(Err::<u8, &str>("gone"))));
    assert_eq!(None, choose_adapter(None::<Result<u8, &str>>));
}

#[test]
fn process_events_stream_records_metrics() {
    let mut metrics = Metrics::<f64>::new();
    let mut active = ActiveDevices::new();
    let session = active.start_session("aa:bb").unwrap();

    let events = vec![
        DeviceEvent::PropertyChanged(DeviceProperty::Rssi(-20)),
        DeviceEvent::PropertyChanged(manufacturer_data(0x0499, &PAYLOAD)),
    ];

    let mut processor = EventProcessor::new("aa:bb", session);
    for event in events {
        let disposition = processor.handle_event(&mut metrics, event).unwrap();
        react(&mut metrics, "aa:bb", disposition);
    }
    processor.stream_ended();
    processor.terminate(&mut active);

    assert!(!active.contains("aa:bb"));

    assert!(metrics
        .gauge_value(Series::Rssi, "aa:bb", None)
        .is_some_and(|v| (published(v) + 20.0).abs() < f64::EPSILON));
    assert_eq!(1, metrics.frames_counted("aa:bb", "5"));
}

#[test]
fn seed_from_properties_iter_stops_after_first_match() {
    let mut metrics = Metrics::<f64>::new();

    let disposition = seed_from_properties_iter(
        vec![
            manufacturer_data(0x1234, &[0x01]),
            manufacturer_data(0x0499, &PAYLOAD),
            manufacturer_data(0x0499, &[0x00]),
        ],
        &mut metrics,
        "aa:bb",
    );
    // Only the first manufacturer data, which is not the beacons', is handled:
    // no frame is counted.
    assert_eq!(Some(Disposition::NoData), disposition);
    if let Some(disposition) = disposition {
        react(&mut metrics, "aa:bb", disposition);
    }

    assert_eq!(0, metrics.frames_counted("aa:bb", "5"));
}

#[test]
fn seed_skips_what_is_no_manufacturer_data() {
    let mut metrics = Metrics::<f64>::new();

    let disposition = seed_from_properties_iter(
        vec![
            DeviceProperty::Rssi(-70),
            DeviceProperty::Other,
            manufacturer_data(0x0499, &PAYLOAD),
            DeviceProperty::Rssi(-71),
        ],
        &mut metrics,
        "aa:bb",
    );
    assert!(metrics.updates().is_empty());
    react(&mut metrics, "aa:bb", disposition.unwrap());
    assert_eq!(1, metrics.frames_counted("aa:bb", "5"));
    // the signal strengths among the properties are not recorded
    assert_eq!(None, metrics.gauge_value(Series::Rssi, "aa:bb", None));

    let mut metrics = Metrics::<f64>::new();
    assert_eq!(
        None,
        seed_from_properties_iter(
            vec![DeviceProperty::Rssi(-70), DeviceProperty::AdvertisingFlags(vec![6])],
            &mut metrics,
            "aa:bb"
        )
    );
    assert_eq!(None, seed_from_properties_iter(Vec::new(), &mut metrics, "aa:bb"));
    assert!(metrics.updates().is_empty());
}

#[test]
fn manufacturer_identifier_is_the_pattern_read_backwards() {
    let pattern = manufacturer_pattern();
    assert_eq!(0x0499, MANUFACTURER_ID);
    assert_eq!(MANUFACTURER_ID.to_le_bytes().to_vec(), pattern.content);
}

#[test]
fn undecodable_payload_leaves_the_frame_counter_alone() {
    let mut metrics = Metrics::<f64>::new();
    let good = handle_device_property(
        &mut metrics,
        "aa:bb",
        DeviceEvent::PropertyChanged(manufacturer_data(0x0499, &PAYLOAD)),
    );
    react(&mut metrics, "aa:bb", good);
    let before = metrics.updates().clone();
    assert_eq!(1, metrics.frames_counted("aa:bb", "5"));

    // a payload cut short, one of an unknown format, and an empty one
    for payload in [&PAYLOAD[..10], &[0x63, 0x00, 0x00][..], &[][..]] {
        let disposition = handle_device_property(
            &mut metrics,
            "aa:bb",
            DeviceEvent::PropertyChanged(manufacturer_data(0x0499, payload)),
        );
        assert!(matches!(disposition, Disposition::Decode(_)));
        react(&mut metrics, "aa:bb", disposition);
    }

    assert_eq!(1, metrics.frames_counted("aa:bb", "5"));
    assert_eq!(&before, metrics.updates());
}

#[test]
fn flags_do_not_stop_the_processor() {
    let mut metrics = Metrics::<f64>::new();
    let mut processor = EventProcessor::new("aa:bb", 0);

    let first = processor.handle_event(
        &mut metrics,
        DeviceEvent::PropertyChanged(DeviceProperty::AdvertisingFlags(vec![0x06])),
    );
    assert_eq!(Some(Disposition::Flags), first);
    assert!(metrics.updates().is_empty());
    assert_eq!(ProcessorState::Running, processor.state());

    let second = processor
        .handle_event(&mut metrics, DeviceEvent::PropertyChanged(DeviceProperty::Rssi(-61)));
    assert_eq!(Some(Disposition::SignalStrength), second);
    assert_eq!(
        Some(Value { number: Number::Signed(-61), divisor: Divisor::One }),
        metrics.gauge_value(Series::Rssi, "aa:bb", None)
    );
}

#[test]
fn processor_passes_over_events_after_the_stream_ended() {
    let mut metrics = Metrics::<f64>::new();
    let mut active = ActiveDevices::new();
    let session = active.start_session("aa:bb").unwrap();
    let mut processor = EventProcessor::new("aa:bb", session);
    assert_eq!("aa:bb", processor.addr());
    assert_eq!(session, processor.session());

    processor.stream_ended();
    assert_eq!(ProcessorState::Draining, processor.state());
    assert!(active.contains("aa:bb"));
    assert_eq!(
        None,
        processor.handle_event(&mut metrics, DeviceEvent::PropertyChanged(DeviceProperty::Rssi(-1)))
    );
    assert!(metrics.updates().is_empty());

    processor.terminate(&mut active);
    assert_eq!(ProcessorState::Terminated, processor.state());
    assert!(!active.contains("aa:bb"));

    // a device admitted anew is not torn down by the processor that has ended
    assert!(mark_active(&mut active, "aa:bb"));
    processor.terminate(&mut active);
    processor.stream_ended();
    assert_eq!(ProcessorState::Terminated, processor.state());
    assert!(active.contains("aa:bb"));
}

#[test]
fn processor_that_cannot_subscribe_releases_its_device() {
    let mut active = ActiveDevices::new();
    let mut metrics = Metrics::<f64>::new();
    let mut processor =
        device_found(&mut active, &mut metrics, &[1, 2, 3, 4, 5, 6], None).unwrap();
    assert!(active.contains("01:02:03:04:05:06"));

    processor.terminate(&mut active);

    assert_eq!(ProcessorState::Terminated, processor.state());
    assert!(!active.contains("01:02:03:04:05:06"));
    assert!(metrics.updates().is_empty());
}

#[test]
fn found_device_is_admitted_once_and_its_rssi_recorded_each_time() {
    let mut active = ActiveDevices::new();
    let mut metrics = Metrics::<f64>::new();
    let address = [0xAA, 0xBB, 0xCC, 0xDD, 0xEE, 0xFF];

    let first = device_found(&mut active, &mut metrics, &address, Some(-50));
    assert_eq!("aa:bb:cc:dd:ee:ff", first.as_ref().unwrap().addr());
    assert_eq!(ProcessorState::Running, first.as_ref().unwrap().state());
    assert_eq!(1, active.len());

    let second = device_found(&mut active, &mut metrics, &address, Some(-48));
    assert!(second.is_none());
    assert_eq!(1, active.len());
    assert_eq!(2, metrics.updates().len());
    assert_eq!(
        Some(Value { number: Number::Signed(-48), divisor: Divisor::One }),
        metrics.gauge_value(Series::Rssi, "aa:bb:cc:dd:ee:ff", None)
    );

    let third = device_found(&mut active, &mut metrics, &address, None);
    assert!(third.is_none());
    assert_eq!(2, metrics.updates().len());

    device_lost(&mut active, &address);
    assert_eq!(0, active.len());
    assert!(device_found(&mut active, &mut metrics, &address, None).is_some());
}

#[test]
fn device_lost_and_found_again_keeps_its_new_session() {
    let mut active = ActiveDevices::new();
    let mut metrics = Metrics::<f64>::new();
    let address = [0xAA, 0xBB, 0xCC, 0xDD, 0xEE, 0xFF];

    let mut first = device_found(&mut active, &mut metrics, &address, None).unwrap();
    device_lost(&mut active, &address);
    assert!(!active.contains("aa:bb:cc:dd:ee:ff"));
    let mut second = device_found(&mut active, &mut metrics, &address, None).unwrap();
    assert_ne!(first.session(), second.session());
    assert_eq!(Some(second.session()), active.session_of("aa:bb:cc:dd:ee:ff"));

    // the stream of the first session ends only now
    first.stream_ended();
    first.terminate(&mut active);

    assert_eq!(ProcessorState::Terminated, first.state());
    assert!(active.contains("aa:bb:cc:dd:ee:ff"));
    assert!(device_found(&mut active, &mut metrics, &address, None).is_none());

    second.stream_ended();
    second.terminate(&mut active);
    assert!(!active.contains("aa:bb:cc:dd:ee:ff"));
    assert_eq!(0, active.len());
}

#[test]
fn discovered_source_is_seeded_observed_and_released() {
    let mut active = ActiveDevices::new();
    let mut metrics = Metrics::<f64>::new();
    let address = [0xAA, 0xBB, 0xCC, 0xDD, 0xEE, 0xFF];

    let mut processor = device_found(&mut active, &mut metrics, &address, None).unwrap();
    let addr = processor.addr().to_string();
    assert_eq!("aa:bb:cc:dd:ee:ff", addr);
    assert!(active.contains("aa:bb:cc:dd:ee:ff"));

    let seeded = seed_from_properties_iter(
        vec![DeviceProperty::Other, manufacturer_data(0x0499, &PAYLOAD)],
        &mut metrics,
        &addr,
    );
    react(&mut metrics, &addr, seeded.unwrap());

    let disposition = processor
        .handle_event(&mut metrics, DeviceEvent::PropertyChanged(DeviceProperty::Rssi(-42)))
        .unwrap();
    react(&mut metrics, &addr, disposition);

    processor.stream_ended();
    processor.terminate(&mut active);

    assert_eq!(1, metrics.frames_counted("aa:bb:cc:dd:ee:ff", "5"));
    assert_eq!(0, metrics.frames_counted("aa:bb:cc:dd:ee:ff", "6"));
    assert!(metrics
        .gauge_value(Series::Rssi, "aa:bb:cc:dd:ee:ff", None)
        .is_some_and(|v| published(v) == -42.0));
    assert!(!active.contains("aa:bb:cc:dd:ee:ff"));
    assert_eq!(0, active.len());
}

#[test]
fn nothing_is_recorded_where_nothing_was_to_be_decoded() {
    let decoded = ruuvi_decoders::decode(
        "0512fc5394c37c0004fffc040cac364200cdcbb8334c884f",
    )
    .ok()
    .map(frame);
    assert!(decoded.is_some());

    for disposition in [
        Disposition::NoData,
        Disposition::SignalStrength,
        Disposition::Flags,
        Disposition::Unknown,
    ] {
        let mut metrics = Metrics::<f64>::new();
        follow(&mut metrics, "aa:bb", &disposition, decoded, 17);
        assert!(metrics.updates().is_empty());
    }

    let mut metrics = Metrics::<f64>::new();
    let asked = Disposition::Decode(String::new());
    follow(&mut metrics, "aa:bb", &asked, None, 17);
    assert!(metrics.updates().is_empty());
    follow(&mut metrics, "aa:bb", &asked, decoded, 17);
    assert_eq!(13, metrics.updates().len());
    assert_eq!(1, metrics.frames_counted("aa:bb", "5"));
}
