//! What the events of the scanner and of a device mean.
//!
//! The scanner tells of devices found and lost; a device that was found
//! tells of its properties as they change. The functions here decide what
//! follows from each such event. They wait for nothing: whoever drives
//! them reads the events, has payloads decoded, and publishes what was
//! recorded.

use crate::address::{address_text, format_device_address, hex_text, payload_hex, MANUFACTURER_ID};
use crate::metrics::{gauge, Entry, Metrics, Series};
use crate::reading::{int_of_i16, opt_signed, signed_over, Divisor, RuuviData, Value};
use crate::registry::{
    admits, admitted, following, released, session_released, ActiveDevices,
};
use crate::ruuvi::{handle_manufacturer_data, with_decoded, with_gauge};
use std::collections::HashMap;
use vstd::prelude::*;

verus! {

/// A property of a device, as far as it matters here.
#[derive(Clone, Debug, PartialEq)]
pub enum DeviceProperty {
    /// Payloads by manufacturer identifier.
    ManufacturerData(HashMap<u16, Vec<u8>>),
    /// Received signal strength in dBm.
    Rssi(i16),
    AdvertisingFlags(Vec<u8>),
    /// Any other property.
    Other,
}

/// An event of a device.
#[derive(Clone, Debug, PartialEq)]
pub enum DeviceEvent {
    PropertyChanged(DeviceProperty),
}

/// What came of an event.
#[derive(Clone, Debug, PartialEq, Eq)]
pub enum Disposition {
    /// A payload of the beacons' manufacturer, as the text to hand to the
    /// decoder.
    Decode(String),
    /// Manufacturer data without a payload of the beacons' manufacturer.
    NoData,
    /// A signal strength, which was recorded.
    SignalStrength,
    /// Advertising flags, which are passed over.
    Flags,
    /// Something else, which is passed over too.
    Unknown,
}

/// A `Disposition` with its text as a sequence of characters.
pub enum Outcome {
    Decode(Seq<char>),
    NoData,
    SignalStrength,
    Flags,
    Unknown,
}

impl View for Disposition {
    type V = Outcome;

    open spec fn view(&self) -> Outcome {
        match *self {
            Disposition::Decode(hex) => Outcome::Decode(hex@),
            Disposition::NoData => Outcome::NoData,
            Disposition::SignalStrength => Outcome::SignalStrength,
            Disposition::Flags => Outcome::Flags,
            Disposition::Unknown => Outcome::Unknown,
        }
    }
}

/// What comes of a changed property. Manufacturer data is looked up under
/// the beacons' identifier alone: a payload found there is to be decoded,
/// and payloads of other manufacturers count for nothing.
pub open spec fn outcome_of(property: DeviceProperty) -> Outcome {
    match property {
        DeviceProperty::ManufacturerData(data) => if data@.contains_key(MANUFACTURER_ID) {
            Outcome::Decode(hex_text(data@[MANUFACTURER_ID]@))
        } else {
            Outcome::NoData
        },
        DeviceProperty::Rssi(_) => Outcome::SignalStrength,
        DeviceProperty::AdvertisingFlags(_) => Outcome::Flags,
        DeviceProperty::Other => Outcome::Unknown,
    }
}

/// `log` after a changed property: a signal strength sets its gauge, and
/// nothing else records anything.
pub open spec fn with_property<R>(
    log: Seq<Entry<R>>,
    device: Seq<char>,
    property: DeviceProperty,
) -> Seq<Entry<R>> {
    match property {
        DeviceProperty::Rssi(rssi) => log.push(
            gauge(Series::Rssi, device, signed_over(rssi as int, Divisor::One)),
        ),
        _ => log,
    }
}

/// Handles one event of the device `addr`.
pub fn handle_device_property<R: Copy>(
    metrics: &mut Metrics<R>,
    addr: &str,
    event: DeviceEvent,
) -> (disposition: Disposition)
    ensures
        disposition@ == outcome_of(event->PropertyChanged_0),
        final(metrics)@ == with_property(old(metrics)@, addr@, event->PropertyChanged_0),
{
    match event {
        DeviceEvent::PropertyChanged(DeviceProperty::ManufacturerData(data)) => {
            match data.get(&MANUFACTURER_ID) {
                Some(value) => Disposition::Decode(payload_hex(value.as_slice())),
                None => Disposition::NoData,
            }
        },
        DeviceEvent::PropertyChanged(DeviceProperty::Rssi(rssi)) => {
            metrics.set_signal_rssi(addr, Value::of_signed(rssi as i64, Divisor::One));
            Disposition::SignalStrength
        },
        DeviceEvent::PropertyChanged(DeviceProperty::AdvertisingFlags(_flags)) => {
            Disposition::Flags
        },
        DeviceEvent::PropertyChanged(DeviceProperty::Other) => Disposition::Unknown,
    }
}

/// `log` once what came of an event was followed up with what the decoder
/// made of the payload: that is recorded where a payload was to be
/// decoded, and nowhere else.
pub open spec fn with_followed<R: Copy>(
    log: Seq<Entry<R>>,
    device: Seq<char>,
    outcome: Outcome,
    decoded: Option<RuuviData<R>>,
    timestamp: u64,
) -> Seq<Entry<R>> {
    match outcome {
        Outcome::Decode(_) => with_decoded(log, device, decoded, timestamp),
        _ => log,
    }
}

/// Follows up on what came of an event of `addr`. Where a payload was to
/// be decoded, `decoded` is what the decoder made of it, `None` if it
/// could not decode it, and `timestamp` the time in seconds since the Unix
/// epoch: the payload is recorded. Where nothing was to be decoded,
/// nothing is recorded, whatever `decoded` holds.
pub fn follow<R: Copy>(
    metrics: &mut Metrics<R>,
    addr: &str,
    disposition: &Disposition,
    decoded: Option<RuuviData<R>>,
    timestamp: u64,
)
    ensures
        final(metrics)@ == with_followed(old(metrics)@, addr@, disposition@, decoded, timestamp),
{
    match disposition {
        Disposition::Decode(_) => handle_manufacturer_data(metrics, addr, decoded, timestamp),
        _ => {},
    }
}

/// Whether a property is manufacturer data.
pub open spec fn is_manufacturer_data(property: DeviceProperty) -> bool {
    property is ManufacturerData
}

/// The first manufacturer data among some properties, if there is any.
pub open spec fn first_manufacturer_data(properties: Seq<DeviceProperty>) -> Option<
    DeviceProperty,
>
    decreases properties.len(),
{
    if properties.len() == 0 {
        None
    } else if is_manufacturer_data(properties[0]) {
        Some(properties[0])
    } else {
        first_manufacturer_data(properties.drop_first())
    }
}

/// Handles the first manufacturer data among the properties that a device
/// has when it is found, and none of those after it. Says what came of it,
/// or `None` where the device has no manufacturer data.
pub fn seed_from_properties_iter<R: Copy>(
    properties: Vec<DeviceProperty>,
    metrics: &mut Metrics<R>,
    addr: &str,
) -> (disposition: Option<Disposition>)
    ensures
        final(metrics)@ == old(metrics)@,
        match first_manufacturer_data(properties@) {
            Some(property) => disposition is Some && disposition->0@ == outcome_of(property),
            None => disposition is None,
        },
{
    let mut remaining = properties;
    let ghost all = remaining@;
    let mut i: usize = 0;
    assert(all.skip(0) =~= all);
    while i < remaining.len()
        invariant
            i <= remaining.len(),
            all == properties@,
            remaining@.len() == all.len(),
            forall|j: int| i <= j < all.len() ==> remaining@[j] == all[j],
            first_manufacturer_data(all) == first_manufacturer_data(all.skip(i as int)),
            metrics@ == old(metrics)@,
        decreases remaining.len() - i,
    {
        assert(all.skip(i as int)[0] == all[i as int]);
        assert(all.skip(i as int).drop_first() =~= all.skip(i + 1));
        let mut property = DeviceProperty::Other;
        std::mem::swap(&mut remaining[i], &mut property);
        if let DeviceProperty::ManufacturerData(data) = property {
            let event = DeviceEvent::PropertyChanged(DeviceProperty::ManufacturerData(data));
            return Some(handle_device_property(metrics, addr, event));
        }
        i += 1;
    }
    None
}

/// Marks `addr` as active unless it is already, and says whether it did:
/// whether this is the first time that `addr` is seen since it was last
/// released.
pub fn mark_active(active_devices: &mut ActiveDevices, addr: &str) -> (first_seen: bool)
    ensures
        first_seen == admits(old(active_devices)@, addr@),
        final(active_devices)@ == admitted(
            old(active_devices)@,
            addr@,
            old(active_devices).next_session(),
        ),
        final(active_devices).next_session() == if first_seen {
            following(old(active_devices).next_session())
        } else {
            old(active_devices).next_session()
        },
{
    if !active_devices.try_admit(addr) {
        return false;
    }
    true
}

/// The adapter to use where one was asked for by name: the one that the
/// lookup by that name gave. `None` says that the default adapter is to be
/// looked up, which is when no name was given or the lookup failed.
pub fn choose_adapter<A, E>(preferred: Option<Result<A, E>>) -> (adapter: Option<A>)
    ensures
        adapter == match preferred {
            Some(Ok(found)) => Some(found),
            _ => None,
        },
{
    if let Some(lookup) = preferred {
        if let Ok(found) = lookup {
            return Some(found);
        }
    }
    None
}

/// Where an event processor stands.
#[derive(Clone, Copy, Debug, PartialEq, Eq, Structural)]
pub enum ProcessorState {
    /// It handles the events of its device.
    Running,
    /// Its stream of events has ended; its device is still marked active.
    Draining,
    /// Its device was released. Nothing follows.
    Terminated,
}

/// The life of one session: its device is marked active while its events
/// are handled, and released when they end.
pub struct EventProcessor {
    addr: String,
    session: u64,
    state: ProcessorState,
}

impl EventProcessor {
    /// The identifier of the device.
    pub closed spec fn addr_spec(&self) -> Seq<char> {
        self.addr@
    }

    /// The number of the session.
    pub closed spec fn session_spec(&self) -> u64 {
        self.session
    }

    /// Where the processor stands.
    pub closed spec fn state_spec(&self) -> ProcessorState {
        self.state
    }

    /// A processor for the session `session` of the device `addr`, running.
    pub fn new(addr: &str, session: u64) -> (processor: Self)
        ensures
            processor.addr_spec() == addr@,
            processor.session_spec() == session,
            processor.state_spec() == ProcessorState::Running,
    {
        EventProcessor { addr: addr.to_owned(), session, state: ProcessorState::Running }
    }

    pub fn addr(&self) -> (addr: &str)
        ensures
            addr@ == self.addr_spec(),
    {
        self.addr.as_str()
    }

    pub fn session(&self) -> (session: u64)
        ensures
            session == self.session_spec(),
    {
        self.session
    }

    pub fn state(&self) -> (state: ProcessorState)
        ensures
            state == self.state_spec(),
    {
        self.state
    }

    /// Handles one event of the device while the processor runs. Once the
    /// stream has ended an event is passed over: `None`. Whatever the
    /// event, the processor stands afterwards where it stood before: no
    /// event stops it.
    pub fn handle_event<R: Copy>(
        &mut self,
        metrics: &mut Metrics<R>,
        event: DeviceEvent,
    ) -> (disposition: Option<Disposition>)
        ensures
            final(self).addr_spec() == old(self).addr_spec(),
            final(self).session_spec() == old(self).session_spec(),
            final(self).state_spec() == old(self).state_spec(),
            match old(self).state_spec() {
                ProcessorState::Running => disposition is Some && disposition->0@ == outcome_of(
                    event->PropertyChanged_0,
                ) && final(metrics)@ == with_property(
                    old(metrics)@,
                    old(self).addr_spec(),
                    event->PropertyChanged_0,
                ),
                _ => disposition is None && final(metrics)@ == old(metrics)@,
            },
    {
        match self.state {
            ProcessorState::Running => Some(
                handle_device_property(metrics, self.addr.as_str(), event),
            ),
            _ => None,
        }
    }

    /// The stream of events has ended, or could not be read further: a
    /// running processor starts draining.
    pub fn stream_ended(&mut self)
        ensures
            final(self).addr_spec() == old(self).addr_spec(),
            final(self).session_spec() == old(self).session_spec(),
            final(self).state_spec() == after_stream_end(old(self).state_spec()),
    {
        match self.state {
            ProcessorState::Running => {
                self.state = ProcessorState::Draining;
            },
            _ => {},
        }
    }

    /// Ends the processor: its session is released, unless the processor
    /// has ended before. This is the way out for a processor whose stream
    /// has ended and for one that could not subscribe to its device.
    ///
    /// Only the processor's own session is released. Where the device was
    /// lost and found again while this processor was still running, the
    /// session started since stays as it is.
    pub fn terminate(&mut self, active_devices: &mut ActiveDevices)
        ensures
            final(self).addr_spec() == old(self).addr_spec(),
            final(self).session_spec() == old(self).session_spec(),
            final(self).state_spec() == ProcessorState::Terminated,
            final(active_devices)@ == after_termination(
                old(active_devices)@,
                old(self).addr_spec(),
                old(self).session_spec(),
                old(self).state_spec(),
            ),
            final(active_devices).next_session() == old(active_devices).next_session(),
    {
        match self.state {
            ProcessorState::Terminated => {},
            _ => {
                active_devices.release_session(self.addr.as_str(), self.session);
                self.state = ProcessorState::Terminated;
            },
        }
    }
}

/// Where a processor stands once its stream has ended.
pub open spec fn after_stream_end(state: ProcessorState) -> ProcessorState {
    match state {
        ProcessorState::Running => ProcessorState::Draining,
        other => other,
    }
}

/// The active devices once the processor of the session `session` of
/// `addr` has ended: that session is released, unless the processor had
/// ended before.
pub open spec fn after_termination(
    active: Map<Seq<char>, u64>,
    addr: Seq<char>,
    session: u64,
    state: ProcessorState,
) -> Map<Seq<char>, u64> {
    match state {
        ProcessorState::Terminated => active,
        _ => session_released(active, addr, session),
    }
}

/// A device was found, with the signal strength that came with it if one
/// did. The signal strength is recorded whether or not the device is
/// active already. Where the device is new, it is marked active and a
/// processor for it is handed out; where it is active already, nothing
/// more is done.
pub fn device_found<R: Copy>(
    active_devices: &mut ActiveDevices,
    metrics: &mut Metrics<R>,
    address: &[u8; 6],
    rssi: Option<i16>,
) -> (processor: Option<EventProcessor>)
    ensures
        final(metrics)@ == with_gauge(
            old(metrics)@,
            Series::Rssi,
            address_text(address@),
            opt_signed(int_of_i16(rssi), Divisor::One),
        ),
        final(active_devices)@ == admitted(
            old(active_devices)@,
            address_text(address@),
            old(active_devices).next_session(),
        ),
        processor is Some <==> admits(old(active_devices)@, address_text(address@)),
        processor is Some ==> {
            &&& processor->0.addr_spec() == address_text(address@)
            &&& processor->0.session_spec() == old(active_devices).next_session()
            &&& processor->0.state_spec() == ProcessorState::Running
            &&& final(active_devices).next_session() == following(
                old(active_devices).next_session(),
            )
        },
        processor is None ==> final(active_devices).next_session() == old(
            active_devices,
        ).next_session(),
{
    let addr = format_device_address(address);
    if let Some(rssi) = rssi {
        metrics.set_signal_rssi(addr.as_str(), Value::of_signed(rssi as i64, Divisor::One));
    }
    match active_devices.start_session(addr.as_str()) {
        Some(session) => Some(EventProcessor::new(addr.as_str(), session)),
        None => None,
    }
}

/// A device was lost: it is released at once, whatever its session, so
/// that it is admitted again when it is next found.
pub fn device_lost(active_devices: &mut ActiveDevices, address: &[u8; 6])
    ensures
        final(active_devices)@ == released(old(active_devices)@, address_text(address@)),
        final(active_devices).next_session() == old(active_devices).next_session(),
{
    let addr = format_device_address(address);
    active_devices.release(addr.as_str());
}

/// Manufacturer data without a payload under the beacons' identifier
/// records nothing and asks for nothing to be decoded, whatever other
/// manufacturers' payloads it holds; and following up on it records
/// nothing either, whatever a decoder would make of those.
pub proof fn law_foreign_manufacturer_data_records_nothing<R: Copy>(
    log: Seq<Entry<R>>,
    device: Seq<char>,
    data: HashMap<u16, Vec<u8>>,
    decoded: Option<RuuviData<R>>,
    timestamp: u64,
)
    requires
        !data@.contains_key(MANUFACTURER_ID),
    ensures
        outcome_of(DeviceProperty::ManufacturerData(data)) == Outcome::NoData,
        with_property(log, device, DeviceProperty::ManufacturerData(data)) == log,
        with_followed(
            with_property(log, device, DeviceProperty::ManufacturerData(data)),
            device,
            outcome_of(DeviceProperty::ManufacturerData(data)),
            decoded,
            timestamp,
        ) == log,
{
}

/// Only a signal strength is recorded when a property changes: manufacturer
/// data, advertising flags and everything else leave the log as it was.
pub proof fn law_only_signal_strength_is_recorded<R>(
    log: Seq<Entry<R>>,
    device: Seq<char>,
    property: DeviceProperty,
)
    requires
        !(property is Rssi),
    ensures
        with_property(log, device, property) == log,
{
}

/// Advertising flags record nothing and ask for nothing, and following up
/// on them records nothing.
pub proof fn law_flags_are_passed_over<R: Copy>(
    log: Seq<Entry<R>>,
    device: Seq<char>,
    flags: Vec<u8>,
    decoded: Option<RuuviData<R>>,
    timestamp: u64,
)
    ensures
        outcome_of(DeviceProperty::AdvertisingFlags(flags)) == Outcome::Flags,
        with_property(log, device, DeviceProperty::AdvertisingFlags(flags)) == log,
        with_followed(
            with_property(log, device, DeviceProperty::AdvertisingFlags(flags)),
            device,
            outcome_of(DeviceProperty::AdvertisingFlags(flags)),
            decoded,
            timestamp,
        ) == log,
{
}

/// A payload of the beacons' manufacturer that the decoder cannot decode
/// leaves the log, and with it every frame counter, as it was.
pub proof fn law_undecodable_payload_records_nothing<R: Copy>(
    log: Seq<Entry<R>>,
    device: Seq<char>,
    data: HashMap<u16, Vec<u8>>,
    timestamp: u64,
)
    ensures
        with_followed(
            with_property(log, device, DeviceProperty::ManufacturerData(data)),
            device,
            outcome_of(DeviceProperty::ManufacturerData(data)),
            None::<RuuviData<R>>,
            timestamp,
        ) == log,
{
}

/// A processor that ends leaves its session released, and a processor that
/// has ended releases nothing more: ending it a second time changes nothing.
pub proof fn law_no_session_leaks(
    active: Map<Seq<char>, u64>,
    addr: Seq<char>,
    session: u64,
    state: ProcessorState,
)
    ensures
        state != ProcessorState::Terminated && active.contains_key(addr) && active[addr] == session
            ==> !after_termination(active, addr, session, state).contains_key(addr),
        after_termination(
            after_termination(active, addr, session, state),
            addr,
            session,
            ProcessorState::Terminated,
        ) == after_termination(active, addr, session, state),
{
}

/// A device that is lost and found again gets a session of its own, which
/// the end of the processor of the earlier session leaves active.
pub proof fn law_lost_and_found_again(
    active: Map<Seq<char>, u64>,
    addr: Seq<char>,
    older: u64,
    newer: u64,
    state: ProcessorState,
)
    requires
        older != newer,
    ensures
        after_termination(admitted(released(active, addr), addr, newer), addr, older, state)
            == admitted(released(active, addr), addr, newer),
        after_termination(
            admitted(released(active, addr), addr, newer),
            addr,
            older,
            state,
        ).contains_key(addr),
{
}

} // verus!
