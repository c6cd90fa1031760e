//! The machines, driven against a registry that is made up for the purpose
//! and that keeps count of what it has handed out.

use trackpad_haptics::actuation::{
    actuate, click, strong_click, weak_click, Actuation, ActuationError,
};
use trackpad_haptics::discovery::{find_trackpad_device, Kit, Scan};
use trackpad_haptics::intensity::Intensity;
use trackpad_haptics::machine::{expects, Machine};
use trackpad_haptics::platform::{Call, Name, Platform, Reply, Resource, Step};
use trackpad_haptics::support::is_supported;

const BOOLEAN_TYPE: u64 = 21;
const NUMBER_TYPE: u64 = 22;
const STRING_TYPE: u64 = 7;

#[derive(Clone, Copy, Debug, PartialEq)]
enum Capability {
    Absent,
    Text,
    Boolean(bool),
}

#[derive(Clone, Copy, Debug, PartialEq)]
enum Identifier {
    Absent,
    Text,
    Number(i64),
}

#[derive(Clone, Copy, Debug, PartialEq)]
struct Device {
    capability: Capability,
    identifier: Identifier,
}

fn device(capability: Capability, identifier: Identifier) -> Device {
    Device { capability, identifier }
}

#[derive(Clone, Copy, Debug, PartialEq)]
enum Value {
    Key(Name),
    Boolean(bool),
    Number(i64),
    Text,
}

#[derive(Clone, Debug, PartialEq)]
struct Strike {
    device: u64,
    pattern: i32,
    reserved: u32,
    reserved_level: u32,
    intensity: u32,
}

/// A platform for the tests. It hands out handles, fresh ones or, on demand,
/// those that were given back; it remembers which are alive, and panics when
/// one is released that is not.
struct Host {
    devices: Vec<Device>,
    query_is_null: bool,
    listing_status: i32,
    actuator_is_null: bool,
    open_status: i32,
    strike_status: i32,
    reuse_handles: bool,
    cursor: usize,
    next: usize,
    free: Vec<usize>,
    alive: Vec<Resource>,
    values: Vec<(usize, Value)>,
    services: Vec<(u32, usize)>,
    actuators: Vec<(usize, u64)>,
    calls: Vec<Call>,
    strikes: Vec<Strike>,
    acquisitions: usize,
    releases: usize,
}

impl Host {
    fn with(devices: Vec<Device>) -> Host {
        Host {
            devices,
            query_is_null: false,
            listing_status: 0,
            actuator_is_null: false,
            open_status: 0,
            strike_status: 0,
            reuse_handles: false,
            cursor: 0,
            next: 100,
            free: Vec::new(),
            alive: Vec::new(),
            values: Vec::new(),
            services: Vec::new(),
            actuators: Vec::new(),
            calls: Vec::new(),
            strikes: Vec::new(),
            acquisitions: 0,
            releases: 0,
        }
    }

    fn fresh(&mut self) -> usize {
        if self.reuse_handles {
            if let Some(handle) = self.free.pop() {
                return handle;
            }
        }
        self.next += 1;
        self.next
    }

    fn acquire(&mut self, resource: Resource) {
        self.alive.push(resource);
        self.acquisitions += 1;
    }

    fn release(&mut self, resource: Resource) {
        match self.alive.iter().position(|held| *held == resource) {
            Some(at) => {
                self.alive.remove(at);
                self.releases += 1;
                self.free.push(match resource {
                    Resource::Query(handle) => handle,
                    Resource::Object(handle) => handle as usize,
                    Resource::Value(handle) => handle,
                    Resource::Actuator(handle) => handle,
                });
            }
            None => panic!("released what is not alive: {:?}", resource),
        }
    }

    fn is_alive(&self, resource: Resource) -> bool {
        self.alive.contains(&resource)
    }

    fn value(&self, pointer: usize) -> Value {
        assert!(self.is_alive(Resource::Value(pointer)));
        self.values.iter().rev().find(|(at, _)| *at == pointer).unwrap().1
    }

    fn property(&mut self, value: Option<Value>) -> Reply {
        match value {
            None => Reply::Pointer(0),
            Some(value) => {
                let pointer = self.fresh();
                self.values.push((pointer, value));
                self.acquire(Resource::Value(pointer));
                Reply::Pointer(pointer)
            }
        }
    }

    fn perform(&mut self, call: &Call) -> Reply {
        self.calls.push(*call);
        match *call {
            Call::ServiceMatching { name } => {
                assert_eq!(name.text(), "AppleMultitouchDevice");
                if self.query_is_null {
                    Reply::Pointer(0)
                } else {
                    let query = self.fresh();
                    self.acquire(Resource::Query(query));
                    Reply::Pointer(query)
                }
            }
            Call::GetMatchingServices { main_port, matching } => {
                assert_eq!(main_port, 0);
                self.release(Resource::Query(matching));
                if self.listing_status != 0 {
                    Reply::Matched { status: self.listing_status, iterator: 0 }
                } else {
                    let iterator = self.fresh() as u32;
                    self.cursor = 0;
                    self.acquire(Resource::Object(iterator));
                    Reply::Matched { status: 0, iterator }
                }
            }
            Call::StringCreate { text, encoding } => {
                assert_eq!(encoding, 0x0800_0100);
                let key = self.fresh();
                self.values.push((key, Value::Key(text)));
                self.acquire(Resource::Value(key));
                Reply::Pointer(key)
            }
            Call::IteratorNext { iterator } => {
                assert!(self.is_alive(Resource::Object(iterator)));
                if self.cursor < self.devices.len() {
                    let service = self.fresh() as u32;
                    self.services.push((service, self.cursor));
                    self.cursor += 1;
                    self.acquire(Resource::Object(service));
                    Reply::Object(service)
                } else {
                    Reply::Object(0)
                }
            }
            Call::CreateProperty { entry, key, options } => {
                assert_eq!(options, 0);
                assert!(self.is_alive(Resource::Object(entry)));
                let index = self.services.iter().rev().find(|(at, _)| *at == entry).unwrap().1;
                let device = self.devices[index];
                let value = match self.value(key) {
                    Value::Key(Name::CapabilityKey) => match device.capability {
                        Capability::Absent => None,
                        Capability::Text => Some(Value::Text),
                        Capability::Boolean(flag) => Some(Value::Boolean(flag)),
                    },
                    Value::Key(Name::IdentifierKey) => match device.identifier {
                        Identifier::Absent => None,
                        Identifier::Text => Some(Value::Text),
                        Identifier::Number(number) => Some(Value::Number(number)),
                    },
                    other => panic!("not a property key: {:?}", other),
                };
                self.property(value)
            }
            Call::GetTypeId { value } => Reply::TypeId(match self.value(value) {
                Value::Boolean(_) => BOOLEAN_TYPE,
                Value::Number(_) => NUMBER_TYPE,
                _ => STRING_TYPE,
            }),
            Call::BooleanTypeId => Reply::TypeId(BOOLEAN_TYPE),
            Call::BooleanGetValue { boolean } => match self.value(boolean) {
                Value::Boolean(flag) => Reply::Flag(flag),
                other => panic!("asked for the truth of {:?}", other),
            },
            Call::NumberGetValue { number, number_type } => {
                assert_eq!(number_type, 4);
                match self.value(number) {
                    Value::Number(value) => Reply::Number { converted: true, value },
                    _ => Reply::Number { converted: false, value: 0 },
                }
            }
            Call::Release { value } => {
                self.release(Resource::Value(value));
                Reply::Returned
            }
            Call::ObjectRelease { object } => {
                self.release(Resource::Object(object));
                Reply::Status(0)
            }
            Call::ActuatorCreate { device } => {
                if self.actuator_is_null {
                    Reply::Pointer(0)
                } else {
                    let actuator = self.fresh();
                    self.actuators.push((actuator, device));
                    self.acquire(Resource::Actuator(actuator));
                    Reply::Pointer(actuator)
                }
            }
            Call::ActuatorOpen { actuator } => {
                assert!(self.is_alive(Resource::Actuator(actuator)));
                Reply::Status(self.open_status)
            }
            Call::ActuatorActuate { actuator, pattern, reserved, reserved_level, intensity } => {
                assert!(self.is_alive(Resource::Actuator(actuator)));
                let device = self.actuators.iter().rev().find(|(at, _)| *at == actuator).unwrap().1;
                self.strikes.push(Strike {
                    device,
                    pattern,
                    reserved,
                    reserved_level: reserved_level.to_bits(),
                    intensity: intensity.to_bits(),
                });
                Reply::Status(self.strike_status)
            }
            Call::ActuatorClose { actuator } => {
                self.release(Resource::Actuator(actuator));
                Reply::Status(0)
            }
        }
    }

    fn count(&self, wanted: fn(&Call) -> bool) -> usize {
        self.calls.iter().filter(|call| wanted(call)).count()
    }

    fn settled(&self) -> bool {
        self.alive.is_empty() && self.acquisitions == self.releases
    }
}

fn drive<M: Machine>(mut machine: M, host: &mut Host) -> M::Outcome {
    loop {
        match machine.step() {
            Step::Perform(call) => {
                let reply = host.perform(&call);
                assert!(expects(&machine, &reply));
                machine.resume(reply);
            }
            Step::Finish(outcome) => return outcome,
        }
    }
}

fn capable(identifier: i64) -> Device {
    device(Capability::Boolean(true), Identifier::Number(identifier))
}

fn is_open(call: &Call) -> bool {
    matches!(call, Call::ActuatorOpen { .. })
}

fn is_close(call: &Call) -> bool {
    matches!(call, Call::ActuatorClose { .. })
}

fn is_strike(call: &Call) -> bool {
    matches!(call, Call::ActuatorActuate { .. })
}

fn is_create(call: &Call) -> bool {
    matches!(call, Call::ActuatorCreate { .. })
}

fn is_pull(call: &Call) -> bool {
    matches!(call, Call::IteratorNext { .. })
}

fn is_identifier_value(call: &Call) -> bool {
    matches!(call, Call::NumberGetValue { .. })
}

#[test]
fn empty_registry_finds_nothing() {
    let mut host = Host::with(vec![]);
    assert_eq!(drive(find_trackpad_device(Platform::Capable), &mut host), None);
    assert!(host.settled());
    assert_eq!(
        host.calls,
        vec![
            Call::ServiceMatching { name: Name::DeviceClass },
            Call::GetMatchingServices { main_port: 0, matching: 101 },
            Call::StringCreate { text: Name::IdentifierKey, encoding: 0x0800_0100 },
            Call::StringCreate { text: Name::CapabilityKey, encoding: 0x0800_0100 },
            Call::IteratorNext { iterator: 102 },
            Call::Release { value: 103 },
            Call::Release { value: 104 },
            Call::ObjectRelease { object: 102 },
        ]
    );
}

#[test]
fn empty_registry_is_not_supported() {
    let mut host = Host::with(vec![]);
    assert_eq!(drive(is_supported(Platform::Capable), &mut host), false);
    assert!(host.settled());
}

#[test]
fn empty_registry_fails_actuation_with_no_device_found() {
    let mut host = Host::with(vec![]);
    let outcome = drive(actuate(Platform::Capable, 6, Intensity::from_bits(1.0f32.to_bits())), &mut host);
    assert_eq!(outcome, Err(ActuationError::NoDeviceFound));
    assert!(host.settled());
    assert_eq!(host.count(is_create), 0);
    assert_eq!(host.count(is_open), 0);
    assert_eq!(host.count(is_close), 0);
}

#[test]
fn single_capable_device_is_found() {
    let mut host = Host::with(vec![capable(42)]);
    assert_eq!(drive(find_trackpad_device(Platform::Capable), &mut host), Some(42));
    assert!(host.settled());
    assert_eq!(
        host.calls,
        vec![
            Call::ServiceMatching { name: Name::DeviceClass },
            Call::GetMatchingServices { main_port: 0, matching: 101 },
            Call::StringCreate { text: Name::IdentifierKey, encoding: 0x0800_0100 },
            Call::StringCreate { text: Name::CapabilityKey, encoding: 0x0800_0100 },
            Call::IteratorNext { iterator: 102 },
            Call::CreateProperty { entry: 105, key: 104, options: 0 },
            Call::GetTypeId { value: 106 },
            Call::BooleanTypeId,
            Call::BooleanGetValue { boolean: 106 },
            Call::Release { value: 106 },
            Call::CreateProperty { entry: 105, key: 103, options: 0 },
            Call::NumberGetValue { number: 107, number_type: 4 },
            Call::Release { value: 107 },
            Call::ObjectRelease { object: 105 },
            Call::Release { value: 103 },
            Call::Release { value: 104 },
            Call::ObjectRelease { object: 102 },
        ]
    );
}

#[test]
fn single_capable_device_is_supported() {
    let mut host = Host::with(vec![capable(42)]);
    assert_eq!(drive(is_supported(Platform::Capable), &mut host), true);
    assert!(host.settled());
}

#[test]
fn click_strikes_the_found_device_with_pattern_six_at_full_intensity() {
    let mut host = Host::with(vec![capable(42)]);
    assert_eq!(drive(click(Platform::Capable), &mut host), Ok(()));
    assert!(host.settled());
    assert_eq!(
        host.strikes,
        vec![Strike {
            device: 42,
            pattern: 6,
            reserved: 0,
            reserved_level: 0.0f32.to_bits(),
            intensity: 1.0f32.to_bits(),
        }]
    );
    assert_eq!(host.count(is_create), 1);
    assert_eq!(host.count(is_open), 1);
    assert_eq!(host.count(is_close), 1);
    let tail = &host.calls[host.calls.len() - 4..];
    assert!(is_create(&tail[0]) && is_open(&tail[1]) && is_strike(&tail[2]) && is_close(&tail[3]));
}

#[test]
fn weak_click_strikes_with_pattern_one_at_half_intensity() {
    let mut host = Host::with(vec![capable(42)]);
    assert_eq!(drive(weak_click(Platform::Capable), &mut host), Ok(()));
    assert!(host.settled());
    assert_eq!(host.strikes.len(), 1);
    assert_eq!(host.strikes[0].pattern, 1);
    assert_eq!(f32::from_bits(host.strikes[0].intensity), 0.5);
    assert_eq!(host.strikes[0].reserved, 0);
}

#[test]
fn strong_click_strikes_with_pattern_fifteen_at_full_intensity() {
    let mut host = Host::with(vec![capable(42)]);
    assert_eq!(drive(strong_click(Platform::Capable), &mut host), Ok(()));
    assert!(host.settled());
    assert_eq!(host.strikes.len(), 1);
    assert_eq!(host.strikes[0].pattern, 15);
    assert_eq!(f32::from_bits(host.strikes[0].intensity), 1.0);
}

#[test]
fn click_is_actuate_six_at_full_intensity() {
    for platform in [Platform::Capable, Platform::Unsupported] {
        assert_eq!(click(platform), actuate(platform, 6, Intensity::from_bits(1.0f32.to_bits())));
        assert_eq!(weak_click(platform), actuate(platform, 1, Intensity::from_bits(0.5f32.to_bits())));
        assert_eq!(
            strong_click(platform),
            actuate(platform, 15, Intensity::from_bits(1.0f32.to_bits()))
        );
    }
}

#[test]
fn incapable_device_is_skipped_for_the_capable_one() {
    let mut host = Host::with(vec![
        device(Capability::Boolean(false), Identifier::Number(5)),
        capable(99),
    ]);
    assert_eq!(drive(find_trackpad_device(Platform::Capable), &mut host), Some(99));
    assert!(host.settled());
    assert_eq!(host.count(is_pull), 2);
    assert_eq!(host.count(is_identifier_value), 1);
}

#[test]
fn first_capable_device_wins() {
    let mut host = Host::with(vec![capable(7), capable(8)]);
    assert_eq!(drive(find_trackpad_device(Platform::Capable), &mut host), Some(7));
    assert!(host.settled());
    assert_eq!(host.cursor, 1);
    assert_eq!(host.count(is_pull), 1);
}

#[test]
fn null_actuator_fails_creation_without_open_or_close() {
    let mut host = Host::with(vec![capable(42)]);
    host.actuator_is_null = true;
    let outcome = drive(actuate(Platform::Capable, 6, Intensity::full()), &mut host);
    assert_eq!(outcome, Err(ActuationError::ActuatorCreationFailed));
    assert!(host.settled());
    assert_eq!(host.calls.last(), Some(&Call::ActuatorCreate { device: 42 }));
    assert_eq!(host.count(is_open), 0);
    assert_eq!(host.count(is_strike), 0);
    assert_eq!(host.count(is_close), 0);
}

#[test]
fn actuator_that_does_not_open_is_closed_and_reported() {
    let mut host = Host::with(vec![capable(42)]);
    host.open_status = -536870174;
    let outcome = drive(actuate(Platform::Capable, 6, Intensity::full()), &mut host);
    assert_eq!(outcome, Err(ActuationError::ActuatorOpenFailed));
    assert!(host.settled());
    assert_eq!(host.count(is_open), 1);
    assert_eq!(host.count(is_strike), 0);
    assert_eq!(host.count(is_close), 1);
    assert!(host.strikes.is_empty());
}

#[test]
fn failed_strike_is_not_reported() {
    let mut host = Host::with(vec![capable(42)]);
    host.strike_status = -1;
    let outcome = drive(actuate(Platform::Capable, 6, Intensity::full()), &mut host);
    assert_eq!(outcome, Ok(()));
    assert!(host.settled());
    assert_eq!(host.count(is_close), 1);
}

#[test]
fn pattern_and_intensity_pass_through_unvalidated() {
    for (pattern, level) in [(i32::MIN, 2.5f32), (-1, -3.0f32), (i32::MAX, f32::INFINITY), (0, 0.0f32)] {
        let mut host = Host::with(vec![capable(1)]);
        let outcome = drive(
            actuate(Platform::Capable, pattern, Intensity::from_bits(level.to_bits())),
            &mut host,
        );
        assert_eq!(outcome, Ok(()));
        assert_eq!(host.strikes.len(), 1);
        assert_eq!(host.strikes[0].pattern, pattern);
        assert_eq!(host.strikes[0].intensity, level.to_bits());
        assert_eq!(host.strikes[0].reserved, 0);
        assert_eq!(host.strikes[0].reserved_level, 0);
    }
    let mut host = Host::with(vec![capable(1)]);
    let nan = f32::NAN.to_bits();
    assert_eq!(drive(actuate(Platform::Capable, 3, Intensity::from_bits(nan)), &mut host), Ok(()));
    assert_eq!(host.strikes[0].intensity, nan);
}

#[test]
fn null_query_ends_the_scan_at_once() {
    let mut host = Host::with(vec![capable(42)]);
    host.query_is_null = true;
    assert_eq!(drive(find_trackpad_device(Platform::Capable), &mut host), None);
    assert!(host.settled());
    assert_eq!(host.calls, vec![Call::ServiceMatching { name: Name::DeviceClass }]);
}

#[test]
fn failed_listing_ends_the_scan_without_iteration() {
    let mut host = Host::with(vec![capable(42)]);
    host.listing_status = 5;
    assert_eq!(drive(find_trackpad_device(Platform::Capable), &mut host), None);
    assert!(host.settled());
    assert_eq!(host.calls.len(), 2);
    assert_eq!(host.count(is_pull), 0);
    let mut host = Host::with(vec![capable(42)]);
    host.listing_status = 5;
    assert_eq!(
        drive(actuate(Platform::Capable, 6, Intensity::full()), &mut host),
        Err(ActuationError::NoDeviceFound)
    );
    assert!(host.settled());
}

#[test]
fn absent_capability_releases_everything() {
    let mut host = Host::with(vec![device(Capability::Absent, Identifier::Number(3))]);
    assert_eq!(drive(find_trackpad_device(Platform::Capable), &mut host), None);
    assert!(host.settled());
    assert_eq!(host.acquisitions, 5);
    assert_eq!(host.releases, 5);
    assert_eq!(host.count(is_identifier_value), 0);
}

#[test]
fn capability_of_another_type_releases_everything() {
    let mut host = Host::with(vec![device(Capability::Text, Identifier::Number(3))]);
    assert_eq!(drive(find_trackpad_device(Platform::Capable), &mut host), None);
    assert!(host.settled());
    assert_eq!(host.acquisitions, 6);
    assert_eq!(host.releases, 6);
    assert_eq!(host.count(|call| matches!(call, Call::BooleanGetValue { .. })), 0);
    assert_eq!(host.count(is_identifier_value), 0);
}

#[test]
fn false_capability_releases_everything() {
    let mut host = Host::with(vec![device(Capability::Boolean(false), Identifier::Number(3))]);
    assert_eq!(drive(find_trackpad_device(Platform::Capable), &mut host), None);
    assert!(host.settled());
    assert_eq!(host.acquisitions, 6);
    assert_eq!(host.releases, 6);
    assert_eq!(host.count(is_identifier_value), 0);
}

#[test]
fn identifier_that_does_not_convert_releases_everything() {
    let mut host = Host::with(vec![device(Capability::Boolean(true), Identifier::Text)]);
    assert_eq!(drive(find_trackpad_device(Platform::Capable), &mut host), None);
    assert!(host.settled());
    assert_eq!(host.acquisitions, 7);
    assert_eq!(host.releases, 7);
    assert_eq!(host.count(is_identifier_value), 1);
}

#[test]
fn absent_identifier_releases_everything() {
    let mut host = Host::with(vec![device(Capability::Boolean(true), Identifier::Absent)]);
    assert_eq!(drive(find_trackpad_device(Platform::Capable), &mut host), None);
    assert!(host.settled());
    assert_eq!(host.acquisitions, 6);
    assert_eq!(host.releases, 6);
    assert_eq!(host.count(is_identifier_value), 0);
}

#[test]
fn capable_device_without_identifier_is_passed_over() {
    let mut host = Host::with(vec![
        device(Capability::Boolean(true), Identifier::Text),
        device(Capability::Boolean(true), Identifier::Absent),
        capable(55),
        capable(56),
    ]);
    assert_eq!(drive(find_trackpad_device(Platform::Capable), &mut host), Some(55));
    assert!(host.settled());
    assert_eq!(host.cursor, 3);
}

#[test]
fn no_incapable_device_is_ever_returned() {
    let mut host = Host::with(vec![
        device(Capability::Absent, Identifier::Number(1)),
        device(Capability::Text, Identifier::Number(2)),
        device(Capability::Boolean(false), Identifier::Number(3)),
    ]);
    assert_eq!(drive(find_trackpad_device(Platform::Capable), &mut host), None);
    assert!(host.settled());
    assert_eq!(host.cursor, 3);
    let mut host = Host::with(vec![
        device(Capability::Absent, Identifier::Number(1)),
        device(Capability::Text, Identifier::Number(2)),
        device(Capability::Boolean(false), Identifier::Number(3)),
    ]);
    assert_eq!(drive(is_supported(Platform::Capable), &mut host), false);
    assert!(host.settled());
}

#[test]
fn negative_identifier_keeps_its_bits() {
    let mut host = Host::with(vec![capable(-1)]);
    assert_eq!(drive(find_trackpad_device(Platform::Capable), &mut host), Some(u64::MAX));
    let mut host = Host::with(vec![capable(i64::MIN)]);
    assert_eq!(drive(find_trackpad_device(Platform::Capable), &mut host), Some(1u64 << 63));
    let mut host = Host::with(vec![capable(-2)]);
    assert_eq!(drive(click(Platform::Capable), &mut host), Ok(()));
    assert_eq!(host.strikes[0].device, u64::MAX - 1);
}

#[test]
fn handles_that_coincide_are_each_released() {
    let mut host = Host::with(vec![
        device(Capability::Boolean(false), Identifier::Absent),
        capable(42),
    ]);
    host.reuse_handles = true;
    assert_eq!(drive(click(Platform::Capable), &mut host), Ok(()));
    assert!(host.settled());
    assert_eq!(host.strikes.len(), 1);
    assert_eq!(host.strikes[0].device, 42);
    assert!(host.next < 106);
}

#[test]
fn asking_again_gives_the_same_answer() {
    for devices in [vec![], vec![capable(42)], vec![device(Capability::Text, Identifier::Absent)]] {
        let mut first = Host::with(devices.clone());
        let mut second = Host::with(devices.clone());
        let once = drive(is_supported(Platform::Capable), &mut first);
        let twice = drive(is_supported(Platform::Capable), &mut second);
        assert_eq!(once, twice);
        assert_eq!(first.calls, second.calls);
        assert_eq!(drive(is_supported(Platform::Capable), &mut first), once);
    }
}

#[test]
fn each_operation_discovers_afresh() {
    let mut host = Host::with(vec![capable(42)]);
    assert_eq!(drive(click(Platform::Capable), &mut host), Ok(()));
    host.devices = vec![];
    assert_eq!(
        drive(click(Platform::Capable), &mut host),
        Err(ActuationError::NoDeviceFound)
    );
    host.devices = vec![capable(43)];
    assert_eq!(drive(click(Platform::Capable), &mut host), Ok(()));
    assert_eq!(host.strikes.last().unwrap().device, 43);
    assert!(host.settled());
}

#[test]
fn unsupported_platform_refuses_actuation_without_a_call() {
    let actuation = actuate(Platform::Unsupported, 6, Intensity::full());
    assert_eq!(actuation.step(), Step::Finish(Err(ActuationError::UnsupportedPlatform)));
    let mut host = Host::with(vec![capable(42)]);
    assert_eq!(drive(actuation, &mut host), Err(ActuationError::UnsupportedPlatform));
    assert_eq!(drive(click(Platform::Unsupported), &mut host), Err(ActuationError::UnsupportedPlatform));
    assert_eq!(
        drive(weak_click(Platform::Unsupported), &mut host),
        Err(ActuationError::UnsupportedPlatform)
    );
    assert_eq!(
        drive(strong_click(Platform::Unsupported), &mut host),
        Err(ActuationError::UnsupportedPlatform)
    );
    assert!(host.calls.is_empty());
}

#[test]
fn unsupported_platform_is_not_supported_without_a_call() {
    let query = is_supported(Platform::Unsupported);
    assert_eq!(query.step(), Step::Finish(false));
    let mut host = Host::with(vec![capable(42)]);
    assert_eq!(drive(query, &mut host), false);
    assert!(host.calls.is_empty());
}

#[test]
fn unsupported_platform_finds_nothing_without_a_call() {
    let scan = find_trackpad_device(Platform::Unsupported);
    assert_eq!(scan.step(), Step::Finish(None));
    let mut host = Host::with(vec![capable(42)]);
    assert_eq!(drive(scan, &mut host), None);
    assert!(host.calls.is_empty());
}

#[test]
fn stray_reply_is_set_aside() {
    let mut scan = find_trackpad_device(Platform::Capable);
    let before = scan;
    assert!(!expects(&scan, &Reply::Status(0)));
    assert_eq!(scan.resume(Reply::Status(0)), before.step());
    assert_eq!(scan, before);
    assert!(expects(&scan, &Reply::Pointer(9)));
    assert_eq!(
        scan.resume(Reply::Pointer(9)),
        Step::Perform(Call::GetMatchingServices { main_port: 0, matching: 9 })
    );
    assert_eq!(scan, Scan::Listing { query: 9 });

    let mut finished = find_trackpad_device(Platform::Unsupported);
    assert!(!expects(&finished, &Reply::Returned));
    assert_eq!(finished.resume(Reply::Returned), Step::Finish(None));

    let mut actuation = actuate(Platform::Capable, 6, Intensity::full());
    let start = actuation;
    assert!(!expects(&actuation, &Reply::Flag(true)));
    actuation.resume(Reply::Flag(true));
    assert_eq!(actuation, start);

    let mut query = is_supported(Platform::Capable);
    let start = query;
    assert!(!expects(&query, &Reply::Object(3)));
    query.resume(Reply::Object(3));
    assert_eq!(query, start);
}

#[test]
fn type_of_the_capability_is_compared_with_the_boolean_type() {
    let kit = Kit { iterator: 1, identifier_key: 2, capability_key: 3 };
    let mut scan = Scan::TypingCapability { kit, service: 4, property: 5 };
    assert_eq!(scan.resume(Reply::TypeId(21)), Step::Perform(Call::BooleanTypeId));
    assert_eq!(
        scan.resume(Reply::TypeId(21)),
        Step::Perform(Call::BooleanGetValue { boolean: 5 })
    );
    let mut scan = Scan::TypingCapability { kit, service: 4, property: 5 };
    scan.resume(Reply::TypeId(7));
    assert_eq!(scan.resume(Reply::TypeId(21)), Step::Perform(Call::Release { value: 5 }));
    assert_eq!(scan.resume(Reply::Returned), Step::Perform(Call::ObjectRelease { object: 4 }));
    assert_eq!(scan.resume(Reply::Status(0)), Step::Perform(Call::IteratorNext { iterator: 1 }));
}

#[test]
fn actuation_that_holds_a_finished_search_goes_on_from_it() {
    let found = Actuation::Locating {
        scan: Scan::Finished { found: Some(9) },
        pattern: 6,
        intensity: Intensity::full(),
    };
    assert_eq!(found.step(), Step::Perform(Call::ActuatorCreate { device: 9 }));
    assert_eq!(
        found.settle(),
        Actuation::Creating { device: 9, pattern: 6, intensity: Intensity::full() }
    );
    let none = Actuation::Locating {
        scan: Scan::Finished { found: None },
        pattern: 6,
        intensity: Intensity::full(),
    };
    assert_eq!(none.step(), Step::Finish(Err(ActuationError::NoDeviceFound)));
}

#[test]
fn scan_takes_ten_calls_a_service_at_most() {
    let registries = vec![
        vec![],
        vec![capable(42)],
        vec![device(Capability::Absent, Identifier::Absent)],
        vec![device(Capability::Boolean(true), Identifier::Text), capable(55)],
        vec![
            device(Capability::Text, Identifier::Number(1)),
            device(Capability::Boolean(false), Identifier::Number(2)),
            device(Capability::Boolean(true), Identifier::Absent),
            device(Capability::Boolean(true), Identifier::Text),
        ],
    ];
    let expected = [8, 17, 4 + 3 + 4, 4 + 10 + 10 + 3, 4 + 6 + 7 + 8 + 10 + 4];
    for (devices, calls) in registries.into_iter().zip(expected) {
        let mut host = Host::with(devices);
        drive(find_trackpad_device(Platform::Capable), &mut host);
        assert_eq!(host.calls.len(), calls);
        assert!(host.calls.len() <= 10 * host.cursor + 8);
        assert!(host.settled());
    }
}
