//! The vocabulary of the dialogue between a machine and its host: the calls
//! that a machine may ask for, the replies that answer them, and which
//! platform resources change hands with each.

use crate::intensity::Intensity;
use vstd::multiset::Multiset;
use vstd::prelude::*;

verus! {

/// The status with which a registry call reports success.
pub const KERN_SUCCESS: i32 = 0;

/// The registry object that is none: it ends an iteration.
pub const IO_OBJECT_NULL: u32 = 0;

/// The pointer that points at nothing.
pub const NULL: usize = 0;

/// The main port that stands for the default one.
pub const DEFAULT_PORT: u32 = 0;

/// The option bits of a plain property read.
pub const NO_OPTIONS: u32 = 0;

/// The string encoding UTF-8, as the platform numbers it.
pub const STRING_ENCODING_UTF8: u32 = 0x0800_0100;

/// The number type "signed 64-bit integer", as the platform numbers it.
pub const NUMBER_TYPE_SINT64: i32 = 4;

/// The value of the parameter of an actuation that has no use yet.
pub const RESERVED: u32 = 0;

/// The status with which an actuator reports that it is open.
pub const ACTUATOR_OPENED: i32 = 0;

/// Whether the host has the actuation framework at all.
#[derive(Clone, Copy, Debug, PartialEq, Eq, Structural)]
pub enum Platform {
    /// The framework is present: the dialogue can take place.
    Capable,
    /// The framework is missing: no call may be attempted.
    Unsupported,
}

/// A text that the platform matches against its own data. The three texts
/// are the platform vendor's and must reach the platform letter for letter.
#[derive(Clone, Copy, Debug, PartialEq, Eq, Structural)]
pub enum Name {
    /// The class of registry services that are multitouch devices.
    DeviceClass,
    /// The property that holds a device's numeric identifier.
    IdentifierKey,
    /// The property that says whether a device can actuate.
    CapabilityKey,
}

impl Name {
    /// The characters of this name.
    pub open spec fn characters(self) -> Seq<char> {
        match self {
            Name::DeviceClass => "AppleMultitouchDevice"@,
            Name::IdentifierKey => "Multitouch ID"@,
            Name::CapabilityKey => "ActuationSupported"@,
        }
    }

    /// The text to hand to the platform.
    pub fn text(self) -> (text: &'static str)
        ensures
            text@ == self.characters(),
    {
        match self {
            Name::DeviceClass => "AppleMultitouchDevice",
            Name::IdentifierKey => "Multitouch ID",
            Name::CapabilityKey => "ActuationSupported",
        }
    }
}

/// One call into the platform, with the arguments to pass. Pointers travel as
/// addresses, and a pointer argument that is not listed is null (the default
/// allocator).
#[derive(Clone, Copy, Debug, PartialEq, Eq)]
pub enum Call {
    /// `IOServiceMatching(name)`: build the query for a class of services.
    ServiceMatching { name: Name },
    /// `IOServiceGetMatchingServices(main_port, matching, &mut iterator)`:
    /// list the services that match. The query is used up by the call.
    GetMatchingServices { main_port: u32, matching: usize },
    /// `CFStringCreateWithCString(null, text, encoding)`: make a lookup key.
    StringCreate { text: Name, encoding: u32 },
    /// `IOIteratorNext(iterator)`: pull the next service.
    IteratorNext { iterator: u32 },
    /// `IORegistryEntryCreateCFProperty(entry, key, null, options)`: read one
    /// property of a service.
    CreateProperty { entry: u32, key: usize, options: u32 },
    /// `CFGetTypeID(value)`: the runtime type of a property value.
    GetTypeId { value: usize },
    /// `CFBooleanGetTypeID()`: the runtime type that booleans have.
    BooleanTypeId,
    /// `CFBooleanGetValue(boolean)`: the truth value of a boolean.
    BooleanGetValue { boolean: usize },
    /// `CFNumberGetValue(number, number_type, &mut value)`: convert a number.
    NumberGetValue { number: usize, number_type: i32 },
    /// `CFRelease(value)`: give back a key or a property value.
    Release { value: usize },
    /// `IOObjectRelease(object)`: give back an iterator or a service.
    ObjectRelease { object: u32 },
    /// `MTActuatorCreateFromDeviceID(device)`: make an actuator handle.
    ActuatorCreate { device: u64 },
    /// `MTActuatorOpen(actuator)`: open the handle.
    ActuatorOpen { actuator: usize },
    /// `MTActuatorActuate(actuator, pattern, reserved, reserved_level,
    /// intensity)`: strike once.
    ActuatorActuate {
        actuator: usize,
        pattern: i32,
        reserved: u32,
        reserved_level: Intensity,
        intensity: Intensity,
    },
    /// `MTActuatorClose(actuator)`: close the handle and give it back.
    ActuatorClose { actuator: usize },
}

/// What the platform answered, as the raw values that came back.
#[derive(Clone, Copy, Debug, PartialEq, Eq)]
pub enum Reply {
    /// The pointer that was returned, as an address.
    Pointer(usize),
    /// The registry object that was returned.
    Object(u32),
    /// The status of a listing, and the iterator it stored.
    Matched { status: i32, iterator: u32 },
    /// The runtime type that was returned.
    TypeId(u64),
    /// The truth value that was returned.
    Flag(bool),
    /// Whether a number could be converted, and the value that was stored.
    Number { converted: bool, value: i64 },
    /// The status that was returned.
    Status(i32),
    /// The call returned, and returns nothing.
    Returned,
}

impl Call {
    /// Whether `reply` has the shape of what this call returns.
    pub open spec fn answered_by(self, reply: Reply) -> bool {
        match self {
            Call::ServiceMatching { .. } => reply is Pointer,
            Call::GetMatchingServices { .. } => reply is Matched,
            Call::StringCreate { .. } => reply is Pointer,
            Call::IteratorNext { .. } => reply is Object,
            Call::CreateProperty { .. } => reply is Pointer,
            Call::GetTypeId { .. } => reply is TypeId,
            Call::BooleanTypeId => reply is TypeId,
            Call::BooleanGetValue { .. } => reply is Flag,
            Call::NumberGetValue { .. } => reply is Number,
            Call::Release { .. } => reply is Returned,
            Call::ObjectRelease { .. } => reply is Status,
            Call::ActuatorCreate { .. } => reply is Pointer,
            Call::ActuatorOpen { .. } => reply is Status,
            Call::ActuatorActuate { .. } => reply is Status,
            Call::ActuatorClose { .. } => reply is Status,
        }
    }

    /// Tells whether `reply` has the shape of what this call returns.
    pub fn is_answered_by(&self, reply: &Reply) -> (fits: bool)
        ensures
            fits == self.answered_by(*reply),
    {
        match (self, reply) {
            (Call::ServiceMatching { .. }, Reply::Pointer(_)) => true,
            (Call::GetMatchingServices { .. }, Reply::Matched { .. }) => true,
            (Call::StringCreate { .. }, Reply::Pointer(_)) => true,
            (Call::IteratorNext { .. }, Reply::Object(_)) => true,
            (Call::CreateProperty { .. }, Reply::Pointer(_)) => true,
            (Call::GetTypeId { .. }, Reply::TypeId(_)) => true,
            (Call::BooleanTypeId, Reply::TypeId(_)) => true,
            (Call::BooleanGetValue { .. }, Reply::Flag(_)) => true,
            (Call::NumberGetValue { .. }, Reply::Number { .. }) => true,
            (Call::Release { .. }, Reply::Returned) => true,
            (Call::ObjectRelease { .. }, Reply::Status(_)) => true,
            (Call::ActuatorCreate { .. }, Reply::Pointer(_)) => true,
            (Call::ActuatorOpen { .. }, Reply::Status(_)) => true,
            (Call::ActuatorActuate { .. }, Reply::Status(_)) => true,
            (Call::ActuatorClose { .. }, Reply::Status(_)) => true,
            _ => false,
        }
    }
}

/// What a machine wants next: a call performed, or nothing more.
#[derive(Debug, PartialEq, Eq)]
pub enum Step<T> {
    /// Perform this call and hand its reply to the machine.
    Perform(Call),
    /// The operation is over, with this result.
    Finish(T),
}

/// Something of the platform's that its holder must give back.
#[derive(Clone, Copy, Debug, PartialEq, Eq)]
pub enum Resource {
    /// A query for services, by its address.
    Query(usize),
    /// A registry object: an iterator or a service.
    Object(u32),
    /// A lookup key or a property value, by its address.
    Value(usize),
    /// An actuator handle, by its address.
    Actuator(usize),
}

/// What the caller owns once `call` has been answered by `reply`.
///
/// A query, a property value and an actuator come into being when the pointer
/// is not null, a service when the object is not the null object, an iterator
/// when the listing succeeded. The platform names no failure for making a
/// key: whatever pointer comes back is taken as the key.
pub open spec fn gained(call: Call, reply: Reply) -> Multiset<Resource> {
    match (call, reply) {
        (Call::ServiceMatching { .. }, Reply::Pointer(query)) if query != NULL => {
            Multiset::singleton(Resource::Query(query))
        },
        (Call::GetMatchingServices { .. }, Reply::Matched { status, iterator }) if status
            == KERN_SUCCESS => Multiset::singleton(Resource::Object(iterator)),
        (Call::StringCreate { .. }, Reply::Pointer(key)) => Multiset::singleton(
            Resource::Value(key),
        ),
        (Call::IteratorNext { .. }, Reply::Object(service)) if service != IO_OBJECT_NULL => {
            Multiset::singleton(Resource::Object(service))
        },
        (Call::CreateProperty { .. }, Reply::Pointer(value)) if value != NULL => {
            Multiset::singleton(Resource::Value(value))
        },
        (Call::ActuatorCreate { .. }, Reply::Pointer(actuator)) if actuator != NULL => {
            Multiset::singleton(Resource::Actuator(actuator))
        },
        _ => Multiset::empty(),
    }
}

/// What the caller no longer owns once `call` has been made: what a release
/// or a close names, and the query that a listing uses up.
pub open spec fn given_up(call: Call) -> Multiset<Resource> {
    match call {
        Call::GetMatchingServices { matching, .. } => Multiset::singleton(
            Resource::Query(matching),
        ),
        Call::Release { value } => Multiset::singleton(Resource::Value(value)),
        Call::ObjectRelease { object } => Multiset::singleton(Resource::Object(object)),
        Call::ActuatorClose { actuator } => Multiset::singleton(Resource::Actuator(actuator)),
        _ => Multiset::empty(),
    }
}

} // verus!
