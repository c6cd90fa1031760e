//! Finding the actuator: a walk over the registry's multitouch devices that
//! stops at the first one which says it can actuate and tells its identifier.

use crate::machine::{
    acquired, answered, dialogue, dialogue_holds_the_pending_calls,
    every_resource_is_released_once, prefix_is_answered, released, run, Machine,
};
use crate::platform::{
    Call, Name, Platform, Reply, Resource, Step, DEFAULT_PORT, IO_OBJECT_NULL, KERN_SUCCESS,
    NO_OPTIONS, NULL, NUMBER_TYPE_SINT64, STRING_ENCODING_UTF8,
};
use vstd::multiset::Multiset;
use vstd::prelude::*;

verus! {

/// What a scan keeps from its first calls to its last: the iterator over the
/// matching services and the two lookup keys.
#[derive(Clone, Copy, Debug, PartialEq, Eq)]
pub struct Kit {
    pub iterator: u32,
    pub identifier_key: usize,
    pub capability_key: usize,
}

impl Kit {
    /// The three resources of the kit.
    pub open spec fn held(self) -> Multiset<Resource> {
        Multiset::singleton(Resource::Object(self.iterator)).insert(
            Resource::Value(self.identifier_key),
        ).insert(Resource::Value(self.capability_key))
    }
}

/// The identifier that a device's number stands for: the same 64 bits, read
/// as unsigned.
pub open spec fn identifier_of(value: i64) -> u64 {
    if value >= 0 {
        value as u64
    } else {
        (value + 0x1_0000_0000_0000_0000) as u64
    }
}

/// Reads the 64 bits of `value` as an unsigned identifier.
pub fn identifier_from(value: i64) -> (identifier: u64)
    ensures
        identifier == identifier_of(value),
{
    if value >= 0 {
        value as u64
    } else {
        let below: i64 = -(value + 1);
        u64::MAX - (below as u64)
    }
}

/// A scan of the registry, between two calls. Each state but the last has one
/// call pending and says in its name which; the fields are what the scan has
/// in hand.
#[derive(Clone, Copy, Debug, PartialEq, Eq)]
pub enum Scan {
    /// Asking for the query that matches multitouch devices.
    Matching,
    /// Asking for the services that match the query.
    Listing { query: usize },
    /// Asking for the key of the identifier property.
    NamingIdentifier { iterator: u32 },
    /// Asking for the key of the capability property.
    NamingCapability { iterator: u32, identifier_key: usize },
    /// Asking for the next service.
    Pulling { kit: Kit },
    /// Asking for the capability property of a service.
    ReadingCapability { kit: Kit, service: u32 },
    /// Asking for the runtime type of the capability property.
    TypingCapability { kit: Kit, service: u32, property: usize },
    /// Asking for the runtime type of booleans, to compare.
    TypingBoolean { kit: Kit, service: u32, property: usize, type_id: u64 },
    /// Asking for the truth value of the capability property.
    ValuingCapability { kit: Kit, service: u32, property: usize },
    /// Giving the capability property back.
    ReleasingCapability { kit: Kit, service: u32, property: usize, capable: bool },
    /// Asking for the identifier property of a capable service.
    ReadingIdentifier { kit: Kit, service: u32 },
    /// Asking for the identifier property as a signed 64-bit integer.
    ValuingIdentifier { kit: Kit, service: u32, number: usize },
    /// Giving the identifier property back.
    ReleasingIdentifier { kit: Kit, service: u32, number: usize, found: Option<u64> },
    /// Giving the service back.
    ReleasingService { kit: Kit, service: u32, found: Option<u64> },
    /// Giving the identifier key back.
    ReleasingIdentifierKey { kit: Kit, found: Option<u64> },
    /// Giving the capability key back.
    ReleasingCapabilityKey { kit: Kit, found: Option<u64> },
    /// Giving the iterator back.
    ReleasingIterator { kit: Kit, found: Option<u64> },
    /// Over: nothing is held any more.
    Finished { found: Option<u64> },
}

impl Machine for Scan {
    type Outcome = Option<u64>;

    /// The step that this state waits for.
    open spec fn pending(self) -> Step<Option<u64>> {
        match self {
            Scan::Matching => Step::Perform(Call::ServiceMatching { name: Name::DeviceClass }),
            Scan::Listing { query } => Step::Perform(
                Call::GetMatchingServices { main_port: DEFAULT_PORT, matching: query },
            ),
            Scan::NamingIdentifier { .. } => Step::Perform(
                Call::StringCreate { text: Name::IdentifierKey, encoding: STRING_ENCODING_UTF8 },
            ),
            Scan::NamingCapability { .. } => Step::Perform(
                Call::StringCreate { text: Name::CapabilityKey, encoding: STRING_ENCODING_UTF8 },
            ),
            Scan::Pulling { kit } => Step::Perform(Call::IteratorNext { iterator: kit.iterator }),
            Scan::ReadingCapability { kit, service } => Step::Perform(
                Call::CreateProperty {
                    entry: service,
                    key: kit.capability_key,
                    options: NO_OPTIONS,
                },
            ),
            Scan::TypingCapability { property, .. } => Step::Perform(
                Call::GetTypeId { value: property },
            ),
            Scan::TypingBoolean { .. } => Step::Perform(Call::BooleanTypeId),
            Scan::ValuingCapability { property, .. } => Step::Perform(
                Call::BooleanGetValue { boolean: property },
            ),
            Scan::ReleasingCapability { property, .. } => Step::Perform(
                Call::Release { value: property },
            ),
            Scan::ReadingIdentifier { kit, service } => Step::Perform(
                Call::CreateProperty {
                    entry: service,
                    key: kit.identifier_key,
                    options: NO_OPTIONS,
                },
            ),
            Scan::ValuingIdentifier { number, .. } => Step::Perform(
                Call::NumberGetValue { number, number_type: NUMBER_TYPE_SINT64 },
            ),
            Scan::ReleasingIdentifier { number, .. } => Step::Perform(
                Call::Release { value: number },
            ),
            Scan::ReleasingService { service, .. } => Step::Perform(
                Call::ObjectRelease { object: service },
            ),
            Scan::ReleasingIdentifierKey { kit, .. } => Step::Perform(
                Call::Release { value: kit.identifier_key },
            ),
            Scan::ReleasingCapabilityKey { kit, .. } => Step::Perform(
                Call::Release { value: kit.capability_key },
            ),
            Scan::ReleasingIterator { kit, .. } => Step::Perform(
                Call::ObjectRelease { object: kit.iterator },
            ),
            Scan::Finished { found } => Step::Finish(found),
        }
    }

    /// The state that follows when the pending call is answered by `reply`.
    ///
    /// A null query and a failed listing end the scan at once with nothing
    /// found. A service is capable when its capability property is there, has
    /// the runtime type of booleans and is true; only then is its identifier
    /// read, and the first identifier that converts ends the walk. Whatever
    /// was obtained on the way is given back before the scan goes on or ends.
    /// A reply that does not answer the pending call changes nothing.
    open spec fn after(self, reply: Reply) -> Scan {
        match (self, reply) {
            (Scan::Matching, Reply::Pointer(query)) => if query == NULL {
                Scan::Finished { found: None }
            } else {
                Scan::Listing { query }
            },
            (Scan::Listing { .. }, Reply::Matched { status, iterator }) => if status
                != KERN_SUCCESS {
                Scan::Finished { found: None }
            } else {
                Scan::NamingIdentifier { iterator }
            },
            (Scan::NamingIdentifier { iterator }, Reply::Pointer(key)) => Scan::NamingCapability {
                iterator,
                identifier_key: key,
            },
            (Scan::NamingCapability { iterator, identifier_key }, Reply::Pointer(key)) => {
                Scan::Pulling { kit: Kit { iterator, identifier_key, capability_key: key } }
            },
            (Scan::Pulling { kit }, Reply::Object(service)) => if service == IO_OBJECT_NULL {
                Scan::ReleasingIdentifierKey { kit, found: None }
            } else {
                Scan::ReadingCapability { kit, service }
            },
            (Scan::ReadingCapability { kit, service }, Reply::Pointer(property)) => if property
                == NULL {
                Scan::ReleasingService { kit, service, found: None }
            } else {
                Scan::TypingCapability { kit, service, property }
            },
            (Scan::TypingCapability { kit, service, property }, Reply::TypeId(type_id)) => {
                Scan::TypingBoolean { kit, service, property, type_id }
            },
            (
                Scan::TypingBoolean { kit, service, property, type_id },
                Reply::TypeId(boolean),
            ) => if type_id == boolean {
                Scan::ValuingCapability { kit, service, property }
            } else {
                Scan::ReleasingCapability { kit, service, property, capable: false }
            },
            (Scan::ValuingCapability { kit, service, property }, Reply::Flag(value)) => {
                Scan::ReleasingCapability { kit, service, property, capable: value }
            },
            (
                Scan::ReleasingCapability { kit, service, capable, .. },
                Reply::Returned,
            ) => if capable {
                Scan::ReadingIdentifier { kit, service }
            } else {
                Scan::ReleasingService { kit, service, found: None }
            },
            (Scan::ReadingIdentifier { kit, service }, Reply::Pointer(number)) => if number
                == NULL {
                Scan::ReleasingService { kit, service, found: None }
            } else {
                Scan::ValuingIdentifier { kit, service, number }
            },
            (
                Scan::ValuingIdentifier { kit, service, number },
                Reply::Number { converted, value },
            ) => Scan::ReleasingIdentifier {
                kit,
                service,
                number,
                found: if converted {
                    Some(identifier_of(value))
                } else {
                    None
                },
            },
            (Scan::ReleasingIdentifier { kit, service, found, .. }, Reply::Returned) => {
                Scan::ReleasingService { kit, service, found }
            },
            (Scan::ReleasingService { kit, found, .. }, Reply::Status(_)) => if found is Some {
                Scan::ReleasingIdentifierKey { kit, found }
            } else {
                Scan::Pulling { kit }
            },
            (Scan::ReleasingIdentifierKey { kit, found }, Reply::Returned) => {
                Scan::ReleasingCapabilityKey { kit, found }
            },
            (Scan::ReleasingCapabilityKey { kit, found }, Reply::Returned) => {
                Scan::ReleasingIterator { kit, found }
            },
            (Scan::ReleasingIterator { found, .. }, Reply::Status(_)) => Scan::Finished { found },
            _ => self,
        }
    }

    /// The step to take now: the call to perform, or the scan's result.
    fn step(&self) -> (step: Step<Option<u64>>) {
        match *self {
            Scan::Matching => Step::Perform(Call::ServiceMatching { name: Name::DeviceClass }),
            Scan::Listing { query } => Step::Perform(
                Call::GetMatchingServices { main_port: DEFAULT_PORT, matching: query },
            ),
            Scan::NamingIdentifier { .. } => Step::Perform(
                Call::StringCreate { text: Name::IdentifierKey, encoding: STRING_ENCODING_UTF8 },
            ),
            Scan::NamingCapability { .. } => Step::Perform(
                Call::StringCreate { text: Name::CapabilityKey, encoding: STRING_ENCODING_UTF8 },
            ),
            Scan::Pulling { kit } => Step::Perform(Call::IteratorNext { iterator: kit.iterator }),
            Scan::ReadingCapability { kit, service } => Step::Perform(
                Call::CreateProperty {
                    entry: service,
                    key: kit.capability_key,
                    options: NO_OPTIONS,
                },
            ),
            Scan::TypingCapability { property, .. } => Step::Perform(
                Call::GetTypeId { value: property },
            ),
            Scan::TypingBoolean { .. } => Step::Perform(Call::BooleanTypeId),
            Scan::ValuingCapability { property, .. } => Step::Perform(
                Call::BooleanGetValue { boolean: property },
            ),
            Scan::ReleasingCapability { property, .. } => Step::Perform(
                Call::Release { value: property },
            ),
            Scan::ReadingIdentifier { kit, service } => Step::Perform(
                Call::CreateProperty {
                    entry: service,
                    key: kit.identifier_key,
                    options: NO_OPTIONS,
                },
            ),
            Scan::ValuingIdentifier { number, .. } => Step::Perform(
                Call::NumberGetValue { number, number_type: NUMBER_TYPE_SINT64 },
            ),
            Scan::ReleasingIdentifier { number, .. } => Step::Perform(
                Call::Release { value: number },
            ),
            Scan::ReleasingService { service, .. } => Step::Perform(
                Call::ObjectRelease { object: service },
            ),
            Scan::ReleasingIdentifierKey { kit, .. } => Step::Perform(
                Call::Release { value: kit.identifier_key },
            ),
            Scan::ReleasingCapabilityKey { kit, .. } => Step::Perform(
                Call::Release { value: kit.capability_key },
            ),
            Scan::ReleasingIterator { kit, .. } => Step::Perform(
                Call::ObjectRelease { object: kit.iterator },
            ),
            Scan::Finished { found } => Step::Finish(found),
        }
    }

    /// Takes the reply to the pending call, moves on, and returns the step
    /// that is pending then. A reply that does not answer the pending call
    /// is set aside: the scan stays where it is.
    fn resume(&mut self, reply: Reply) -> (step: Step<Option<u64>>) {
        let next = match (*self, reply) {
            (Scan::Matching, Reply::Pointer(query)) => if query == NULL {
                Scan::Finished { found: None }
            } else {
                Scan::Listing { query }
            },
            (Scan::Listing { .. }, Reply::Matched { status, iterator }) => if status
                != KERN_SUCCESS {
                Scan::Finished { found: None }
            } else {
                Scan::NamingIdentifier { iterator }
            },
            (Scan::NamingIdentifier { iterator }, Reply::Pointer(key)) => Scan::NamingCapability {
                iterator,
                identifier_key: key,
            },
            (Scan::NamingCapability { iterator, identifier_key }, Reply::Pointer(key)) => {
                Scan::Pulling { kit: Kit { iterator, identifier_key, capability_key: key } }
            },
            (Scan::Pulling { kit }, Reply::Object(service)) => if service == IO_OBJECT_NULL {
                Scan::ReleasingIdentifierKey { kit, found: None }
            } else {
                Scan::ReadingCapability { kit, service }
            },
            (Scan::ReadingCapability { kit, service }, Reply::Pointer(property)) => if property
                == NULL {
                Scan::ReleasingService { kit, service, found: None }
            } else {
                Scan::TypingCapability { kit, service, property }
            },
            (Scan::TypingCapability { kit, service, property }, Reply::TypeId(type_id)) => {
                Scan::TypingBoolean { kit, service, property, type_id }
            },
            (
                Scan::TypingBoolean { kit, service, property, type_id },
                Reply::TypeId(boolean),
            ) => if type_id == boolean {
                Scan::ValuingCapability { kit, service, property }
            } else {
                Scan::ReleasingCapability { kit, service, property, capable: false }
            },
            (Scan::ValuingCapability { kit, service, property }, Reply::Flag(value)) => {
                Scan::ReleasingCapability { kit, service, property, capable: value }
            },
            (
                Scan::ReleasingCapability { kit, service, capable, .. },
                Reply::Returned,
            ) => if capable {
                Scan::ReadingIdentifier { kit, service }
            } else {
                Scan::ReleasingService { kit, service, found: None }
            },
            (Scan::ReadingIdentifier { kit, service }, Reply::Pointer(number)) => if number
                == NULL {
                Scan::ReleasingService { kit, service, found: None }
            } else {
                Scan::ValuingIdentifier { kit, service, number }
            },
            (
                Scan::ValuingIdentifier { kit, service, number },
                Reply::Number { converted, value },
            ) => {
                let found = if converted {
                    Some(identifier_from(value))
                } else {
                    None
                };
                Scan::ReleasingIdentifier { kit, service, number, found }
            },
            (Scan::ReleasingIdentifier { kit, service, found, .. }, Reply::Returned) => {
                Scan::ReleasingService { kit, service, found }
            },
            (Scan::ReleasingService { kit, found, .. }, Reply::Status(_)) => if found.is_some() {
                Scan::ReleasingIdentifierKey { kit, found }
            } else {
                Scan::Pulling { kit }
            },
            (Scan::ReleasingIdentifierKey { kit, found }, Reply::Returned) => {
                Scan::ReleasingCapabilityKey { kit, found }
            },
            (Scan::ReleasingCapabilityKey { kit, found }, Reply::Returned) => {
                Scan::ReleasingIterator { kit, found }
            },
            (Scan::ReleasingIterator { found, .. }, Reply::Status(_)) => Scan::Finished { found },
            (unchanged, _) => unchanged,
        };
        *self = next;
        self.step()
    }

    /// The resources that the scan has obtained and not yet given back.
    open spec fn held(self) -> Multiset<Resource> {
        match self {
            Scan::Matching => Multiset::empty(),
            Scan::Listing { query } => Multiset::singleton(Resource::Query(query)),
            Scan::NamingIdentifier { iterator } => Multiset::singleton(Resource::Object(iterator)),
            Scan::NamingCapability { iterator, identifier_key } => Multiset::singleton(
                Resource::Object(iterator),
            ).insert(Resource::Value(identifier_key)),
            Scan::Pulling { kit } => kit.held(),
            Scan::ReadingCapability { kit, service } => kit.held().insert(
                Resource::Object(service),
            ),
            Scan::TypingCapability { kit, service, property } => kit.held().insert(
                Resource::Object(service),
            ).insert(Resource::Value(property)),
            Scan::TypingBoolean { kit, service, property, .. } => kit.held().insert(
                Resource::Object(service),
            ).insert(Resource::Value(property)),
            Scan::ValuingCapability { kit, service, property } => kit.held().insert(
                Resource::Object(service),
            ).insert(Resource::Value(property)),
            Scan::ReleasingCapability { kit, service, property, .. } => kit.held().insert(
                Resource::Object(service),
            ).insert(Resource::Value(property)),
            Scan::ReadingIdentifier { kit, service } => kit.held().insert(
                Resource::Object(service),
            ),
            Scan::ValuingIdentifier { kit, service, number } => kit.held().insert(
                Resource::Object(service),
            ).insert(Resource::Value(number)),
            Scan::ReleasingIdentifier { kit, service, number, .. } => kit.held().insert(
                Resource::Object(service),
            ).insert(Resource::Value(number)),
            Scan::ReleasingService { kit, service, .. } => kit.held().insert(
                Resource::Object(service),
            ),
            Scan::ReleasingIdentifierKey { kit, .. } => kit.held(),
            Scan::ReleasingCapabilityKey { kit, .. } => Multiset::singleton(
                Resource::Object(kit.iterator),
            ).insert(Resource::Value(kit.capability_key)),
            Scan::ReleasingIterator { kit, .. } => Multiset::singleton(
                Resource::Object(kit.iterator),
            ),
            Scan::Finished { .. } => Multiset::empty(),
        }
    }

    proof fn exchange_conserves(self, reply: Reply) {
    }

    proof fn finished_holds_nothing(self) {
    }

    proof fn stray_reply_is_set_aside(self, reply: Reply) {
    }
}

/// The state in which a scan starts.
pub open spec fn scan_start(platform: Platform) -> Scan {
    match platform {
        Platform::Capable => Scan::Matching,
        Platform::Unsupported => Scan::Finished { found: None },
    }
}

/// Starts the search for a trackpad that can actuate. On a platform without
/// the actuation framework the search is over before it begins, with nothing
/// found and no call asked for.
pub fn find_trackpad_device(platform: Platform) -> (scan: Scan)
    ensures
        scan == scan_start(platform),
        platform == Platform::Unsupported ==> scan.pending() == Step::<Option<u64>>::Finish(None),
{
    match platform {
        Platform::Capable => Scan::Matching,
        Platform::Unsupported => Scan::Finished { found: None },
    }
}

/// Whether the call concerns an actuator.
pub open spec fn concerns_actuator(call: Call) -> bool {
    ||| call is ActuatorCreate
    ||| call is ActuatorOpen
    ||| call is ActuatorActuate
    ||| call is ActuatorClose
}

/// A scan leaves the actuator alone: none of the calls that it asks for
/// concerns one.
pub proof fn scan_leaves_the_actuator_alone(platform: Platform, replies: Seq<Reply>, at: int)
    requires
        answered(scan_start(platform), replies),
        0 <= at < replies.len(),
    ensures
        !concerns_actuator(dialogue(scan_start(platform), replies)[at].call),
{
    dialogue_holds_the_pending_calls(scan_start(platform), replies, at);
    prefix_is_answered(scan_start(platform), replies, at + 1);
    assert(replies.take(at + 1).drop_last() =~= replies.take(at));
}

/// A scan gives back all that it obtains, each thing once: whatever the
/// platform answers, at no point has the scan released what it had not
/// acquired, and when it ends it has released exactly what it acquired.
pub proof fn scan_releases_what_it_acquires(platform: Platform, replies: Seq<Reply>)
    requires
        answered(scan_start(platform), replies),
    ensures
        ({
            let start = scan_start(platform);
            &&& forall|n: int|
                0 <= n <= replies.len() ==> #[trigger] released(
                    dialogue(start, replies.take(n)),
                ).subset_of(acquired(dialogue(start, replies.take(n))))
            &&& run(start, replies).pending() is Finish ==> released(dialogue(start, replies))
                =~= acquired(dialogue(start, replies))
        }),
{
    every_resource_is_released_once(scan_start(platform), replies);
}

} // verus!
