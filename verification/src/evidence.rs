//! What the dialogue of a scan shows about the device that the scan returns:
//! the device was pulled from the registry's multitouch devices, its
//! capability property was there, was a boolean and was true, and the
//! identifier returned is the one read from that same device.

use crate::discovery::{identifier_of, scan_start, Kit, Scan};
use crate::machine::{
    answered, dialogue, dialogue_has_one_exchange_per_reply, run, Exchange, Machine,
};
use crate::platform::{
    Call, Name, Platform, Reply, Step, DEFAULT_PORT, IO_OBJECT_NULL, KERN_SUCCESS, NO_OPTIONS,
    NULL, NUMBER_TYPE_SINT64, STRING_ENCODING_UTF8,
};
use vstd::prelude::*;

verus! {

/// The exchange in which `call` was answered by `reply`.
pub open spec fn exchange(call: Call, reply: Reply) -> Exchange {
    Exchange { call, reply }
}

/// The dialogue began by matching the class of multitouch devices and by
/// listing the matches with success, which gave `iterator`.
pub open spec fn listed(d: Seq<Exchange>, iterator: u32) -> bool {
    &&& d.len() >= 2
    &&& d[0].call == Call::ServiceMatching { name: Name::DeviceClass }
    &&& d[0].reply matches Reply::Pointer(query)
    &&& query != NULL
    &&& d[1] == exchange(
        Call::GetMatchingServices { main_port: DEFAULT_PORT, matching: query },
        Reply::Matched { status: KERN_SUCCESS, iterator },
    )
}

/// The dialogue began by listing the multitouch devices and by making the
/// two keys: it gave the three parts of `kit`.
pub open spec fn prepared(d: Seq<Exchange>, kit: Kit) -> bool {
    &&& d.len() >= 4
    &&& listed(d, kit.iterator)
    &&& d[2] == exchange(
        Call::StringCreate { text: Name::IdentifierKey, encoding: STRING_ENCODING_UTF8 },
        Reply::Pointer(kit.identifier_key),
    )
    &&& d[3] == exchange(
        Call::StringCreate { text: Name::CapabilityKey, encoding: STRING_ENCODING_UTF8 },
        Reply::Pointer(kit.capability_key),
    )
}

/// Exchange `at` pulled `service` from the iterator.
pub open spec fn pulled(d: Seq<Exchange>, at: int, kit: Kit, service: u32) -> bool {
    &&& prepared(d, kit)
    &&& 4 <= at < d.len()
    &&& d[at] == exchange(Call::IteratorNext { iterator: kit.iterator }, Reply::Object(service))
    &&& service != IO_OBJECT_NULL
}

/// ... and the next read the capability property of `service`, which is
/// there, as `property`.
pub open spec fn capability_read(
    d: Seq<Exchange>,
    at: int,
    kit: Kit,
    service: u32,
    property: usize,
) -> bool {
    &&& pulled(d, at, kit, service)
    &&& at + 1 < d.len()
    &&& d[at + 1] == exchange(
        Call::CreateProperty { entry: service, key: kit.capability_key, options: NO_OPTIONS },
        Reply::Pointer(property),
    )
    &&& property != NULL
}

/// ... and the next found `property` to have the runtime type `type_id`.
pub open spec fn capability_typed(
    d: Seq<Exchange>,
    at: int,
    kit: Kit,
    service: u32,
    property: usize,
    type_id: u64,
) -> bool {
    &&& capability_read(d, at, kit, service, property)
    &&& at + 2 < d.len()
    &&& d[at + 2] == exchange(Call::GetTypeId { value: property }, Reply::TypeId(type_id))
}

/// ... and the next found that very type to be the type of booleans.
pub open spec fn capability_boolean(
    d: Seq<Exchange>,
    at: int,
    kit: Kit,
    service: u32,
    property: usize,
) -> bool {
    &&& at + 3 < d.len()
    &&& d[at + 2].reply matches Reply::TypeId(type_id)
    &&& capability_typed(d, at, kit, service, property, type_id)
    &&& d[at + 3] == exchange(Call::BooleanTypeId, Reply::TypeId(type_id))
}

/// ... and the next found `property` to be true.
pub open spec fn capability_true(
    d: Seq<Exchange>,
    at: int,
    kit: Kit,
    service: u32,
    property: usize,
) -> bool {
    &&& capability_boolean(d, at, kit, service, property)
    &&& at + 4 < d.len()
    &&& d[at + 4] == exchange(Call::BooleanGetValue { boolean: property }, Reply::Flag(true))
}

/// ... and the next gave the capability property back.
pub open spec fn capability_released(d: Seq<Exchange>, at: int, kit: Kit, service: u32) -> bool {
    &&& at + 5 < d.len()
    &&& d[at + 1].reply matches Reply::Pointer(property)
    &&& capability_true(d, at, kit, service, property)
    &&& d[at + 5] == exchange(Call::Release { value: property }, Reply::Returned)
}

/// ... and the next read the identifier property of the same `service`,
/// which is there, as `number`.
pub open spec fn identifier_read(
    d: Seq<Exchange>,
    at: int,
    kit: Kit,
    service: u32,
    number: usize,
) -> bool {
    &&& capability_released(d, at, kit, service)
    &&& at + 6 < d.len()
    &&& d[at + 6] == exchange(
        Call::CreateProperty { entry: service, key: kit.identifier_key, options: NO_OPTIONS },
        Reply::Pointer(number),
    )
    &&& number != NULL
}

/// ... and the next converted that number to a signed 64-bit integer, whose
/// bits are `device`.
pub open spec fn identifier_valued(
    d: Seq<Exchange>,
    at: int,
    kit: Kit,
    service: u32,
    device: u64,
) -> bool {
    &&& at + 7 < d.len()
    &&& d[at + 6].reply matches Reply::Pointer(number)
    &&& identifier_read(d, at, kit, service, number)
    &&& d[at + 7].call == Call::NumberGetValue { number, number_type: NUMBER_TYPE_SINT64 }
    &&& d[at + 7].reply matches Reply::Number { converted, value }
    &&& converted
    &&& device == identifier_of(value)
}

/// The eight exchanges from `at` on inspect one service of the registry and
/// show it to be capable, with the identifier `device`.
pub open spec fn shows_capable_device(d: Seq<Exchange>, at: int, device: u64) -> bool {
    exists|kit: Kit, service: u32| #[trigger] identifier_valued(d, at, kit, service, device)
}

/// Exchange `at` asked the iterator for one more service and got none.
pub open spec fn exhausted(d: Seq<Exchange>, at: int, kit: Kit) -> bool {
    &&& prepared(d, kit)
    &&& 4 <= at < d.len()
    &&& d[at] == exchange(
        Call::IteratorNext { iterator: kit.iterator },
        Reply::Object(IO_OBJECT_NULL),
    )
}

/// The dialogue is one of the four in which a scan ends without a device:
/// none at all, on a platform without the actuation framework; one that got
/// a null query; one whose listing failed; or one that went through the
/// services to the end and then gave back the two keys and the iterator.
pub open spec fn ends_with_nothing(d: Seq<Exchange>) -> bool {
    ||| d.len() == 0
    ||| {
        &&& d.len() == 1
        &&& d[0] == exchange(
            Call::ServiceMatching { name: Name::DeviceClass },
            Reply::Pointer(NULL),
        )
    }
    ||| {
        &&& d.len() == 2
        &&& d[0].call == Call::ServiceMatching { name: Name::DeviceClass }
        &&& d[0].reply matches Reply::Pointer(query)
        &&& query != NULL
        &&& d[1].call == Call::GetMatchingServices { main_port: DEFAULT_PORT, matching: query }
        &&& d[1].reply matches Reply::Matched { status, .. }
        &&& status != KERN_SUCCESS
    }
    ||| {
        &&& d.len() >= 8
        &&& d[1].reply matches Reply::Matched { iterator, .. }
        &&& d[2].reply matches Reply::Pointer(identifier_key)
        &&& d[3].reply matches Reply::Pointer(capability_key)
        &&& exhausted(d, d.len() - 4, Kit { iterator, identifier_key, capability_key })
        &&& d[d.len() - 3].call == Call::Release { value: identifier_key }
        &&& d[d.len() - 2].call == Call::Release { value: capability_key }
        &&& d[d.len() - 1].call == Call::ObjectRelease { object: iterator }
    }
}

/// What the dialogue so far is known to hold, by the state that the scan
/// is in.
spec fn trail(d: Seq<Exchange>, scan: Scan) -> bool {
    match scan {
        Scan::Matching => d.len() == 0,
        Scan::Listing { query } => {
            &&& d.len() == 1
            &&& d[0] == exchange(
                Call::ServiceMatching { name: Name::DeviceClass },
                Reply::Pointer(query),
            )
            &&& query != NULL
        },
        Scan::NamingIdentifier { iterator } => d.len() == 2 && listed(d, iterator),
        Scan::NamingCapability { iterator, identifier_key } => {
            &&& d.len() == 3
            &&& listed(d, iterator)
            &&& d[2] == exchange(
                Call::StringCreate { text: Name::IdentifierKey, encoding: STRING_ENCODING_UTF8 },
                Reply::Pointer(identifier_key),
            )
        },
        Scan::Pulling { kit } => prepared(d, kit),
        Scan::ReadingCapability { kit, service } => pulled(d, d.len() - 1, kit, service),
        Scan::TypingCapability { kit, service, property } => capability_read(
            d,
            d.len() - 2,
            kit,
            service,
            property,
        ),
        Scan::TypingBoolean { kit, service, property, type_id } => capability_typed(
            d,
            d.len() - 3,
            kit,
            service,
            property,
            type_id,
        ),
        Scan::ValuingCapability { kit, service, property } => capability_boolean(
            d,
            d.len() - 4,
            kit,
            service,
            property,
        ),
        Scan::ReleasingCapability { kit, service, property, capable } => if capable {
            capability_true(d, d.len() - 5, kit, service, property)
        } else {
            prepared(d, kit)
        },
        Scan::ReadingIdentifier { kit, service } => capability_released(
            d,
            d.len() - 6,
            kit,
            service,
        ),
        Scan::ValuingIdentifier { kit, service, number } => identifier_read(
            d,
            d.len() - 7,
            kit,
            service,
            number,
        ),
        Scan::ReleasingIdentifier { kit, service, found, .. } => match found {
            Some(device) => identifier_valued(d, d.len() - 8, kit, service, device),
            None => prepared(d, kit),
        },
        Scan::ReleasingService { kit, service, found } => match found {
            Some(device) => identifier_valued(d, d.len() - 9, kit, service, device),
            None => prepared(d, kit),
        },
        Scan::ReleasingIdentifierKey { kit, found } => match found {
            Some(device) => shows_capable_device(d, d.len() - 10, device),
            None => exhausted(d, d.len() - 1, kit),
        },
        Scan::ReleasingCapabilityKey { kit, found } => match found {
            Some(device) => shows_capable_device(d, d.len() - 11, device),
            None => {
                &&& exhausted(d, d.len() - 2, kit)
                &&& d[d.len() - 1].call == Call::Release { value: kit.identifier_key }
            },
        },
        Scan::ReleasingIterator { kit, found } => match found {
            Some(device) => shows_capable_device(d, d.len() - 12, device),
            None => {
                &&& exhausted(d, d.len() - 3, kit)
                &&& d[d.len() - 2].call == Call::Release { value: kit.identifier_key }
                &&& d[d.len() - 1].call == Call::Release { value: kit.capability_key }
            },
        },
        Scan::Finished { found } => match found {
            Some(device) => shows_capable_device(d, d.len() - 13, device),
            None => ends_with_nothing(d),
        },
    }
}

/// What was shown of a dialogue is still shown once it has gone on.
proof fn shown_for_good(d: Seq<Exchange>, next: Exchange, at: int, device: u64)
    requires
        shows_capable_device(d, at, device),
    ensures
        shows_capable_device(d.push(next), at, device),
{
    let (kit, service) = choose|kit: Kit, service: u32| #[trigger]
        identifier_valued(d, at, kit, service, device);
    assert(identifier_valued(d.push(next), at, kit, service, device));
}

/// One exchange carries the trail from a state to the state that follows.
proof fn trail_goes_on(d: Seq<Exchange>, scan: Scan, reply: Reply)
    requires
        trail(d, scan),
        scan.pending() is Perform,
        (scan.pending()->Perform_0).answered_by(reply),
    ensures
        trail(d.push(exchange(scan.pending()->Perform_0, reply)), scan.after(reply)),
{
    let next = exchange(scan.pending()->Perform_0, reply);
    match scan {
        Scan::ReleasingService { kit, service, found: Some(device) } => {
            assert(identifier_valued(d.push(next), d.len() - 9, kit, service, device));
        },
        Scan::ReleasingIdentifierKey { found: Some(device), .. } => {
            shown_for_good(d, next, d.len() - 10, device);
        },
        Scan::ReleasingCapabilityKey { found: Some(device), .. } => {
            shown_for_good(d, next, d.len() - 11, device);
        },
        Scan::ReleasingIterator { found: Some(device), .. } => {
            shown_for_good(d, next, d.len() - 12, device);
        },
        _ => {},
    }
}

/// The trail holds all along a dialogue in which each reply answers its call.
proof fn trail_holds(platform: Platform, replies: Seq<Reply>)
    requires
        answered(scan_start(platform), replies),
    ensures
        trail(dialogue(scan_start(platform), replies), run(scan_start(platform), replies)),
    decreases replies.len(),
{
    let start = scan_start(platform);
    if replies.len() > 0 {
        let before = replies.drop_last();
        trail_holds(platform, before);
        trail_goes_on(dialogue(start, before), run(start, before), replies.last());
    }
}

/// No device is returned that was not seen to be capable: a scan ends with a
/// device only on a platform that has the framework, and then the eight
/// exchanges that begin thirteen before the end of its dialogue pulled a
/// service whose capability property was a true boolean and whose identifier
/// is the one returned.
pub proof fn found_device_is_capable(platform: Platform, replies: Seq<Reply>, device: u64)
    requires
        answered(scan_start(platform), replies),
        run(scan_start(platform), replies).pending() == Step::<Option<u64>>::Finish(Some(device)),
    ensures
        platform == Platform::Capable,
        shows_capable_device(
            dialogue(scan_start(platform), replies),
            dialogue(scan_start(platform), replies).len() - 13,
            device,
        ),
{
    trail_holds(platform, replies);
    if platform == Platform::Unsupported {
        only_the_empty_dialogue(replies);
    }
}

/// On a platform without the actuation framework a scan takes no reply.
proof fn only_the_empty_dialogue(replies: Seq<Reply>)
    requires
        answered(scan_start(Platform::Unsupported), replies),
    ensures
        replies.len() == 0,
    decreases replies.len(),
{
    if replies.len() > 0 {
        only_the_empty_dialogue(replies.drop_last());
    }
}

/// A scan that ends without a device ended in one of the four ways in which
/// it can: on a platform without the framework, on a null query, on a failed
/// listing, or at the end of the services. And then no place of its dialogue
/// shows a capable device: none was passed over.
pub proof fn nothing_found_is_explained(platform: Platform, replies: Seq<Reply>)
    requires
        answered(scan_start(platform), replies),
        run(scan_start(platform), replies).pending() == Step::<Option<u64>>::Finish(None),
    ensures
        ends_with_nothing(dialogue(scan_start(platform), replies)),
        forall|at: int, device: u64|
            !#[trigger] shows_capable_device(dialogue(scan_start(platform), replies), at, device),
{
    trail_holds(platform, replies);
    nowhere_else_holds(platform, replies);
}

/// How many exchanges ago the inspection began that found the device which
/// the scan now carries, or nothing where it carries none.
spec fn since_found(scan: Scan) -> Option<(int, u64)> {
    match scan {
        Scan::ReleasingIdentifier { found: Some(device), .. } => Some((8, device)),
        Scan::ReleasingService { found: Some(device), .. } => Some((9, device)),
        Scan::ReleasingIdentifierKey { found: Some(device), .. } => Some((10, device)),
        Scan::ReleasingCapabilityKey { found: Some(device), .. } => Some((11, device)),
        Scan::ReleasingIterator { found: Some(device), .. } => Some((12, device)),
        Scan::Finished { found: Some(device) } => Some((13, device)),
        _ => None,
    }
}

/// The only place of the dialogue that shows a capable device is the one
/// which the scan carries.
spec fn nowhere_else(d: Seq<Exchange>, scan: Scan) -> bool {
    forall|at: int, device: u64| #[trigger]
        shows_capable_device(d, at, device) ==> since_found(scan) == Some(
            (d.len() - at, device),
        )
}

/// What a dialogue shows, it showed before its last exchange, unless the
/// last exchange is the one that completes the showing.
proof fn shown_before(d: Seq<Exchange>, next: Exchange, at: int, device: u64)
    requires
        shows_capable_device(d.push(next), at, device),
        at + 8 <= d.len(),
    ensures
        shows_capable_device(d, at, device),
{
    let (kit, service) = choose|kit: Kit, service: u32| #[trigger]
        identifier_valued(d.push(next), at, kit, service, device);
    assert(identifier_valued(d, at, kit, service, device));
}

/// One exchange carries `nowhere_else` from a state to the state that
/// follows.
proof fn nowhere_else_goes_on(d: Seq<Exchange>, scan: Scan, reply: Reply)
    requires
        trail(d, scan),
        nowhere_else(d, scan),
        scan.pending() is Perform,
        (scan.pending()->Perform_0).answered_by(reply),
    ensures
        nowhere_else(d.push(exchange(scan.pending()->Perform_0, reply)), scan.after(reply)),
{
    let next = exchange(scan.pending()->Perform_0, reply);
    let longer = d.push(next);
    assert forall|at: int, device: u64| #[trigger]
        shows_capable_device(longer, at, device) implies since_found(scan.after(reply)) == Some(
        (longer.len() - at, device),
    ) by {
        if at + 8 <= d.len() {
            shown_before(d, next, at, device);
        }
    }
}

/// `nowhere_else` holds all along a dialogue in which each reply answers its
/// call.
proof fn nowhere_else_holds(platform: Platform, replies: Seq<Reply>)
    requires
        answered(scan_start(platform), replies),
    ensures
        nowhere_else(dialogue(scan_start(platform), replies), run(scan_start(platform), replies)),
    decreases replies.len(),
{
    let start = scan_start(platform);
    if replies.len() > 0 {
        let before = replies.drop_last();
        nowhere_else_holds(platform, before);
        trail_holds(platform, before);
        nowhere_else_goes_on(dialogue(start, before), run(start, before), replies.last());
    }
}

/// The first capable device wins. Once eight exchanges have shown a device
/// to be capable, the scan has at most five exchanges left: its dialogue
/// never grows beyond them, and when it has reached their end the scan is
/// over, with that device. So a scan's dialogue shows at most one capable
/// device, in the last service that it looked at.
pub proof fn capable_device_ends_the_scan(
    platform: Platform,
    replies: Seq<Reply>,
    at: int,
    device: u64,
)
    requires
        answered(scan_start(platform), replies),
        shows_capable_device(dialogue(scan_start(platform), replies), at, device),
    ensures
        at + 8 <= replies.len() <= at + 13,
        replies.len() == at + 13 ==> run(scan_start(platform), replies).pending() == Step::<
            Option<u64>,
        >::Finish(Some(device)),
        replies.len() < at + 13 ==> run(scan_start(platform), replies).pending() is Perform,
{
    nowhere_else_holds(platform, replies);
    dialogue_has_one_exchange_per_reply(scan_start(platform), replies);
}

} // verus!
