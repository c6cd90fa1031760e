//! How long a scan can take: it spends at most ten exchanges on each service
//! that the iterator hands out, and eight around them. So a scan goes on only
//! as long as the platform keeps handing out services.

use crate::discovery::{scan_start, Scan};
use crate::machine::{answered, dialogue, dialogue_has_one_exchange_per_reply, run, Exchange};
use crate::platform::{Platform, Reply, IO_OBJECT_NULL};
use vstd::prelude::*;

verus! {

/// Whether the exchange pulled a service from the iterator.
pub open spec fn pulls_service(exchange: Exchange) -> bool {
    &&& exchange.call is IteratorNext
    &&& exchange.reply matches Reply::Object(service)
    &&& service != IO_OBJECT_NULL
}

/// How many services the exchanges pulled from the iterator.
pub open spec fn services_pulled(exchanges: Seq<Exchange>) -> nat
    decreases exchanges.len(),
{
    if exchanges.len() == 0 {
        0
    } else if pulls_service(exchanges.last()) {
        services_pulled(exchanges.drop_last()) + 1
    } else {
        services_pulled(exchanges.drop_last())
    }
}

/// The most exchanges that a scan can have behind it in each state, with
/// `pulled` services pulled so far.
spec fn at_most(scan: Scan, pulled: int) -> int {
    match scan {
        Scan::Matching => 0,
        Scan::Listing { .. } => 1,
        Scan::NamingIdentifier { .. } => 2,
        Scan::NamingCapability { .. } => 3,
        Scan::Pulling { .. } => 10 * pulled + 4,
        Scan::ReadingCapability { .. } => 10 * pulled - 5,
        Scan::TypingCapability { .. } => 10 * pulled - 4,
        Scan::TypingBoolean { .. } => 10 * pulled - 3,
        Scan::ValuingCapability { .. } => 10 * pulled - 2,
        Scan::ReleasingCapability { .. } => 10 * pulled - 1,
        Scan::ReadingIdentifier { .. } => 10 * pulled,
        Scan::ValuingIdentifier { .. } => 10 * pulled + 1,
        Scan::ReleasingIdentifier { .. } => 10 * pulled + 2,
        Scan::ReleasingService { .. } => 10 * pulled + 3,
        Scan::ReleasingIdentifierKey { .. } => 10 * pulled + 5,
        Scan::ReleasingCapabilityKey { .. } => 10 * pulled + 6,
        Scan::ReleasingIterator { .. } => 10 * pulled + 7,
        Scan::Finished { .. } => 10 * pulled + 8,
    }
}

/// The bound of each state holds all along a dialogue in which each reply
/// answers its call.
proof fn bound_holds(platform: Platform, replies: Seq<Reply>)
    requires
        answered(scan_start(platform), replies),
    ensures
        replies.len() <= at_most(
            run(scan_start(platform), replies),
            services_pulled(dialogue(scan_start(platform), replies)) as int,
        ),
    decreases replies.len(),
{
    if replies.len() > 0 {
        let start = scan_start(platform);
        bound_holds(platform, replies.drop_last());
        assert(dialogue(start, replies).drop_last() =~= dialogue(start, replies.drop_last()));
    }
}

/// The dialogue of a scan has at most ten exchanges for each service that it
/// has pulled, and eight more: a scan cannot go on without pulling.
pub proof fn scan_takes_ten_exchanges_a_service(platform: Platform, replies: Seq<Reply>)
    requires
        answered(scan_start(platform), replies),
    ensures
        replies.len() <= 10 * services_pulled(dialogue(scan_start(platform), replies)) + 8,
        services_pulled(dialogue(scan_start(platform), replies)) <= replies.len(),
{
    bound_holds(platform, replies);
    dialogue_has_one_exchange_per_reply(scan_start(platform), replies);
    no_more_pulled_than_exchanged(dialogue(scan_start(platform), replies));
}

/// No more services are pulled than there are exchanges.
proof fn no_more_pulled_than_exchanged(exchanges: Seq<Exchange>)
    ensures
        services_pulled(exchanges) <= exchanges.len(),
    decreases exchanges.len(),
{
    if exchanges.len() > 0 {
        no_more_pulled_than_exchanged(exchanges.drop_last());
    }
}

} // verus!
