//! Asking whether the host has a trackpad that can actuate.

use crate::discovery::{find_trackpad_device, scan_start, Scan};
use crate::evidence::{found_device_is_capable, shows_capable_device};
use crate::machine::{
    acquired, answered, dialogue, every_resource_is_released_once, released, run, Machine,
};
use crate::platform::{Platform, Reply, Resource, Step};
use vstd::multiset::Multiset;
use vstd::prelude::*;

verus! {

/// The question whether an actuator is there, between two calls: a search
/// for the device of which only the success is kept.
#[derive(Clone, Copy, Debug, PartialEq, Eq)]
pub struct SupportQuery {
    pub scan: Scan,
}

impl Machine for SupportQuery {
    type Outcome = bool;

    /// The step that this state waits for: the scan's call, or the answer,
    /// which is yes when the scan has found a device.
    open spec fn pending(self) -> Step<bool> {
        match self.scan.pending() {
            Step::Perform(call) => Step::Perform(call),
            Step::Finish(found) => Step::Finish(found is Some),
        }
    }

    /// The state that follows when the pending call is answered by `reply`.
    open spec fn after(self, reply: Reply) -> SupportQuery {
        SupportQuery { scan: self.scan.after(reply) }
    }

    /// The resources that the query has obtained and not yet given back.
    open spec fn held(self) -> Multiset<Resource> {
        self.scan.held()
    }

    /// The step to take now: the call to perform, or the answer.
    fn step(&self) -> (step: Step<bool>) {
        match self.scan.step() {
            Step::Perform(call) => Step::Perform(call),
            Step::Finish(found) => Step::Finish(found.is_some()),
        }
    }

    /// Takes the reply to the pending call, moves on, and returns the step
    /// that is pending then. A reply that does not answer the pending call
    /// is set aside: the query stays where it is.
    fn resume(&mut self, reply: Reply) -> (step: Step<bool>) {
        let mut scan = self.scan;
        scan.resume(reply);
        self.scan = scan;
        self.step()
    }

    proof fn exchange_conserves(self, reply: Reply) {
        self.scan.exchange_conserves(reply);
    }

    proof fn finished_holds_nothing(self) {
    }

    proof fn stray_reply_is_set_aside(self, reply: Reply) {
        self.scan.stray_reply_is_set_aside(reply);
    }
}

/// The state in which a support query starts.
pub open spec fn support_start(platform: Platform) -> SupportQuery {
    SupportQuery { scan: scan_start(platform) }
}

/// Starts the question whether the host has a trackpad that can actuate. On
/// a platform without the actuation framework the answer is no from the
/// start, and no call is asked for.
pub fn is_supported(platform: Platform) -> (query: SupportQuery)
    ensures
        query == support_start(platform),
        platform == Platform::Unsupported ==> query.pending() == Step::<bool>::Finish(false),
{
    SupportQuery { scan: find_trackpad_device(platform) }
}

/// A support query is a scan and nothing else: handed the same replies, it
/// is in the state that wraps the scan's, its replies answer its calls
/// exactly when they answer the scan's, and then it has asked for the same
/// calls.
pub proof fn support_query_is_a_scan(platform: Platform, replies: Seq<Reply>)
    ensures
        run(support_start(platform), replies) == (SupportQuery {
            scan: run(scan_start(platform), replies),
        }),
        answered(support_start(platform), replies) == answered(scan_start(platform), replies),
        answered(scan_start(platform), replies) ==> dialogue(support_start(platform), replies)
            == dialogue(scan_start(platform), replies),
    decreases replies.len(),
{
    if replies.len() > 0 {
        support_query_is_a_scan(platform, replies.drop_last());
    }
}

/// The answer is yes exactly when the scan has found a device, whichever it
/// is.
pub proof fn supported_means_found(platform: Platform, replies: Seq<Reply>)
    ensures
        run(support_start(platform), replies).pending() == Step::<bool>::Finish(true) <==> exists|
            device: u64,
        |
            run(scan_start(platform), replies).pending() == Step::<Option<u64>>::Finish(
                Some(device),
            ),
        run(support_start(platform), replies).pending() == Step::<bool>::Finish(false) <==> run(
            scan_start(platform),
            replies,
        ).pending() == Step::<Option<u64>>::Finish(None),
{
    support_query_is_a_scan(platform, replies);
    let scan = run(scan_start(platform), replies);
    if let Step::Finish(Some(device)) = scan.pending() {
        assert(scan.pending() == Step::<Option<u64>>::Finish(Some(device)));
    }
}

/// The answer is yes only if the dialogue shows a device that is capable: it
/// ends as a scan does that has found one.
pub proof fn supported_means_capable(platform: Platform, replies: Seq<Reply>)
    requires
        answered(support_start(platform), replies),
        run(support_start(platform), replies).pending() == Step::<bool>::Finish(true),
    ensures
        platform == Platform::Capable,
        ({
            let exchanges = dialogue(support_start(platform), replies);
            let at = exchanges.len() - 13;
            exists|device: u64| #[trigger] shows_capable_device(exchanges, at, device)
        }),
{
    support_query_is_a_scan(platform, replies);
    supported_means_found(platform, replies);
    let device = choose|device: u64|
        run(scan_start(platform), replies).pending() == Step::<Option<u64>>::Finish(Some(device));
    found_device_is_capable(platform, replies, device);
}

/// Asking again changes nothing: a query keeps nothing from one time to the
/// next, so two queries on the same platform that are handed the same
/// replies ask for the same calls and give the same answer.
pub proof fn asking_again_gives_the_same_answer(
    platform: Platform,
    first: Seq<Reply>,
    second: Seq<Reply>,
)
    requires
        first =~= second,
    ensures
        run(support_start(platform), first).pending() == run(
            support_start(platform),
            second,
        ).pending(),
        dialogue(support_start(platform), first) == dialogue(support_start(platform), second),
{
}

/// Without the actuation framework the answer is no, and it is there before
/// any call: the only dialogue in which each reply answers a call is the
/// empty one.
pub proof fn unsupported_platform_is_not_supported(replies: Seq<Reply>)
    requires
        answered(support_start(Platform::Unsupported), replies),
    ensures
        replies.len() == 0,
        run(support_start(Platform::Unsupported), replies).pending() == Step::<bool>::Finish(
            false,
        ),
    decreases replies.len(),
{
    if replies.len() > 0 {
        unsupported_platform_is_not_supported(replies.drop_last());
    }
}

/// A support query gives back all that it obtains, each thing once:
/// whatever the platform answers, at no point has the query released what
/// it had not acquired, and when it ends it has released exactly what it
/// acquired.
pub proof fn support_query_releases_what_it_acquires(platform: Platform, replies: Seq<Reply>)
    requires
        answered(support_start(platform), replies),
    ensures
        ({
            let start = support_start(platform);
            &&& forall|n: int|
                0 <= n <= replies.len() ==> #[trigger] released(
                    dialogue(start, replies.take(n)),
                ).subset_of(acquired(dialogue(start, replies.take(n))))
            &&& run(start, replies).pending() is Finish ==> released(dialogue(start, replies))
                =~= acquired(dialogue(start, replies))
        }),
{
    every_resource_is_released_once(support_start(platform), replies);
}

} // verus!
