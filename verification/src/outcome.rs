//! What the dialogue of an actuation shows about its result: each way in
//! which an actuation can end, with the exchanges that must have led there.

use crate::actuation::{actuation_start, Actuation, ActuationError};
use crate::discovery::{concerns_actuator, scan_leaves_the_actuator_alone, scan_start};
use crate::evidence::{exchange, found_device_is_capable, shows_capable_device};
use crate::intensity::Intensity;
use crate::machine::{
    answered, dialogue, dialogue_has_one_exchange_per_reply, run, Exchange, Machine,
};
use crate::platform::{Call, Platform, Reply, Step, ACTUATOR_OPENED, NULL, RESERVED};
use vstd::prelude::*;

verus! {

/// The first `n` of `replies` were taken by the search for the device, which
/// asked for the first `n` calls of the actuation and ended with `device`.
pub open spec fn located_by(
    pattern: i32,
    intensity: Intensity,
    replies: Seq<Reply>,
    n: int,
    device: u64,
) -> bool {
    &&& 0 <= n <= replies.len()
    &&& answered(scan_start(Platform::Capable), replies.take(n))
    &&& run(scan_start(Platform::Capable), replies.take(n)).pending() == Step::<
        Option<u64>,
    >::Finish(Some(device))
    &&& dialogue(actuation_start(Platform::Capable, pattern, intensity), replies).take(n)
        =~= dialogue(scan_start(Platform::Capable), replies.take(n))
}

/// Exchange `at` of the actuation, the first after the search, asked for an
/// actuator for the device that the search had found, and got `actuator`.
pub open spec fn created_at(
    pattern: i32,
    intensity: Intensity,
    replies: Seq<Reply>,
    at: int,
    actuator: usize,
) -> bool {
    let d = dialogue(actuation_start(Platform::Capable, pattern, intensity), replies);
    &&& 0 <= at < d.len()
    &&& d[at].call matches Call::ActuatorCreate { device }
    &&& located_by(pattern, intensity, replies, at, device)
    &&& d[at].reply == Reply::Pointer(actuator)
}

/// Whether the dialogue that `replies` make of an actuation accounts for
/// `outcome`.
///
/// Success: a device was found, an actuator made for it and opened, struck
/// with the pattern and the intensity asked for, and closed. No device: the
/// whole dialogue was the search's, which found none. No actuator: the
/// dialogue ended with the null actuator, before any other call. Not open:
/// the actuator was made, did not open, and was closed. Unsupported: there
/// was no dialogue at all.
pub open spec fn explains(
    platform: Platform,
    pattern: i32,
    intensity: Intensity,
    replies: Seq<Reply>,
    outcome: Result<(), ActuationError>,
) -> bool {
    let d = dialogue(actuation_start(platform, pattern, intensity), replies);
    let n = d.len() as int;
    match outcome {
        Ok(()) => {
            &&& platform == Platform::Capable
            &&& n >= 4
            &&& d[n - 4].reply matches Reply::Pointer(actuator)
            &&& created_at(pattern, intensity, replies, n - 4, actuator)
            &&& actuator != NULL
            &&& d[n - 3] == exchange(
                Call::ActuatorOpen { actuator },
                Reply::Status(ACTUATOR_OPENED),
            )
            &&& d[n - 2].call == Call::ActuatorActuate {
                actuator,
                pattern,
                reserved: RESERVED,
                reserved_level: Intensity { bits: 0 },
                intensity,
            }
            &&& d[n - 1].call == Call::ActuatorClose { actuator }
        },
        Err(ActuationError::NoDeviceFound) => {
            &&& platform == Platform::Capable
            &&& answered(scan_start(platform), replies)
            &&& run(scan_start(platform), replies).pending() == Step::<Option<u64>>::Finish(None)
            &&& d == dialogue(scan_start(platform), replies)
        },
        Err(ActuationError::ActuatorCreationFailed) => {
            &&& platform == Platform::Capable
            &&& n >= 1
            &&& created_at(pattern, intensity, replies, n - 1, NULL)
        },
        Err(ActuationError::ActuatorOpenFailed) => {
            &&& platform == Platform::Capable
            &&& n >= 3
            &&& d[n - 3].reply matches Reply::Pointer(actuator)
            &&& created_at(pattern, intensity, replies, n - 3, actuator)
            &&& actuator != NULL
            &&& d[n - 2].call == Call::ActuatorOpen { actuator }
            &&& d[n - 2].reply matches Reply::Status(status)
            &&& status != ACTUATOR_OPENED
            &&& d[n - 1].call == Call::ActuatorClose { actuator }
        },
        Err(ActuationError::UnsupportedPlatform) => {
            &&& platform == Platform::Unsupported
            &&& n == 0
        },
    }
}

/// What the dialogue so far is known to hold, by the state that the
/// actuation is in.
spec fn trail(pattern: i32, intensity: Intensity, replies: Seq<Reply>, state: Actuation) -> bool {
    let d = dialogue(actuation_start(Platform::Capable, pattern, intensity), replies);
    let n = replies.len() as int;
    &&& d.len() == n
    &&& match state {
        Actuation::Locating { scan, pattern: p, intensity: i } => {
            &&& p == pattern
            &&& i == intensity
            &&& scan !is Finished
            &&& answered(scan_start(Platform::Capable), replies)
            &&& scan == run(scan_start(Platform::Capable), replies)
            &&& d == dialogue(scan_start(Platform::Capable), replies)
        },
        Actuation::Creating { device, pattern: p, intensity: i } => {
            &&& p == pattern
            &&& i == intensity
            &&& located_by(pattern, intensity, replies, n, device)
        },
        Actuation::Opening { actuator, pattern: p, intensity: i } => {
            &&& p == pattern
            &&& i == intensity
            &&& created_at(pattern, intensity, replies, n - 1, actuator)
            &&& actuator != NULL
        },
        Actuation::Striking { actuator, pattern: p, intensity: i } => {
            &&& p == pattern
            &&& i == intensity
            &&& created_at(pattern, intensity, replies, n - 2, actuator)
            &&& actuator != NULL
            &&& d[n - 1] == exchange(
                Call::ActuatorOpen { actuator },
                Reply::Status(ACTUATOR_OPENED),
            )
        },
        Actuation::Closing { actuator, outcome: Ok(()) } => {
            &&& created_at(pattern, intensity, replies, n - 3, actuator)
            &&& actuator != NULL
            &&& d[n - 2] == exchange(
                Call::ActuatorOpen { actuator },
                Reply::Status(ACTUATOR_OPENED),
            )
            &&& d[n - 1].call == Call::ActuatorActuate {
                actuator,
                pattern,
                reserved: RESERVED,
                reserved_level: Intensity { bits: 0 },
                intensity,
            }
        },
        Actuation::Closing { actuator, outcome: Err(error) } => {
            &&& error == ActuationError::ActuatorOpenFailed
            &&& created_at(pattern, intensity, replies, n - 2, actuator)
            &&& actuator != NULL
            &&& d[n - 1].call == Call::ActuatorOpen { actuator }
            &&& d[n - 1].reply matches Reply::Status(status)
            &&& status != ACTUATOR_OPENED
        },
        Actuation::Finished { outcome } => explains(
            Platform::Capable,
            pattern,
            intensity,
            replies,
            outcome,
        ),
    }
}

/// What the search found stays found when the dialogue goes on.
proof fn located_for_good(
    pattern: i32,
    intensity: Intensity,
    replies: Seq<Reply>,
    n: int,
    device: u64,
)
    requires
        replies.len() > 0,
        located_by(pattern, intensity, replies.drop_last(), n, device),
    ensures
        located_by(pattern, intensity, replies, n, device),
{
    let start = actuation_start(Platform::Capable, pattern, intensity);
    dialogue_has_one_exchange_per_reply(start, replies.drop_last());
    assert(replies.drop_last().take(n) =~= replies.take(n));
    assert(dialogue(start, replies).take(n) =~= dialogue(start, replies.drop_last()).take(n));
}

/// The actuator that was made stays made when the dialogue goes on.
proof fn created_for_good(
    pattern: i32,
    intensity: Intensity,
    replies: Seq<Reply>,
    at: int,
    actuator: usize,
)
    requires
        replies.len() > 0,
        created_at(pattern, intensity, replies.drop_last(), at, actuator),
    ensures
        created_at(pattern, intensity, replies, at, actuator),
{
    let start = actuation_start(Platform::Capable, pattern, intensity);
    let device = dialogue(start, replies.drop_last())[at].call->ActuatorCreate_device;
    located_for_good(pattern, intensity, replies, at, device);
}

/// The trail holds all along a dialogue in which each reply answers its call.
proof fn trail_holds(pattern: i32, intensity: Intensity, replies: Seq<Reply>)
    requires
        answered(actuation_start(Platform::Capable, pattern, intensity), replies),
    ensures
        trail(
            pattern,
            intensity,
            replies,
            run(actuation_start(Platform::Capable, pattern, intensity), replies),
        ),
    decreases replies.len(),
{
    let start = actuation_start(Platform::Capable, pattern, intensity);
    if replies.len() > 0 {
        let before = replies.drop_last();
        let reply = replies.last();
        trail_holds(pattern, intensity, before);
        dialogue_has_one_exchange_per_reply(start, replies);
        let n = replies.len() as int;
        match run(start, before) {
            Actuation::Locating { scan, .. } => {
                assert(replies.take(n) =~= replies);
                assert(dialogue(start, replies).take(n) =~= dialogue(start, replies));
            },
            Actuation::Creating { .. } => {
                located_for_good(pattern, intensity, replies, n - 1, run(start, before)->device);
            },
            Actuation::Opening { actuator, .. } => {
                created_for_good(pattern, intensity, replies, n - 2, actuator);
            },
            Actuation::Striking { actuator, .. } => {
                created_for_good(pattern, intensity, replies, n - 3, actuator);
            },
            Actuation::Closing { actuator, outcome: Ok(()) } => {
                created_for_good(pattern, intensity, replies, n - 4, actuator);
            },
            Actuation::Closing { actuator, outcome: Err(_) } => {
                created_for_good(pattern, intensity, replies, n - 3, actuator);
            },
            Actuation::Finished { .. } => {},
        }
    }
}

/// However an actuation ends, its dialogue accounts for the result.
pub proof fn outcome_is_explained(
    platform: Platform,
    pattern: i32,
    intensity: Intensity,
    replies: Seq<Reply>,
    outcome: Result<(), ActuationError>,
)
    requires
        answered(actuation_start(platform, pattern, intensity), replies),
        run(actuation_start(platform, pattern, intensity), replies).pending() == Step::<
            Result<(), ActuationError>,
        >::Finish(outcome),
    ensures
        explains(platform, pattern, intensity, replies, outcome),
{
    match platform {
        Platform::Capable => {
            trail_holds(pattern, intensity, replies);
        },
        Platform::Unsupported => {
            unsupported_platform_is_refused(pattern, intensity, replies);
            dialogue_has_one_exchange_per_reply(
                actuation_start(platform, pattern, intensity),
                replies,
            );
        },
    }
}

/// Without the actuation framework an actuation has failed before any call,
/// the search for the device included: the only dialogue in which each reply
/// answers a call is the empty one.
pub proof fn unsupported_platform_is_refused(
    pattern: i32,
    intensity: Intensity,
    replies: Seq<Reply>,
)
    requires
        answered(actuation_start(Platform::Unsupported, pattern, intensity), replies),
    ensures
        replies.len() == 0,
        run(actuation_start(Platform::Unsupported, pattern, intensity), replies).pending()
            == Step::<Result<(), ActuationError>>::Finish(
            Err(ActuationError::UnsupportedPlatform),
        ),
    decreases replies.len(),
{
    if replies.len() > 0 {
        unsupported_platform_is_refused(pattern, intensity, replies.drop_last());
    }
}

/// The device that is struck is one that was seen to be capable: when an
/// actuation succeeds, the actuator was made for a device, and the part of
/// the dialogue before that is a scan's that ends by showing that device.
pub proof fn struck_device_is_capable(pattern: i32, intensity: Intensity, replies: Seq<Reply>)
    requires
        answered(actuation_start(Platform::Capable, pattern, intensity), replies),
        run(actuation_start(Platform::Capable, pattern, intensity), replies).pending() == Step::<
            Result<(), ActuationError>,
        >::Finish(Ok(())),
    ensures
        ({
            let d = dialogue(actuation_start(Platform::Capable, pattern, intensity), replies);
            &&& d.len() >= 4 + 17
            &&& d[d.len() - 4].call matches Call::ActuatorCreate { device }
            &&& shows_capable_device(d.take(d.len() - 4), d.len() - 4 - 13, device)
        }),
{
    let d = dialogue(actuation_start(Platform::Capable, pattern, intensity), replies);
    let searched = d.len() - 4;
    outcome_is_explained(Platform::Capable, pattern, intensity, replies, Ok(()));
    let device = d[searched].call->ActuatorCreate_device;
    found_device_is_capable(Platform::Capable, replies.take(searched), device);
    dialogue_has_one_exchange_per_reply(scan_start(Platform::Capable), replies.take(searched));
}

/// When no actuator could be made, none was opened, struck or closed: the
/// only call of the dialogue that concerns an actuator is the last, which
/// asked for one.
pub proof fn without_actuator_nothing_is_opened(
    pattern: i32,
    intensity: Intensity,
    replies: Seq<Reply>,
    at: int,
)
    requires
        answered(actuation_start(Platform::Capable, pattern, intensity), replies),
        run(actuation_start(Platform::Capable, pattern, intensity), replies).pending() == Step::<
            Result<(), ActuationError>,
        >::Finish(Err(ActuationError::ActuatorCreationFailed)),
        0 <= at < replies.len(),
    ensures
        ({
            let d = dialogue(actuation_start(Platform::Capable, pattern, intensity), replies);
            if at == replies.len() - 1 {
                d[at].call is ActuatorCreate && d[at].reply == Reply::Pointer(NULL)
            } else {
                !concerns_actuator(d[at].call)
            }
        }),
{
    let start = actuation_start(Platform::Capable, pattern, intensity);
    let searched = replies.len() - 1;
    outcome_is_explained(
        Platform::Capable,
        pattern,
        intensity,
        replies,
        Err(ActuationError::ActuatorCreationFailed),
    );
    dialogue_has_one_exchange_per_reply(start, replies);
    if at < searched {
        scan_leaves_the_actuator_alone(Platform::Capable, replies.take(searched), at);
        assert(dialogue(start, replies).take(searched)[at] == dialogue(start, replies)[at]);
    }
}

} // verus!
