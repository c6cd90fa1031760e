//! Striking the actuator once: find the device, make an actuator for it, open
//! it, strike, and close it again whatever happened in between.

use crate::discovery::{scan_start, Scan};
use crate::intensity::{Intensity, FULL_BITS, HALF_BITS};
use crate::machine::{
    acquired, answered, dialogue, every_resource_is_released_once, released, run, Machine,
};
use crate::platform::{Call, Platform, Reply, Resource, Step, ACTUATOR_OPENED, NULL, RESERVED};
use vstd::multiset::Multiset;
use vstd::prelude::*;

verus! {

/// The pattern of an ordinary click.
pub const CLICK_PATTERN: i32 = 6;

/// The pattern of a weak click.
pub const WEAK_CLICK_PATTERN: i32 = 1;

/// The pattern of a strong click.
pub const STRONG_CLICK_PATTERN: i32 = 15;

/// Why an actuation did not take place.
#[derive(Clone, Copy, Debug, PartialEq, Eq, Structural)]
pub enum ActuationError {
    /// The registry was searched and holds no device that can actuate.
    NoDeviceFound,
    /// The platform made no actuator for the device that was found.
    ActuatorCreationFailed,
    /// The actuator was made but did not open. It has been closed again.
    ActuatorOpenFailed,
    /// The host has no actuation framework. No call was attempted.
    UnsupportedPlatform,
}

impl ActuationError {
    /// The characters of the reason that goes with this error.
    pub open spec fn reason_characters(self) -> Seq<char> {
        match self {
            ActuationError::NoDeviceFound => "No supported trackpad found"@,
            ActuationError::ActuatorCreationFailed => "Failed to create actuator"@,
            ActuationError::ActuatorOpenFailed => "Failed to open actuator"@,
            ActuationError::UnsupportedPlatform => "Haptic feedback only supported on macOS"@,
        }
    }

    /// The reason for this error, in words for a person to read.
    pub fn reason(&self) -> (reason: &'static str)
        ensures
            reason@ == self.reason_characters(),
    {
        match self {
            ActuationError::NoDeviceFound => "No supported trackpad found",
            ActuationError::ActuatorCreationFailed => "Failed to create actuator",
            ActuationError::ActuatorOpenFailed => "Failed to open actuator",
            ActuationError::UnsupportedPlatform => "Haptic feedback only supported on macOS",
        }
    }
}

/// One actuation, between two calls. As long as the device is being looked
/// for, the pending call is the scan's.
#[derive(Clone, Copy, Debug, PartialEq, Eq)]
pub enum Actuation {
    /// Looking for the device.
    Locating { scan: Scan, pattern: i32, intensity: Intensity },
    /// Asking for an actuator for the device.
    Creating { device: u64, pattern: i32, intensity: Intensity },
    /// Asking the actuator to open.
    Opening { actuator: usize, pattern: i32, intensity: Intensity },
    /// Asking the open actuator to strike.
    Striking { actuator: usize, pattern: i32, intensity: Intensity },
    /// Closing the actuator, with the result that is already decided.
    Closing { actuator: usize, outcome: Result<(), ActuationError> },
    /// Over: nothing is held any more.
    Finished { outcome: Result<(), ActuationError> },
}

/// The state that follows the search for the device: with nothing found the
/// actuation is over, before any actuator exists.
pub open spec fn located(found: Option<u64>, pattern: i32, intensity: Intensity) -> Actuation {
    match found {
        None => Actuation::Finished { outcome: Err(ActuationError::NoDeviceFound) },
        Some(device) => Actuation::Creating { device, pattern, intensity },
    }
}

impl Actuation {
    /// This state, or, where the search it holds is over, the state that
    /// follows the search.
    pub open spec fn settled(self) -> Actuation {
        match self {
            Actuation::Locating { scan: Scan::Finished { found }, pattern, intensity } => located(
                found,
                pattern,
                intensity,
            ),
            _ => self,
        }
    }

    /// This state, or, where the search it holds is over, the state that
    /// follows the search.
    pub fn settle(self) -> (settled: Actuation)
        ensures
            settled == self.settled(),
    {
        match self {
            Actuation::Locating { scan: Scan::Finished { found }, pattern, intensity } => {
                match found {
                    None => Actuation::Finished { outcome: Err(ActuationError::NoDeviceFound) },
                    Some(device) => Actuation::Creating { device, pattern, intensity },
                }
            },
            other => other,
        }
    }
}

impl Machine for Actuation {
    type Outcome = Result<(), ActuationError>;

    /// The step that this state waits for. A search that is still held once
    /// the state is settled is not over: it has a call pending.
    open spec fn pending(self) -> Step<Result<(), ActuationError>> {
        match self.settled() {
            Actuation::Locating { scan, .. } => Step::Perform(scan.pending()->Perform_0),
            Actuation::Creating { device, .. } => Step::Perform(Call::ActuatorCreate { device }),
            Actuation::Opening { actuator, .. } => Step::Perform(
                Call::ActuatorOpen { actuator },
            ),
            Actuation::Striking { actuator, pattern, intensity } => Step::Perform(
                Call::ActuatorActuate {
                    actuator,
                    pattern,
                    reserved: RESERVED,
                    reserved_level: Intensity { bits: 0 },
                    intensity,
                },
            ),
            Actuation::Closing { actuator, .. } => Step::Perform(
                Call::ActuatorClose { actuator },
            ),
            Actuation::Finished { outcome } => Step::Finish(outcome),
        }
    }

    /// The state that follows when the pending call is answered by `reply`.
    ///
    /// With no device the actuation fails before any actuator exists, and
    /// with a null actuator before anything is opened. An actuator that does
    /// not open is closed all the same. Once it is open, the strike's own
    /// status is not looked at: the actuator is closed and the actuation has
    /// succeeded. A reply that does not answer the pending call changes
    /// nothing.
    open spec fn after(self, reply: Reply) -> Actuation {
        match (self.settled(), reply) {
            (Actuation::Locating { scan, pattern, intensity }, _) => Actuation::Locating {
                scan: scan.after(reply),
                pattern,
                intensity,
            }.settled(),
            (Actuation::Creating { pattern, intensity, .. }, Reply::Pointer(actuator)) => {
                if actuator == NULL {
                    Actuation::Finished { outcome: Err(ActuationError::ActuatorCreationFailed) }
                } else {
                    Actuation::Opening { actuator, pattern, intensity }
                }
            },
            (Actuation::Opening { actuator, pattern, intensity }, Reply::Status(status)) => {
                if status != ACTUATOR_OPENED {
                    Actuation::Closing {
                        actuator,
                        outcome: Err(ActuationError::ActuatorOpenFailed),
                    }
                } else {
                    Actuation::Striking { actuator, pattern, intensity }
                }
            },
            (Actuation::Striking { actuator, .. }, Reply::Status(_)) => Actuation::Closing {
                actuator,
                outcome: Ok(()),
            },
            (Actuation::Closing { outcome, .. }, Reply::Status(_)) => Actuation::Finished {
                outcome,
            },
            _ => self,
        }
    }

    /// The resources that the actuation has obtained and not yet given back.
    open spec fn held(self) -> Multiset<Resource> {
        match self.settled() {
            Actuation::Locating { scan, .. } => scan.held(),
            Actuation::Creating { .. } => Multiset::empty(),
            Actuation::Opening { actuator, .. } => Multiset::singleton(
                Resource::Actuator(actuator),
            ),
            Actuation::Striking { actuator, .. } => Multiset::singleton(
                Resource::Actuator(actuator),
            ),
            Actuation::Closing { actuator, .. } => Multiset::singleton(
                Resource::Actuator(actuator),
            ),
            Actuation::Finished { .. } => Multiset::empty(),
        }
    }

    /// The step to take now: the call to perform, or the actuation's result.
    fn step(&self) -> (step: Step<Result<(), ActuationError>>) {
        match *self {
            Actuation::Locating { scan, .. } => match scan.step() {
                Step::Perform(call) => Step::Perform(call),
                Step::Finish(None) => Step::Finish(Err(ActuationError::NoDeviceFound)),
                Step::Finish(Some(device)) => Step::Perform(Call::ActuatorCreate { device }),
            },
            Actuation::Creating { device, .. } => Step::Perform(Call::ActuatorCreate { device }),
            Actuation::Opening { actuator, .. } => Step::Perform(
                Call::ActuatorOpen { actuator },
            ),
            Actuation::Striking { actuator, pattern, intensity } => Step::Perform(
                Call::ActuatorActuate {
                    actuator,
                    pattern,
                    reserved: RESERVED,
                    reserved_level: Intensity::zero(),
                    intensity,
                },
            ),
            Actuation::Closing { actuator, .. } => Step::Perform(
                Call::ActuatorClose { actuator },
            ),
            Actuation::Finished { outcome } => Step::Finish(outcome),
        }
    }

    /// Takes the reply to the pending call, moves on, and returns the step
    /// that is pending then. A reply that does not answer the pending call
    /// is set aside: the actuation stays where it is.
    fn resume(&mut self, reply: Reply) -> (step: Step<Result<(), ActuationError>>) {
        let next = match (self.settle(), reply) {
            (Actuation::Locating { scan, pattern, intensity }, reply) => {
                let mut scan = scan;
                scan.resume(reply);
                Actuation::Locating { scan, pattern, intensity }.settle()
            },
            (Actuation::Creating { pattern, intensity, .. }, Reply::Pointer(actuator)) => {
                if actuator == NULL {
                    Actuation::Finished { outcome: Err(ActuationError::ActuatorCreationFailed) }
                } else {
                    Actuation::Opening { actuator, pattern, intensity }
                }
            },
            (Actuation::Opening { actuator, pattern, intensity }, Reply::Status(status)) => {
                if status != ACTUATOR_OPENED {
                    Actuation::Closing {
                        actuator,
                        outcome: Err(ActuationError::ActuatorOpenFailed),
                    }
                } else {
                    Actuation::Striking { actuator, pattern, intensity }
                }
            },
            (Actuation::Striking { actuator, .. }, Reply::Status(_)) => Actuation::Closing {
                actuator,
                outcome: Ok(()),
            },
            (Actuation::Closing { outcome, .. }, Reply::Status(_)) => Actuation::Finished {
                outcome,
            },
            _ => *self,
        };
        *self = next;
        self.step()
    }

    proof fn exchange_conserves(self, reply: Reply) {
        if let Actuation::Locating { scan, .. } = self.settled() {
            scan.exchange_conserves(reply);
        }
    }

    proof fn finished_holds_nothing(self) {
    }

    proof fn stray_reply_is_set_aside(self, reply: Reply) {
        if let Actuation::Locating { scan, .. } = self.settled() {
            scan.stray_reply_is_set_aside(reply);
        }
    }
}

/// The state in which an actuation starts.
pub open spec fn actuation_start(platform: Platform, pattern_id: i32, intensity: Intensity)
    -> Actuation {
    match platform {
        Platform::Capable => Actuation::Locating {
            scan: scan_start(platform),
            pattern: pattern_id,
            intensity,
        },
        Platform::Unsupported => Actuation::Finished {
            outcome: Err(ActuationError::UnsupportedPlatform),
        },
    }
}

/// Starts one actuation with the given pattern and intensity. Neither is
/// looked at: both reach the actuator as they are. On a platform without the
/// actuation framework the actuation has failed before it begins, and no
/// call is asked for, not even to look for the device.
pub fn actuate(platform: Platform, pattern_id: i32, intensity: Intensity) -> (actuation: Actuation)
    ensures
        actuation == actuation_start(platform, pattern_id, intensity),
        platform == Platform::Unsupported ==> actuation.pending() == Step::<
            Result<(), ActuationError>,
        >::Finish(Err(ActuationError::UnsupportedPlatform)),
{
    match platform {
        Platform::Capable => Actuation::Locating {
            scan: Scan::Matching,
            pattern: pattern_id,
            intensity,
        },
        Platform::Unsupported => Actuation::Finished {
            outcome: Err(ActuationError::UnsupportedPlatform),
        },
    }
}

/// Starts an ordinary click: pattern 6 at full intensity.
pub fn click(platform: Platform) -> (actuation: Actuation)
    ensures
        actuation == actuation_start(platform, CLICK_PATTERN, Intensity { bits: FULL_BITS }),
{
    actuate(platform, CLICK_PATTERN, Intensity::full())
}

/// Starts a weak click: pattern 1 at half intensity.
pub fn weak_click(platform: Platform) -> (actuation: Actuation)
    ensures
        actuation == actuation_start(platform, WEAK_CLICK_PATTERN, Intensity { bits: HALF_BITS }),
{
    actuate(platform, WEAK_CLICK_PATTERN, Intensity::half())
}

/// Starts a strong click: pattern 15 at full intensity.
pub fn strong_click(platform: Platform) -> (actuation: Actuation)
    ensures
        actuation == actuation_start(
            platform,
            STRONG_CLICK_PATTERN,
            Intensity { bits: FULL_BITS },
        ),
{
    actuate(platform, STRONG_CLICK_PATTERN, Intensity::full())
}

/// An actuation gives back all that it obtains, each thing once: whatever
/// the platform answers, at no point has the actuation released what it had
/// not acquired, and when it ends, with success or with any error, it has
/// released exactly what it acquired.
pub proof fn actuation_releases_what_it_acquires(
    platform: Platform,
    pattern_id: i32,
    intensity: Intensity,
    replies: Seq<Reply>,
)
    requires
        answered(actuation_start(platform, pattern_id, intensity), replies),
    ensures
        ({
            let start = actuation_start(platform, pattern_id, intensity);
            &&& forall|n: int|
                0 <= n <= replies.len() ==> #[trigger] released(
                    dialogue(start, replies.take(n)),
                ).subset_of(acquired(dialogue(start, replies.take(n))))
            &&& run(start, replies).pending() is Finish ==> released(dialogue(start, replies))
                =~= acquired(dialogue(start, replies))
        }),
{
    every_resource_is_released_once(actuation_start(platform, pattern_id, intensity), replies);
}

} // verus!
