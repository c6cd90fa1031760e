//! Haptic clicks on a trackpad actuator, written without any I/O.
//!
//! Finding the actuator and striking it takes a dialogue with the platform:
//! registry objects are listed, their properties read, an actuator handle is
//! opened, struck and closed. This crate holds every decision of that
//! dialogue and none of its calls. Each operation is a small machine. The
//! host asks the machine for its pending step, performs the call it names,
//! and hands the reply back, until the machine finishes with the operation's
//! result.

pub mod actuation;
pub mod discovery;
pub mod evidence;
pub mod intensity;
pub mod machine;
pub mod outcome;
pub mod platform;
pub mod progress;
pub mod support;

pub use crate::actuation::{actuate, click, strong_click, weak_click, Actuation, ActuationError};
pub use crate::discovery::{find_trackpad_device, Scan};
pub use crate::intensity::Intensity;
pub use crate::machine::{expects, Machine};
pub use crate::platform::{Call, Platform, Reply, Step};
pub use crate::support::{is_supported, SupportQuery};
