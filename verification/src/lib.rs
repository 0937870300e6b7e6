//! Core logic of a temperature-to-fan-speed controller for a laptop cooling
//! subsystem that is driven through a textual hardware command interface.
//!
//! The crate covers the parts with real design content and proves them:
//! the command protocol codec ([`protocol`]), the curve evaluator ([`curve`]),
//! the configuration types with their load-boundary validation ([`config`]),
//! the per-zone control state with its stuck-fan recovery heuristic
//! ([`device`]), and the watch-loop state machine with its single-slot
//! command mailbox ([`watch`]).
//!
//! All hardware access happens outside this crate: callers read and write the
//! hardware interface themselves and hand the observed plain values (speeds,
//! temperatures, timestamps in seconds) to the decision functions here.

pub mod config;
pub mod curve;
pub mod device;
pub mod protocol;
pub mod watch;
