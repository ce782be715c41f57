//! A countdown-based system-suspend helper.
//!
//! The library holds the verified core of a small tool that waits a
//! requested delay while rendering a live countdown, then asks the host
//! to suspend: unit conversion of the requested delay, greedy
//! decomposition of the remaining time, the countdown line text, the
//! cancellable tick state machine, and the choice of the platform's
//! suspend command. The surrounding binary performs the argument
//! parsing, terminal output, signal registration and process spawning.

pub mod countdown;
pub mod duration;
pub mod render;
pub mod suspend;
