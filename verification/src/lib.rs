//! Supervisor library for two long-running mining child processes: process
//! state machines, bounded console buffers, telemetry parsing and formatting,
//! and the donation scheduler's control arithmetic.

pub mod args;
pub mod buffer;
pub mod fmt;
pub mod helper;
pub mod human;
pub mod json;
pub mod payout;
pub mod process;
pub mod scheduler;
pub mod stats;
pub mod summary;

use vstd::prelude::*;

verus! {

/// Maximum number of bytes a console buffer may hold.
pub const MAX_GUI_OUTPUT_BYTES: usize = 500_000;

/// Reset threshold: a little leeway below the maximum, so a reset fires
/// before the buffer would have to allocate past the cap.
pub const GUI_OUTPUT_LEEWAY: usize = 500_000 - 1_000;

} // verus!
