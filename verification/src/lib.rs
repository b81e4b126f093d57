//! Time-tracking core: activity classification, active learning, timer and
//! hierarchy rules, idle handling and sync bookkeeping.

pub mod active_learning_queue;
pub mod activity_tracker;
pub mod assoc;
pub mod classification;
pub mod classification_loop;
pub mod clock;
pub mod frame;
pub mod hierarchy;
pub mod idle;
pub mod ids;
pub mod logger;
pub mod models;
pub mod preferences;
pub mod screenshot;
pub mod sync;
pub mod text;
pub mod timer;
pub mod timer_tick;

use vstd::prelude::*;

verus! {

/// Prepares health monitoring before the application starts; nothing is
/// collected yet, so there is no state to set up.
pub fn init_health() {
}

} // verus!
