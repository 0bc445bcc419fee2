//! The names the ledger writes: Trip Room states in lifecycle order, and vehicle statuses.

use vstd::prelude::*;

verus! {

pub const RESERVED: &'static str = "RESERVED";
pub const CHECK_IN_STARTED: &'static str = "CHECK_IN_STARTED";
pub const VEHICLE_VERIFIED: &'static str = "VEHICLE_VERIFIED";
pub const UNLOCK_GRANTED: &'static str = "UNLOCK_GRANTED";
pub const TRIP_ACTIVE: &'static str = "TRIP_ACTIVE";
pub const RETURN_STARTED: &'static str = "RETURN_STARTED";
pub const AI_REVIEWING: &'static str = "AI_REVIEWING";
pub const CLOSED: &'static str = "CLOSED";

pub const AVAILABLE: &'static str = "Available";
pub const RESERVED_STATUS: &'static str = "Reserved";
pub const ACTIVE_TRIP: &'static str = "Active Trip";
pub const CHARGING: &'static str = "Charging";

} // verus!
