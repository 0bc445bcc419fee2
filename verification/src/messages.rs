//! The texts the ledger writes: error messages of rejected requests and timeline payloads.

use vstd::prelude::*;
use vstd::string::*;

use crate::text::{int_text, nat_text, push_i32, push_u64};

verus! {

/// `trip {id} not found`
pub open spec fn trip_not_found_text(trip_id: u64) -> Seq<char> {
    "trip "@ + nat_text(trip_id as nat) + " not found"@
}

/// `illegal transition: trip {id} is in state {state}, expected {expected}`
pub open spec fn illegal_transition_text(trip_id: u64, state: Seq<char>, expected: Seq<char>) -> Seq<char> {
    "illegal transition: trip "@ + nat_text(trip_id as nat) + " is in state "@ + state + ", expected "@
        + expected
}

/// `vehicle {id} not found`
pub open spec fn vehicle_not_found_text(vehicle_id: u64) -> Seq<char> {
    "vehicle "@ + nat_text(vehicle_id as nat) + " not found"@
}

/// `vehicle {model} is not available (status: {status})`
pub open spec fn vehicle_unavailable_text(model: Seq<char>, status: Seq<char>) -> Seq<char> {
    "vehicle "@ + model + " is not available (status: "@ + status + ")"@
}

/// `{renter} reserved {model}`
pub open spec fn reserved_payload_text(renter: Seq<char>, model: Seq<char>) -> Seq<char> {
    renter + " reserved "@ + model
}

/// `Snapshot captured at {battery}% battery in {location}`
pub open spec fn snapshot_payload_text(battery: i32, location: Seq<char>) -> Seq<char> {
    "Snapshot captured at "@ + int_text(battery as int) + "% battery in "@ + location
}

/// `+{odometer} mi, battery {battery}%`, then `, HARSH BRAKE detected` after a harsh brake and
/// `, GEOFENCE breach` when the car left the geofence.
pub open spec fn telemetry_payload_text(
    odometer_label: Seq<char>,
    battery: i32,
    harsh_brake: bool,
    geofence_ok: bool,
) -> Seq<char> {
    let base = "+"@ + odometer_label + " mi, battery "@ + int_text(battery as int) + "%"@;
    let braked = if harsh_brake { base + ", HARSH BRAKE detected"@ } else { base };
    if !geofence_ok { braked + ", GEOFENCE breach"@ } else { braked }
}

pub fn trip_not_found(trip_id: u64) -> (s: String)
    ensures
        s@ == trip_not_found_text(trip_id),
{
    let mut s = String::from_str("trip ");
    push_u64(&mut s, trip_id);
    s.append(" not found");
    s
}

pub fn illegal_transition(trip_id: u64, state: &String, expected: &str) -> (s: String)
    ensures
        s@ == illegal_transition_text(trip_id, state@, expected@),
{
    let mut s = String::from_str("illegal transition: trip ");
    push_u64(&mut s, trip_id);
    s.append(" is in state ");
    s.append(state.as_str());
    s.append(", expected ");
    s.append(expected);
    s
}

pub fn vehicle_not_found(vehicle_id: u64) -> (s: String)
    ensures
        s@ == vehicle_not_found_text(vehicle_id),
{
    let mut s = String::from_str("vehicle ");
    push_u64(&mut s, vehicle_id);
    s.append(" not found");
    s
}

pub fn vehicle_unavailable(model: &String, status: &String) -> (s: String)
    ensures
        s@ == vehicle_unavailable_text(model@, status@),
{
    let mut s = String::from_str("vehicle ");
    s.append(model.as_str());
    s.append(" is not available (status: ");
    s.append(status.as_str());
    s.append(")");
    s
}

pub fn reserved_payload(renter: &String, model: &String) -> (s: String)
    ensures
        s@ == reserved_payload_text(renter@, model@),
{
    let mut s = renter.clone();
    s.append(" reserved ");
    s.append(model.as_str());
    s
}

pub fn snapshot_payload(battery: i32, location: &String) -> (s: String)
    ensures
        s@ == snapshot_payload_text(battery, location@),
{
    let mut s = String::from_str("Snapshot captured at ");
    push_i32(&mut s, battery);
    s.append("% battery in ");
    s.append(location.as_str());
    s
}

pub fn telemetry_payload(odometer_label: &str, battery: i32, harsh_brake: bool, geofence_ok: bool) -> (s: String)
    ensures
        s@ == telemetry_payload_text(odometer_label@, battery, harsh_brake, geofence_ok),
{
    let mut s = String::from_str("+");
    s.append(odometer_label);
    s.append(" mi, battery ");
    push_i32(&mut s, battery);
    s.append("%");
    if harsh_brake {
        s.append(", HARSH BRAKE detected");
    }
    if !geofence_ok {
        s.append(", GEOFENCE breach");
    }
    s
}

} // verus!
