//! The reducers of the Trip Room: every change to the ledger goes through one of them,
//! and each is stated as a function from the ledger before to the ledger after and the answer.

use vstd::prelude::*;
use vstd::string::*;

use crate::ledger::{outcome, require_state, Ledger, LedgerView};
use crate::messages::{
    illegal_transition_text, reserved_payload, reserved_payload_text, snapshot_payload,
    snapshot_payload_text, telemetry_payload, telemetry_payload_text, trip_not_found_text,
    vehicle_not_found, vehicle_not_found_text, vehicle_unavailable, vehicle_unavailable_text,
};
use crate::rows::{Community, CommunityView, ResidentView, VehicleView};
use crate::state::{
    ACTIVE_TRIP, AI_REVIEWING, AVAILABLE, CHARGING, CHECK_IN_STARTED, CLOSED, RESERVED,
    RESERVED_STATUS, RETURN_STARTED, TRIP_ACTIVE, UNLOCK_GRANTED, VEHICLE_VERIFIED,
};

verus! {

// ---------------------------------------------------------------------------
// The demo community
// ---------------------------------------------------------------------------

/// The community row a reset writes.
pub open spec fn demo_community() -> CommunityView {
    CommunityView { id: 1, name: "Microsoft Apartments"@, teslas: 3, residents: 14, chargers: 2 }
}

/// The fleet a reset writes, its ids counted from `n`.
pub open spec fn demo_vehicles(n: u64) -> Map<u64, VehicleView> {
    map![
        n => VehicleView { id: n, model: "Tesla Model 3"@, battery: 82, location: "Garage B2"@, status: AVAILABLE@ },
        (n + 1) as u64 => VehicleView {
            id: (n + 1) as u64,
            model: "Tesla Model Y"@,
            battery: 64,
            location: "Garage B1"@,
            status: ACTIVE_TRIP@,
        },
        (n + 2) as u64 => VehicleView {
            id: (n + 2) as u64,
            model: "Tesla Model S"@,
            battery: 91,
            location: "Charging Stall 1"@,
            status: CHARGING@,
        },
    ]
}

/// The residents a reset writes, their ids counted from `n`.
pub open spec fn demo_residents(n: u64) -> Map<u64, ResidentView> {
    map![
        n => ResidentView { id: n, name: "Franco"@, voltscore: 91, status: "verified"@ },
        (n + 1) as u64 => ResidentView { id: (n + 1) as u64, name: "Maya"@, voltscore: 84, status: "verified"@ },
        (n + 2) as u64 => ResidentView { id: (n + 2) as u64, name: "Alex"@, voltscore: 0, status: "pending"@ },
    ]
}

/// A reset: every table emptied, then the demo community, fleet and residents written;
/// the sequences keep counting.
pub open spec fn seed_demo_data_spec(pre: LedgerView) -> LedgerView {
    LedgerView {
        vehicles: demo_vehicles(pre.next_vehicle_id),
        residents: demo_residents(pre.next_resident_id),
        trips: Map::empty(),
        trip_events: Map::empty(),
        telemetry: Map::empty(),
        ai_recommendations: Map::empty(),
        community: map![1u64 => demo_community()],
        next_vehicle_id: (pre.next_vehicle_id + 3) as u64,
        next_resident_id: (pre.next_resident_id + 3) as u64,
        ..pre
    }
}

// ---------------------------------------------------------------------------
// What each reducer does, as a function of the ledger before it runs
// ---------------------------------------------------------------------------

/// A reservation opens a Trip Room on an available vehicle and runs the check-in
/// cascade up to VEHICLE_VERIFIED, with the vehicle snapshot; it writes no AI content.
pub open spec fn reserve_vehicle_spec(
    pre: LedgerView,
    now: spacetimedb::Timestamp,
    vehicle_id: u64,
    renter: Seq<char>,
) -> (LedgerView, Result<(), Seq<char>>) {
    if !pre.vehicles.contains_key(vehicle_id) {
        (pre, Err(vehicle_not_found_text(vehicle_id)))
    } else {
        let v = pre.vehicles[vehicle_id];
        if v.status != AVAILABLE@ {
            (pre, Err(vehicle_unavailable_text(v.model, v.status)))
        } else {
            let trip_id = pre.next_trip_id;
            let post = pre.with_new_trip(vehicle_id, renter, VEHICLE_VERIFIED@, now)
                .with_vehicle_status(vehicle_id, RESERVED_STATUS@)
                .logged(trip_id, RESERVED@, reserved_payload_text(renter, v.model), now)
                .logged(trip_id, CHECK_IN_STARTED@, "Resident started check-in"@, now)
                .with_telemetry(trip_id, v.battery, 0, false, true, now)
                .logged(trip_id, VEHICLE_VERIFIED@, snapshot_payload_text(v.battery, v.location), now);
            (post, Ok(()))
        }
    }
}

/// The timeline kind of an agent's recommendation.
pub open spec fn recommendation_event_kind(kind: Seq<char>) -> Seq<char> {
    if kind == "unlock"@ {
        "AI_UNLOCK_RECOMMENDATION"@
    } else {
        "AI_RECOMMENDATION"@
    }
}

/// The agent's recommendation is stored once per trip and kind: a second write of the
/// same kind for the same trip is a no-op.
pub open spec fn ai_write_recommendation_spec(
    pre: LedgerView,
    now: spacetimedb::Timestamp,
    trip_id: u64,
    kind: Seq<char>,
    verdict: Seq<char>,
    body: Seq<char>,
) -> (LedgerView, Result<(), Seq<char>>) {
    if !pre.trips.contains_key(trip_id) {
        (pre, Err(trip_not_found_text(trip_id)))
    } else if pre.has_recommendation(trip_id, kind) {
        (pre, Ok(()))
    } else {
        let post = pre.with_recommendation(trip_id, kind, verdict, body, now).logged(
            trip_id,
            recommendation_event_kind(kind),
            "AI Trust Agent wrote a recommendation into SpacetimeDB"@,
            now,
        );
        (post, Ok(()))
    }
}

/// The owner's approval grants the unlock and activates a verified trip; the vehicle
/// goes on an active trip.
pub open spec fn approve_unlock_spec(pre: LedgerView, now: spacetimedb::Timestamp, trip_id: u64) -> (
    LedgerView,
    Result<(), Seq<char>>,
) {
    if !pre.trips.contains_key(trip_id) {
        (pre, Err(trip_not_found_text(trip_id)))
    } else {
        let t = pre.trips[trip_id];
        if t.state != VEHICLE_VERIFIED@ {
            (pre, Err(illegal_transition_text(t.id, t.state, VEHICLE_VERIFIED@)))
        } else {
            let post = pre.with_trip_state(trip_id, TRIP_ACTIVE@)
                .with_vehicle_status(t.vehicle_id, ACTIVE_TRIP@)
                .logged(trip_id, UNLOCK_GRANTED@, "Owner approved unlock"@, now)
                .logged(trip_id, TRIP_ACTIVE@, "Trip is now active"@, now);
            (post, Ok(()))
        }
    }
}

/// A telemetry reading of an active trip: stored, copied to the vehicle's live battery,
/// and put on the timeline.
pub open spec fn push_telemetry_spec(
    pre: LedgerView,
    now: spacetimedb::Timestamp,
    trip_id: u64,
    battery: i32,
    odometer_delta_bits: u32,
    odometer_label: Seq<char>,
    harsh_brake: bool,
    geofence_ok: bool,
) -> (LedgerView, Result<(), Seq<char>>) {
    if !pre.trips.contains_key(trip_id) {
        (pre, Err(trip_not_found_text(trip_id)))
    } else {
        let t = pre.trips[trip_id];
        if t.state != TRIP_ACTIVE@ {
            (pre, Err(illegal_transition_text(t.id, t.state, TRIP_ACTIVE@)))
        } else {
            let post = pre.with_telemetry(
                trip_id,
                battery,
                odometer_delta_bits,
                harsh_brake,
                geofence_ok,
                now,
            ).with_vehicle_battery(t.vehicle_id, battery).logged(
                trip_id,
                "TELEMETRY"@,
                telemetry_payload_text(odometer_label, battery, harsh_brake, geofence_ok),
                now,
            );
            (post, Ok(()))
        }
    }
}

/// The resident's return moves an active trip into AI review and stops there.
pub open spec fn start_return_spec(pre: LedgerView, now: spacetimedb::Timestamp, trip_id: u64) -> (
    LedgerView,
    Result<(), Seq<char>>,
) {
    if !pre.trips.contains_key(trip_id) {
        (pre, Err(trip_not_found_text(trip_id)))
    } else {
        let t = pre.trips[trip_id];
        if t.state != TRIP_ACTIVE@ {
            (pre, Err(illegal_transition_text(t.id, t.state, TRIP_ACTIVE@)))
        } else {
            let post = pre.with_trip_state(trip_id, AI_REVIEWING@)
                .logged(trip_id, RETURN_STARTED@, "Resident started return"@, now)
                .logged(trip_id, AI_REVIEWING@, "Awaiting AI Trust Agent closeout"@, now);
            (post, Ok(()))
        }
    }
}

/// The agent's closeout of a trip under review: stored once, and writing it closes the
/// trip and frees the vehicle. A second closeout is a no-op.
pub open spec fn generate_closeout_spec(
    pre: LedgerView,
    now: spacetimedb::Timestamp,
    trip_id: u64,
    verdict: Seq<char>,
    body: Seq<char>,
) -> (LedgerView, Result<(), Seq<char>>) {
    if !pre.trips.contains_key(trip_id) {
        (pre, Err(trip_not_found_text(trip_id)))
    } else if pre.has_recommendation(trip_id, "closeout"@) {
        (pre, Ok(()))
    } else {
        let t = pre.trips[trip_id];
        if t.state != AI_REVIEWING@ {
            (pre, Err(illegal_transition_text(t.id, t.state, AI_REVIEWING@)))
        } else {
            let post = pre.with_recommendation(trip_id, "closeout"@, verdict, body, now)
                .logged(trip_id, "AI_CLOSEOUT"@, "AI Trust Agent wrote closeout report into SpacetimeDB"@, now)
                .with_trip_state(trip_id, CLOSED@)
                .with_vehicle_status(t.vehicle_id, AVAILABLE@)
                .logged(trip_id, CLOSED@, "Trip closed"@, now);
            (post, Ok(()))
        }
    }
}

// ---------------------------------------------------------------------------
// The reducers
// ---------------------------------------------------------------------------

/// Owner action: approves the unlock of a verified trip, which activates it.
pub fn approve_unlock(db: &mut Ledger, now: spacetimedb::Timestamp, trip_id: u64) -> (r: Result<(), String>)
    requires
        old(db)@.wf(),
        old(db).next_event_id < u64::MAX - 1,
    ensures
        (final(db)@, outcome(r)) == approve_unlock_spec(old(db)@, now, trip_id),
        final(db)@.wf(),
{
    let trip = db.find_trip(trip_id)?;
    require_state(&trip, VEHICLE_VERIFIED)?;

    db.set_state(trip_id, UNLOCK_GRANTED)?;
    db.log_event(trip_id, UNLOCK_GRANTED, "Owner approved unlock", now);

    db.set_state(trip_id, TRIP_ACTIVE)?;
    db.set_vehicle_status(trip.vehicle_id, ACTIVE_TRIP);
    db.log_event(trip_id, TRIP_ACTIVE, "Trip is now active", now);
    proof {
        let pre = old(db)@;
        assert(db@.trips =~= pre.with_trip_state(trip_id, TRIP_ACTIVE@).trips);
    }
    Ok(())
}

/// Telemetry connector action: records a reading of an active trip. The odometer delta
/// comes as the bit pattern of its 32-bit float, and as the text that the timeline shows
/// for it (the float written with one decimal).
pub fn push_telemetry(
    db: &mut Ledger,
    now: spacetimedb::Timestamp,
    trip_id: u64,
    battery: i32,
    odometer_delta_bits: u32,
    odometer_label: &str,
    harsh_brake: bool,
    geofence_ok: bool,
) -> (r: Result<(), String>)
    requires
        old(db)@.wf(),
        old(db).next_event_id < u64::MAX,
        old(db).next_telemetry_id < u64::MAX,
    ensures
        (final(db)@, outcome(r)) == push_telemetry_spec(
            old(db)@,
            now,
            trip_id,
            battery,
            odometer_delta_bits,
            odometer_label@,
            harsh_brake,
            geofence_ok,
        ),
        final(db)@.wf(),
{
    let trip = db.find_trip(trip_id)?;
    require_state(&trip, TRIP_ACTIVE)?;

    db.add_telemetry(trip_id, battery, odometer_delta_bits, harsh_brake, geofence_ok, now);
    db.set_vehicle_battery(trip.vehicle_id, battery);

    let payload = telemetry_payload(odometer_label, battery, harsh_brake, geofence_ok);
    db.log_event(trip_id, "TELEMETRY", payload.as_str(), now);
    Ok(())
}

/// Resident action: starts the return of an active trip, which then waits for the
/// AI Trust Agent's closeout.
pub fn start_return(db: &mut Ledger, now: spacetimedb::Timestamp, trip_id: u64) -> (r: Result<(), String>)
    requires
        old(db)@.wf(),
        old(db).next_event_id < u64::MAX - 1,
    ensures
        (final(db)@, outcome(r)) == start_return_spec(old(db)@, now, trip_id),
        final(db)@.wf(),
{
    let trip = db.find_trip(trip_id)?;
    require_state(&trip, TRIP_ACTIVE)?;

    db.set_state(trip_id, RETURN_STARTED)?;
    db.log_event(trip_id, RETURN_STARTED, "Resident started return", now);

    db.set_state(trip_id, AI_REVIEWING)?;
    db.log_event(trip_id, AI_REVIEWING, "Awaiting AI Trust Agent closeout", now);
    proof {
        let pre = old(db)@;
        assert(db@.trips =~= pre.with_trip_state(trip_id, AI_REVIEWING@).trips);
    }
    Ok(())
}

/// AI Trust Agent action: stores the agent's recommendation for a trip, once per kind.
pub fn ai_write_recommendation(
    db: &mut Ledger,
    now: spacetimedb::Timestamp,
    trip_id: u64,
    kind: String,
    verdict: String,
    body: String,
) -> (r: Result<(), String>)
    requires
        old(db)@.wf(),
        old(db).next_event_id < u64::MAX,
        old(db).next_recommendation_id < u64::MAX,
    ensures
        (final(db)@, outcome(r)) == ai_write_recommendation_spec(
            old(db)@,
            now,
            trip_id,
            kind@,
            verdict@,
            body@,
        ),
        final(db)@.wf(),
{
    let _ = db.find_trip(trip_id)?;

    if db.has_recommendation(trip_id, kind.as_str()) {
        return Ok(());
    }

    let unlock = String::from_str("unlock");
    let event_kind = if kind == unlock {
        "AI_UNLOCK_RECOMMENDATION"
    } else {
        "AI_RECOMMENDATION"
    };
    db.add_recommendation(trip_id, kind, verdict, body, now);
    db.log_event(trip_id, event_kind, "AI Trust Agent wrote a recommendation into SpacetimeDB", now);
    Ok(())
}

/// AI Trust Agent action: stores the closeout of a trip under review, which closes the
/// trip and frees its vehicle; a trip already closed out is left as it is.
pub fn generate_closeout(
    db: &mut Ledger,
    now: spacetimedb::Timestamp,
    trip_id: u64,
    verdict: String,
    body: String,
) -> (r: Result<(), String>)
    requires
        old(db)@.wf(),
        old(db).next_event_id < u64::MAX - 1,
        old(db).next_recommendation_id < u64::MAX,
    ensures
        (final(db)@, outcome(r)) == generate_closeout_spec(old(db)@, now, trip_id, verdict@, body@),
        final(db)@.wf(),
{
    let trip = db.find_trip(trip_id)?;

    if db.has_recommendation(trip_id, "closeout") {
        return Ok(());
    }
    require_state(&trip, AI_REVIEWING)?;

    db.add_recommendation(trip_id, String::from_str("closeout"), verdict, body, now);
    db.log_event(trip_id, "AI_CLOSEOUT", "AI Trust Agent wrote closeout report into SpacetimeDB", now);

    db.set_state(trip_id, CLOSED)?;
    db.set_vehicle_status(trip.vehicle_id, AVAILABLE);
    db.log_event(trip_id, CLOSED, "Trip closed", now);
    Ok(())
}

/// Resident action: reserves an available vehicle, opening its Trip Room and running the
/// check-in up to VEHICLE_VERIFIED.
pub fn reserve_vehicle(
    db: &mut Ledger,
    now: spacetimedb::Timestamp,
    vehicle_id: u64,
    renter: String,
) -> (r: Result<(), String>)
    requires
        old(db)@.wf(),
        old(db).next_trip_id < u64::MAX,
        old(db).next_event_id < u64::MAX - 2,
        old(db).next_telemetry_id < u64::MAX,
    ensures
        (final(db)@, outcome(r)) == reserve_vehicle_spec(old(db)@, now, vehicle_id, renter@),
        final(db)@.wf(),
{
    let (model, battery, location) = match db.vehicles.get(&vehicle_id) {
        Some(v) => {
            let available = String::from_str(AVAILABLE);
            if !(v.status == available) {
                return Err(vehicle_unavailable(&v.model, &v.status));
            }
            (v.model.clone(), v.battery, v.location.clone())
        },
        None => {
            return Err(vehicle_not_found(vehicle_id));
        },
    };

    // RESERVED
    let reserved = reserved_payload(&renter, &model);
    let trip_id = db.add_trip(vehicle_id, renter, RESERVED, now);
    db.set_vehicle_status(vehicle_id, RESERVED_STATUS);
    db.log_event(trip_id, RESERVED, reserved.as_str(), now);

    // CHECK_IN_STARTED
    db.set_state(trip_id, CHECK_IN_STARTED)?;
    db.log_event(trip_id, CHECK_IN_STARTED, "Resident started check-in", now);

    // The vehicle snapshot, then VEHICLE_VERIFIED
    db.add_telemetry(trip_id, battery, 0, false, true, now);
    db.set_state(trip_id, VEHICLE_VERIFIED)?;
    let snapshot = snapshot_payload(battery, &location);
    db.log_event(trip_id, VEHICLE_VERIFIED, snapshot.as_str(), now);
    proof {
        let pre = old(db)@;
        assert(db@.trips =~= pre.with_new_trip(vehicle_id, renter@, VEHICLE_VERIFIED@, now).trips);
    }
    Ok(())
}

/// Resets the demo: every table emptied, then the community, its fleet and its residents
/// written again.
pub fn seed_demo_data(db: &mut Ledger)
    requires
        old(db)@.wf(),
        old(db).next_vehicle_id < u64::MAX - 2,
        old(db).next_resident_id < u64::MAX - 2,
    ensures
        final(db)@ == seed_demo_data_spec(old(db)@),
        final(db)@.wf(),
{
    // Clear everything so the reducer is idempotent and the demo can be reset.
    db.clear_all();

    db.put_community(
        Community {
            id: 1,
            name: String::from_str("Microsoft Apartments"),
            teslas: 3,
            residents: 14,
            chargers: 2,
        },
    );

    db.add_vehicle("Tesla Model 3", 82, "Garage B2", AVAILABLE);
    db.add_vehicle("Tesla Model Y", 64, "Garage B1", ACTIVE_TRIP);
    db.add_vehicle("Tesla Model S", 91, "Charging Stall 1", CHARGING);

    db.add_resident("Franco", 91, "verified");
    db.add_resident("Maya", 84, "verified");
    db.add_resident("Alex", 0, "pending");
    proof {
        let pre = old(db)@;
        assert(db@.vehicles =~= demo_vehicles(pre.next_vehicle_id));
        assert(db@.residents =~= demo_residents(pre.next_resident_id));
        assert(db@.community =~= map![1u64 => demo_community()]);
    }
}

/// Runs when the module is first published: seeds the demo so it is never empty.
pub fn init(db: &mut Ledger)
    requires
        old(db)@.wf(),
        old(db).next_vehicle_id < u64::MAX - 2,
        old(db).next_resident_id < u64::MAX - 2,
    ensures
        final(db)@ == seed_demo_data_spec(old(db)@),
        final(db)@.wf(),
{
    seed_demo_data(db);
}

/// Runs when a client connects: the ledger is left as it is.
pub fn identity_connected(db: &mut Ledger)
    ensures
        final(db)@ == old(db)@,
{
}

/// Runs when a client disconnects: the ledger is left as it is.
pub fn identity_disconnected(db: &mut Ledger)
    ensures
        final(db)@ == old(db)@,
{
}

} // verus!
