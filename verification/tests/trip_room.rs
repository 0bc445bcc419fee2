use spacetimedb::Timestamp;
use voltpass::ledger::Ledger;
use voltpass::load::{keyed_table, table_from_rows, Sequences};
use voltpass::messages::{
    illegal_transition, reserved_payload, snapshot_payload, telemetry_payload, trip_not_found,
    vehicle_not_found, vehicle_unavailable,
};
use voltpass::reducers::{
    ai_write_recommendation, approve_unlock, generate_closeout, identity_connected,
    identity_disconnected, init, push_telemetry, reserve_vehicle, seed_demo_data, start_return,
};
use voltpass::rows::{Community, Resident, Trip, Vehicle};
use voltpass::text::{push_i32, push_u64, u64_text};

fn at(micros: i64) -> Timestamp {
    Timestamp::from_micros_since_unix_epoch(micros)
}

fn seeded() -> Ledger {
    let mut db = Ledger::new();
    seed_demo_data(&mut db);
    db
}

/// The timeline of a trip, in the order it was written, as (kind, payload).
fn timeline(db: &Ledger, trip_id: u64) -> Vec<(String, String)> {
    let mut events: Vec<_> = db.trip_events.values().filter(|e| e.trip_id == trip_id).collect();
    events.sort_by_key(|e| e.id);
    events.iter().map(|e| (e.kind.clone(), e.payload.clone())).collect()
}

fn state_of(db: &Ledger, trip_id: u64) -> String {
    db.trips[&trip_id].state.clone()
}

/// Everything a reducer could change, in a comparable form.
fn snapshot(db: &Ledger) -> String {
    let mut parts = Vec::new();
    let mut v: Vec<_> = db.vehicles.values().map(|r| format!("V{}|{}|{}|{}|{}", r.id, r.model, r.battery, r.location, r.status)).collect();
    let mut t: Vec<_> = db.trips.values().map(|r| format!("T{}|{}|{}|{}|{:?}", r.id, r.vehicle_id, r.renter, r.state, r.created_at)).collect();
    let mut e: Vec<_> = db.trip_events.values().map(|r| format!("E{}|{}|{}|{}", r.id, r.trip_id, r.kind, r.payload)).collect();
    let mut m: Vec<_> = db.telemetry.values().map(|r| format!("M{}|{}|{}|{}|{}|{}", r.id, r.trip_id, r.battery, r.odometer_delta_bits, r.harsh_brake, r.geofence_ok)).collect();
    let mut a: Vec<_> = db.ai_recommendations.values().map(|r| format!("A{}|{}|{}|{}|{}", r.id, r.trip_id, r.kind, r.verdict, r.body)).collect();
    let mut r: Vec<_> = db.residents.values().map(|r| format!("R{}|{}|{}|{}", r.id, r.name, r.voltscore, r.status)).collect();
    let mut c: Vec<_> = db.community.values().map(|r| format!("C{}|{}|{}|{}|{}", r.id, r.name, r.teslas, r.residents, r.chargers)).collect();
    for list in [&mut v, &mut t, &mut e, &mut m, &mut a, &mut r, &mut c] {
        list.sort();
        parts.extend(list.iter().cloned());
    }
    parts.push(format!(
        "seq {} {} {} {} {} {}",
        db.next_vehicle_id, db.next_resident_id, db.next_trip_id, db.next_event_id, db.next_telemetry_id,
        db.next_recommendation_id
    ));
    parts.join("\n")
}

/// A ledger with trip 1 reserved on the Model 3 by Franco and moved along to `stage`.
fn trip_at(stage: &str) -> Ledger {
    let mut db = seeded();
    reserve_vehicle(&mut db, at(10), 1, "Franco".to_string()).unwrap();
    if stage == "VEHICLE_VERIFIED" {
        return db;
    }
    approve_unlock(&mut db, at(20), 1).unwrap();
    if stage == "TRIP_ACTIVE" {
        return db;
    }
    start_return(&mut db, at(30), 1).unwrap();
    assert_eq!(stage, "AI_REVIEWING");
    db
}

// --- decimal text -----------------------------------------------------------

#[test]
fn decimal_text_of_unsigned_numbers() {
    assert_eq!(u64_text(0), "0");
    assert_eq!(u64_text(7), "7");
    assert_eq!(u64_text(10), "10");
    assert_eq!(u64_text(1234567890), "1234567890");
    assert_eq!(u64_text(u64::MAX), u64::MAX.to_string());
    let mut s = String::from("trip ");
    push_u64(&mut s, 42);
    assert_eq!(s, "trip 42");
}

#[test]
fn decimal_text_of_signed_numbers() {
    for i in [0, 5, 82, -1, -61, 2147483647, i32::MIN] {
        let mut s = String::from("x");
        push_i32(&mut s, i);
        assert_eq!(s, format!("x{}", i));
    }
}

// --- messages ---------------------------------------------------------------

#[test]
fn messages_read_as_the_module_writes_them() {
    assert_eq!(trip_not_found(7), "trip 7 not found");
    assert_eq!(vehicle_not_found(99), "vehicle 99 not found");
    assert_eq!(
        illegal_transition(3, &"TRIP_ACTIVE".to_string(), "VEHICLE_VERIFIED"),
        "illegal transition: trip 3 is in state TRIP_ACTIVE, expected VEHICLE_VERIFIED"
    );
    assert_eq!(
        vehicle_unavailable(&"Tesla Model Y".to_string(), &"Active Trip".to_string()),
        "vehicle Tesla Model Y is not available (status: Active Trip)"
    );
    assert_eq!(reserved_payload(&"Maya".to_string(), &"Tesla Model 3".to_string()), "Maya reserved Tesla Model 3");
    assert_eq!(snapshot_payload(82, &"Garage B2".to_string()), "Snapshot captured at 82% battery in Garage B2");
    assert_eq!(telemetry_payload("14.2", 61, false, true), "+14.2 mi, battery 61%");
    assert_eq!(telemetry_payload("0.0", -3, true, true), "+0.0 mi, battery -3%, HARSH BRAKE detected");
    assert_eq!(telemetry_payload("1.5", 70, false, false), "+1.5 mi, battery 70%, GEOFENCE breach");
    assert_eq!(
        telemetry_payload("2.0", 70, true, false),
        "+2.0 mi, battery 70%, HARSH BRAKE detected, GEOFENCE breach"
    );
}

// --- seed -------------------------------------------------------------------

#[test]
fn seed_writes_the_demo_community() {
    let db = seeded();
    assert_eq!(db.community.len(), 1);
    let c = &db.community[&1];
    assert_eq!((c.name.as_str(), c.teslas, c.residents, c.chargers), ("Microsoft Apartments", 3, 14, 2));

    let fleet: Vec<_> = (1..=3)
        .map(|id| {
            let v = &db.vehicles[&id];
            (v.model.as_str(), v.battery, v.location.as_str(), v.status.as_str())
        })
        .collect();
    assert_eq!(
        fleet,
        vec![
            ("Tesla Model 3", 82, "Garage B2", "Available"),
            ("Tesla Model Y", 64, "Garage B1", "Active Trip"),
            ("Tesla Model S", 91, "Charging Stall 1", "Charging"),
        ]
    );
    let people: Vec<_> = (1..=3)
        .map(|id| {
            let r = &db.residents[&id];
            (r.name.as_str(), r.voltscore, r.status.as_str())
        })
        .collect();
    assert_eq!(people, vec![("Franco", 91, "verified"), ("Maya", 84, "verified"), ("Alex", 0, "pending")]);
    assert!(db.trips.is_empty() && db.trip_events.is_empty() && db.telemetry.is_empty());
    assert!(db.ai_recommendations.is_empty());
}

#[test]
fn init_seeds_like_a_reset() {
    let mut db = Ledger::new();
    init(&mut db);
    assert_eq!(snapshot(&db), snapshot(&seeded()));
}

#[test]
fn reset_clears_trips_and_rewrites_the_demo_under_fresh_ids() {
    let mut db = trip_at("TRIP_ACTIVE");
    let first = snapshot(&seeded());
    seed_demo_data(&mut db);
    assert!(db.trips.is_empty() && db.trip_events.is_empty() && db.telemetry.is_empty());
    assert_eq!(db.community.len(), 1);
    let ids: Vec<u64> = {
        let mut ids: Vec<u64> = db.vehicles.keys().copied().collect();
        ids.sort();
        ids
    };
    assert_eq!(ids, vec![4, 5, 6]);
    assert_eq!(db.vehicles[&4].model, "Tesla Model 3");
    assert_eq!(db.vehicles[&4].status, "Available");
    assert_eq!(db.residents[&6].name, "Alex");
    // Resetting twice gives the same rows again, each under the next ids.
    let mut again = seeded();
    seed_demo_data(&mut again);
    assert_eq!(again.vehicles[&5].model, "Tesla Model Y");
    assert_ne!(snapshot(&again), first);
}

// --- reserve_vehicle --------------------------------------------------------

#[test]
fn reserving_runs_check_in_up_to_vehicle_verified() {
    let mut db = seeded();
    assert_eq!(reserve_vehicle(&mut db, at(10), 1, "Franco".to_string()), Ok(()));
    let trip = &db.trips[&1];
    assert_eq!((trip.vehicle_id, trip.renter.as_str(), trip.state.as_str()), (1, "Franco", "VEHICLE_VERIFIED"));
    assert_eq!(trip.created_at, at(10));
    assert_eq!(db.vehicles[&1].status, "Reserved");
    assert_eq!(
        timeline(&db, 1),
        vec![
            ("RESERVED".to_string(), "Franco reserved Tesla Model 3".to_string()),
            ("CHECK_IN_STARTED".to_string(), "Resident started check-in".to_string()),
            ("VEHICLE_VERIFIED".to_string(), "Snapshot captured at 82% battery in Garage B2".to_string()),
        ]
    );
    assert_eq!(db.telemetry.len(), 1);
    let snap = &db.telemetry[&1];
    assert_eq!((snap.trip_id, snap.battery, snap.harsh_brake, snap.geofence_ok), (1, 82, false, true));
    assert_eq!(f32::from_bits(snap.odometer_delta_bits), 0.0);
    // The agent writes the AI content, not the reservation.
    assert!(db.ai_recommendations.is_empty());
}

#[test]
fn reserving_an_unknown_vehicle_is_refused() {
    let mut db = seeded();
    let before = snapshot(&db);
    assert_eq!(reserve_vehicle(&mut db, at(10), 99, "Maya".to_string()), Err("vehicle 99 not found".to_string()));
    assert_eq!(snapshot(&db), before);
}

#[test]
fn reserving_a_vehicle_that_is_not_available_is_refused() {
    let mut db = seeded();
    let before = snapshot(&db);
    assert_eq!(
        reserve_vehicle(&mut db, at(10), 2, "Maya".to_string()),
        Err("vehicle Tesla Model Y is not available (status: Active Trip)".to_string())
    );
    assert_eq!(
        reserve_vehicle(&mut db, at(10), 3, "Maya".to_string()),
        Err("vehicle Tesla Model S is not available (status: Charging)".to_string())
    );
    assert_eq!(snapshot(&db), before);
}

#[test]
fn a_vehicle_cannot_be_booked_twice() {
    let mut db = trip_at("VEHICLE_VERIFIED");
    let before = snapshot(&db);
    assert_eq!(
        reserve_vehicle(&mut db, at(11), 1, "Maya".to_string()),
        Err("vehicle Tesla Model 3 is not available (status: Reserved)".to_string())
    );
    assert_eq!(snapshot(&db), before);
}

// --- approve_unlock ---------------------------------------------------------

#[test]
fn approving_activates_the_trip() {
    let mut db = trip_at("VEHICLE_VERIFIED");
    assert_eq!(approve_unlock(&mut db, at(20), 1), Ok(()));
    assert_eq!(state_of(&db, 1), "TRIP_ACTIVE");
    assert_eq!(db.vehicles[&1].status, "Active Trip");
    let tl = timeline(&db, 1);
    assert_eq!(
        tl[3..].to_vec(),
        vec![
            ("UNLOCK_GRANTED".to_string(), "Owner approved unlock".to_string()),
            ("TRIP_ACTIVE".to_string(), "Trip is now active".to_string()),
        ]
    );
}

#[test]
fn approving_an_unknown_trip_is_refused() {
    let mut db = seeded();
    let before = snapshot(&db);
    assert_eq!(approve_unlock(&mut db, at(20), 5), Err("trip 5 not found".to_string()));
    assert_eq!(snapshot(&db), before);
}

#[test]
fn approving_twice_is_an_illegal_transition() {
    let mut db = trip_at("TRIP_ACTIVE");
    let before = snapshot(&db);
    assert_eq!(
        approve_unlock(&mut db, at(21), 1),
        Err("illegal transition: trip 1 is in state TRIP_ACTIVE, expected VEHICLE_VERIFIED".to_string())
    );
    assert_eq!(snapshot(&db), before);
}

// --- push_telemetry ---------------------------------------------------------

#[test]
fn telemetry_updates_the_live_battery_and_the_timeline() {
    let mut db = trip_at("TRIP_ACTIVE");
    let odometer: f32 = 3.5;
    assert_eq!(
        push_telemetry(&mut db, at(25), 1, 75, odometer.to_bits(), &format!("{odometer:.1}"), true, false),
        Ok(())
    );
    assert_eq!(db.vehicles[&1].battery, 75);
    assert_eq!(db.telemetry.len(), 2);
    let row = &db.telemetry[&2];
    assert_eq!((row.trip_id, row.battery, row.harsh_brake, row.geofence_ok), (1, 75, true, false));
    assert_eq!(f32::from_bits(row.odometer_delta_bits), 3.5);
    assert_eq!(
        timeline(&db, 1).last().unwrap(),
        &("TELEMETRY".to_string(), "+3.5 mi, battery 75%, HARSH BRAKE detected, GEOFENCE breach".to_string())
    );
    assert_eq!(state_of(&db, 1), "TRIP_ACTIVE");
}

#[test]
fn telemetry_before_the_trip_is_active_is_refused() {
    let mut db = trip_at("VEHICLE_VERIFIED");
    let before = snapshot(&db);
    assert_eq!(
        push_telemetry(&mut db, at(25), 1, 75, 0, "0.0", false, true),
        Err("illegal transition: trip 1 is in state VEHICLE_VERIFIED, expected TRIP_ACTIVE".to_string())
    );
    assert_eq!(push_telemetry(&mut db, at(25), 9, 75, 0, "0.0", false, true), Err("trip 9 not found".to_string()));
    assert_eq!(snapshot(&db), before);
}

// --- start_return -----------------------------------------------------------

#[test]
fn starting_the_return_waits_for_the_agent() {
    let mut db = trip_at("TRIP_ACTIVE");
    assert_eq!(start_return(&mut db, at(30), 1), Ok(()));
    assert_eq!(state_of(&db, 1), "AI_REVIEWING");
    let tl = timeline(&db, 1);
    assert_eq!(
        tl[tl.len() - 2..].to_vec(),
        vec![
            ("RETURN_STARTED".to_string(), "Resident started return".to_string()),
            ("AI_REVIEWING".to_string(), "Awaiting AI Trust Agent closeout".to_string()),
        ]
    );
    assert!(db.ai_recommendations.is_empty());
    assert_eq!(db.vehicles[&1].status, "Active Trip");
}

#[test]
fn starting_a_return_out_of_order_is_refused() {
    let mut db = trip_at("VEHICLE_VERIFIED");
    let before = snapshot(&db);
    assert_eq!(
        start_return(&mut db, at(30), 1),
        Err("illegal transition: trip 1 is in state VEHICLE_VERIFIED, expected TRIP_ACTIVE".to_string())
    );
    assert_eq!(start_return(&mut db, at(30), 2), Err("trip 2 not found".to_string()));
    assert_eq!(snapshot(&db), before);
}

// --- ai_write_recommendation ------------------------------------------------

#[test]
fn the_agent_writes_an_unlock_recommendation_once() {
    let mut db = trip_at("VEHICLE_VERIFIED");
    assert_eq!(
        ai_write_recommendation(&mut db, at(12), 1, "unlock".to_string(), "APPROVE".to_string(), "Franco is verified".to_string()),
        Ok(())
    );
    assert_eq!(db.ai_recommendations.len(), 1);
    let rec = &db.ai_recommendations[&1];
    assert_eq!((rec.trip_id, rec.kind.as_str(), rec.verdict.as_str(), rec.body.as_str()), (1, "unlock", "APPROVE", "Franco is verified"));
    assert_eq!(rec.created_at, at(12));
    assert_eq!(
        timeline(&db, 1).last().unwrap(),
        &("AI_UNLOCK_RECOMMENDATION".to_string(), "AI Trust Agent wrote a recommendation into SpacetimeDB".to_string())
    );
    // A second write of the same kind, by the owner-side fallback, is a no-op.
    let before = snapshot(&db);
    assert_eq!(
        ai_write_recommendation(&mut db, at(13), 1, "unlock".to_string(), "REVIEW".to_string(), "other".to_string()),
        Ok(())
    );
    assert_eq!(snapshot(&db), before);
}

#[test]
fn other_recommendation_kinds_get_the_generic_event() {
    let mut db = trip_at("TRIP_ACTIVE");
    assert_eq!(
        ai_write_recommendation(&mut db, at(22), 1, "risk".to_string(), "REVIEW".to_string(), "late night".to_string()),
        Ok(())
    );
    assert_eq!(
        timeline(&db, 1).last().unwrap(),
        &("AI_RECOMMENDATION".to_string(), "AI Trust Agent wrote a recommendation into SpacetimeDB".to_string())
    );
    // Each kind is kept once per trip, whatever the trip's state.
    assert_eq!(
        ai_write_recommendation(&mut db, at(23), 1, "unlock".to_string(), "APPROVE".to_string(), "ok".to_string()),
        Ok(())
    );
    assert_eq!(db.ai_recommendations.len(), 2);
}

#[test]
fn recommendations_for_unknown_trips_are_refused() {
    let mut db = seeded();
    let before = snapshot(&db);
    assert_eq!(
        ai_write_recommendation(&mut db, at(12), 4, "unlock".to_string(), "APPROVE".to_string(), "x".to_string()),
        Err("trip 4 not found".to_string())
    );
    assert_eq!(snapshot(&db), before);
}

// --- generate_closeout ------------------------------------------------------

#[test]
fn the_closeout_closes_the_trip_and_frees_the_vehicle() {
    let mut db = trip_at("AI_REVIEWING");
    assert_eq!(
        generate_closeout(&mut db, at(40), 1, "CLEAN_CLOSE".to_string(), "Returned clean".to_string()),
        Ok(())
    );
    assert_eq!(state_of(&db, 1), "CLOSED");
    assert_eq!(db.vehicles[&1].status, "Available");
    let rec = db.ai_recommendations.values().next().unwrap();
    assert_eq!((rec.kind.as_str(), rec.verdict.as_str(), rec.body.as_str()), ("closeout", "CLEAN_CLOSE", "Returned clean"));
    let tl = timeline(&db, 1);
    assert_eq!(
        tl[tl.len() - 2..].to_vec(),
        vec![
            ("AI_CLOSEOUT".to_string(), "AI Trust Agent wrote closeout report into SpacetimeDB".to_string()),
            ("CLOSED".to_string(), "Trip closed".to_string()),
        ]
    );
    // A second closeout is a no-op that succeeds.
    let before = snapshot(&db);
    assert_eq!(generate_closeout(&mut db, at(41), 1, "REVIEW".to_string(), "again".to_string()), Ok(()));
    assert_eq!(snapshot(&db), before);
}

#[test]
fn a_closeout_before_review_is_refused() {
    let mut db = trip_at("TRIP_ACTIVE");
    let before = snapshot(&db);
    assert_eq!(
        generate_closeout(&mut db, at(40), 1, "CLEAN_CLOSE".to_string(), "x".to_string()),
        Err("illegal transition: trip 1 is in state TRIP_ACTIVE, expected AI_REVIEWING".to_string())
    );
    assert_eq!(generate_closeout(&mut db, at(40), 8, "CLEAN_CLOSE".to_string(), "x".to_string()), Err("trip 8 not found".to_string()));
    assert_eq!(snapshot(&db), before);
}

#[test]
fn a_closed_trip_stays_closed() {
    let mut db = trip_at("AI_REVIEWING");
    generate_closeout(&mut db, at(40), 1, "CLEAN_CLOSE".to_string(), "ok".to_string()).unwrap();
    let before = snapshot(&db);
    assert!(approve_unlock(&mut db, at(50), 1).is_err());
    assert!(start_return(&mut db, at(50), 1).is_err());
    assert!(push_telemetry(&mut db, at(50), 1, 50, 0, "0.0", false, true).is_err());
    assert_eq!(snapshot(&db), before);
    assert_eq!(state_of(&db, 1), "CLOSED");
}

// --- the whole Trip Room ----------------------------------------------------

#[test]
fn the_demo_trip_from_reservation_to_closeout() {
    let mut db = seeded();
    reserve_vehicle(&mut db, at(1), 1, "Maya".to_string()).unwrap();
    assert_eq!(state_of(&db, 1), "VEHICLE_VERIFIED");
    ai_write_recommendation(&mut db, at(2), 1, "unlock".to_string(), "APPROVE".to_string(), "VoltScore 84".to_string()).unwrap();
    approve_unlock(&mut db, at(3), 1).unwrap();
    assert_eq!(db.vehicles[&1].status, "Active Trip");
    for (i, (battery, odometer, harsh)) in [(75, 4.1f32, false), (68, 9.8, true), (61, 14.2, false)].into_iter().enumerate() {
        push_telemetry(&mut db, at(4 + i as i64), 1, battery, odometer.to_bits(), &format!("{odometer:.1}"), harsh, true)
            .unwrap();
    }
    assert_eq!(db.vehicles[&1].battery, 61);
    start_return(&mut db, at(10), 1).unwrap();
    generate_closeout(&mut db, at(11), 1, "REVIEW".to_string(), "One harsh brake".to_string()).unwrap();
    assert_eq!(state_of(&db, 1), "CLOSED");
    assert_eq!(db.vehicles[&1].status, "Available");
    assert_eq!(db.telemetry.len(), 4);
    assert_eq!(db.ai_recommendations.len(), 2);
    let kinds: Vec<String> = timeline(&db, 1).into_iter().map(|(k, _)| k).collect();
    assert_eq!(
        kinds,
        vec![
            "RESERVED", "CHECK_IN_STARTED", "VEHICLE_VERIFIED", "AI_UNLOCK_RECOMMENDATION", "UNLOCK_GRANTED",
            "TRIP_ACTIVE", "TELEMETRY", "TELEMETRY", "TELEMETRY", "RETURN_STARTED", "AI_REVIEWING", "AI_CLOSEOUT",
            "CLOSED",
        ]
    );
    assert_eq!(timeline(&db, 1)[7].1, "+9.8 mi, battery 68%, HARSH BRAKE detected");
    // The freed vehicle can be reserved again.
    assert_eq!(reserve_vehicle(&mut db, at(12), 1, "Alex".to_string()), Ok(()));
    assert_eq!(state_of(&db, 2), "VEHICLE_VERIFIED");
}

#[test]
fn history_only_grows_across_a_trip() {
    let mut db = trip_at("TRIP_ACTIVE");
    let events_before: Vec<_> = timeline(&db, 1);
    push_telemetry(&mut db, at(25), 1, 70, 0, "0.0", false, true).unwrap();
    start_return(&mut db, at(30), 1).unwrap();
    let events_after = timeline(&db, 1);
    assert_eq!(events_after[..events_before.len()].to_vec(), events_before);
    assert_eq!(db.residents.len(), 3);
    assert_eq!(db.community.len(), 1);
}

#[test]
fn connecting_and_disconnecting_change_nothing() {
    let mut db = trip_at("TRIP_ACTIVE");
    let before = snapshot(&db);
    identity_connected(&mut db);
    identity_disconnected(&mut db);
    assert_eq!(snapshot(&db), before);
}

// --- loading the tables ------------------------------------------------------

fn vehicle(id: u64, status: &str) -> Vehicle {
    Vehicle { id, model: "Tesla Model 3".to_string(), battery: 50, location: "Garage".to_string(), status: status.to_string() }
}

#[test]
fn a_table_resumes_its_sequence_after_the_largest_id() {
    let (m, next) = table_from_rows(vec![vehicle(3, "Available"), vehicle(9, "Charging"), vehicle(4, "Available")]).unwrap();
    assert_eq!(m.len(), 3);
    assert_eq!(m[&9].status, "Charging");
    assert_eq!(next, 10);
    let (m, next) = table_from_rows(Vec::<Vehicle>::new()).unwrap();
    assert!(m.is_empty());
    assert_eq!(next, 1);
}

#[test]
fn a_table_with_a_repeated_or_final_id_is_refused() {
    assert!(table_from_rows(vec![vehicle(3, "Available"), vehicle(3, "Charging")]).is_none());
    assert!(table_from_rows(vec![vehicle(u64::MAX, "Available")]).is_none());
}

#[test]
fn a_loaded_ledger_runs_the_reducers() {
    let trips = vec![Trip {
        id: 7,
        vehicle_id: 3,
        renter: "Franco".to_string(),
        state: "VEHICLE_VERIFIED".to_string(),
        created_at: at(1),
    }];
    let residents = vec![Resident { id: 1, name: "Franco".to_string(), voltscore: 91, status: "verified".to_string() }];
    let community = vec![Community { id: 1, name: "Microsoft Apartments".to_string(), teslas: 3, residents: 14, chargers: 2 }];
    let mut db =
        Ledger::load(vec![vehicle(3, "Reserved")], residents, trips, vec![], vec![], vec![], community, fresh()).unwrap();
    assert_eq!(db.next_trip_id, 8);
    assert_eq!(db.next_event_id, 1);
    approve_unlock(&mut db, at(2), 7).unwrap();
    assert_eq!(state_of(&db, 7), "TRIP_ACTIVE");
    assert_eq!(db.vehicles[&3].status, "Active Trip");
    assert!(Ledger::load(
        vec![vehicle(3, "Reserved"), vehicle(3, "Available")],
        vec![],
        vec![],
        vec![],
        vec![],
        vec![],
        vec![],
        fresh()
    )
    .is_none());
}

fn fresh() -> Sequences {
    Sequences { vehicles: 1, residents: 1, trips: 1, trip_events: 1, telemetry: 1, ai_recommendations: 1 }
}

/// The rows of a ledger, moved out, for loading again.
fn reload(db: Ledger) -> Ledger {
    let sequences = db.sequences();
    Ledger::load(
        db.vehicles.into_values().collect(),
        db.residents.into_values().collect(),
        db.trips.into_values().collect(),
        db.trip_events.into_values().collect(),
        db.telemetry.into_values().collect(),
        db.ai_recommendations.into_values().collect(),
        db.community.into_values().collect(),
        sequences,
    )
    .unwrap()
}

#[test]
fn kept_sequences_go_on_after_a_reset() {
    let mut db = trip_at("TRIP_ACTIVE");
    seed_demo_data(&mut db);
    let mut db = reload(db);
    // Ids handed out before the reset are not handed out again.
    assert_eq!((db.next_trip_id, db.next_event_id, db.next_telemetry_id), (2, 6, 2));
    assert_eq!(db.next_vehicle_id, 7);
    reserve_vehicle(&mut db, at(60), 4, "Maya".to_string()).unwrap();
    assert!(db.trips.contains_key(&2));
    let mut ids: Vec<u64> = db.trip_events.keys().copied().collect();
    ids.sort();
    assert_eq!(ids, vec![6, 7, 8]);
}

#[test]
fn a_sequence_goes_on_from_the_further_of_its_kept_value_and_the_rows() {
    let kept = Sequences { vehicles: 20, residents: 1, trips: 1, trip_events: 1, telemetry: 1, ai_recommendations: 1 };
    let db = Ledger::load(vec![vehicle(3, "Available")], vec![], vec![], vec![], vec![], vec![], vec![], kept).unwrap();
    assert_eq!(db.next_vehicle_id, 20);
    let kept = Sequences { vehicles: 2, residents: 0, trips: 1, trip_events: 1, telemetry: 1, ai_recommendations: 1 };
    let db = Ledger::load(vec![vehicle(9, "Available")], vec![], vec![], vec![], vec![], vec![], vec![], kept).unwrap();
    assert_eq!((db.next_vehicle_id, db.next_resident_id), (10, 1));
}

/// Each vehicle is held by at most one open trip, and never while Available.
fn fleet_consistent(db: &Ledger) -> bool {
    let open: Vec<&Trip> = db.trips.values().filter(|t| t.state != "CLOSED").collect();
    let mut held: Vec<u64> = open.iter().map(|t| t.vehicle_id).collect();
    held.sort();
    let before = held.len();
    held.dedup();
    held.len() == before
        && open.iter().all(|t| db.vehicles.get(&t.vehicle_id).map_or(true, |v| v.status != "Available"))
}

#[test]
fn the_fleet_stays_consistent_through_a_trip_and_a_second_one() {
    let mut db = seeded();
    assert!(fleet_consistent(&db));
    reserve_vehicle(&mut db, at(1), 1, "Franco".to_string()).unwrap();
    assert!(fleet_consistent(&db));
    assert!(reserve_vehicle(&mut db, at(2), 1, "Maya".to_string()).is_err());
    approve_unlock(&mut db, at(3), 1).unwrap();
    assert!(fleet_consistent(&db));
    start_return(&mut db, at(4), 1).unwrap();
    assert!(fleet_consistent(&db));
    generate_closeout(&mut db, at(5), 1, "CLEAN_CLOSE".to_string(), "ok".to_string()).unwrap();
    assert!(fleet_consistent(&db));
    reserve_vehicle(&mut db, at(6), 1, "Maya".to_string()).unwrap();
    assert!(fleet_consistent(&db));
    assert_eq!(db.trips.len(), 2);
}

#[test]
fn a_reset_forgets_what_came_before() {
    let mut a = Ledger::new();
    let mut b = Ledger::new();
    b.vehicles.insert(0, vehicle(0, "Reserved"));
    b.community.insert(9, Community { id: 9, name: "Elsewhere".to_string(), teslas: 1, residents: 1, chargers: 1 });
    seed_demo_data(&mut a);
    seed_demo_data(&mut b);
    assert_eq!(snapshot(&a), snapshot(&b));
}

#[test]
fn the_ledger_starts_empty() {
    let db = Ledger::new();
    assert!(db.vehicles.is_empty() && db.residents.is_empty() && db.trips.is_empty());
    assert!(db.trip_events.is_empty() && db.telemetry.is_empty() && db.ai_recommendations.is_empty());
    assert!(db.community.is_empty());
    assert_eq!(
        (db.next_vehicle_id, db.next_resident_id, db.next_trip_id, db.next_event_id, db.next_telemetry_id, db.next_recommendation_id),
        (1, 1, 1, 1, 1, 1)
    );
}

#[test]
fn a_telemetry_stream_writes_one_row_and_one_event_per_reading() {
    let mut db = trip_at("TRIP_ACTIVE");
    let rows_before = db.telemetry.len();
    let events_before = db.trip_events.len();
    let first_row = db.next_telemetry_id;
    let readings = [(80, 1.0f32, false, true), (72, 5.5, true, true), (66, 9.0, false, false), (61, 14.2, false, true)];
    for (i, (battery, odometer, harsh, geofence)) in readings.into_iter().enumerate() {
        let r = push_telemetry(&mut db, at(100 + i as i64), 1, battery, odometer.to_bits(), &format!("{odometer:.1}"), harsh, geofence);
        assert_eq!(r, Ok(()));
    }
    assert_eq!(db.telemetry.len(), rows_before + 4);
    assert_eq!(db.trip_events.len(), events_before + 4);
    for (i, (battery, odometer, harsh, geofence)) in readings.into_iter().enumerate() {
        let row = &db.telemetry[&(first_row + i as u64)];
        assert_eq!((row.trip_id, row.battery, row.harsh_brake, row.geofence_ok), (1, battery, harsh, geofence));
        assert_eq!(f32::from_bits(row.odometer_delta_bits), odometer);
        assert_eq!(row.timestamp, at(100 + i as i64));
    }
    let tl = timeline(&db, 1);
    assert_eq!(tl[tl.len() - 2].1, "+9.0 mi, battery 66%, GEOFENCE breach");
    assert_eq!(tl[tl.len() - 1].1, "+14.2 mi, battery 61%");
    assert_eq!(db.vehicles[&1].battery, 61);
    assert_eq!(state_of(&db, 1), "TRIP_ACTIVE");
}

#[test]
fn a_community_row_may_sit_under_any_id() {
    let community = vec![Community { id: u64::MAX, name: "Microsoft Apartments".to_string(), teslas: 3, residents: 14, chargers: 2 }];
    let trips = vec![Trip { id: 1, vehicle_id: 3, renter: "Maya".to_string(), state: "VEHICLE_VERIFIED".to_string(), created_at: at(1) }];
    let mut db =
        Ledger::load(vec![vehicle(3, "Reserved")], vec![], trips, vec![], vec![], vec![], community, fresh()).unwrap();
    assert_eq!(db.community[&u64::MAX].name, "Microsoft Apartments");
    assert_eq!(approve_unlock(&mut db, at(2), 1), Ok(()));
    assert!(keyed_table(vec![
        Community { id: 4, name: "a".to_string(), teslas: 0, residents: 0, chargers: 0 },
        Community { id: 4, name: "b".to_string(), teslas: 0, residents: 0, chargers: 0 },
    ])
    .is_none());
}

#[test]
fn rows_can_be_cloned() {
    let db = trip_at("VEHICLE_VERIFIED");
    let trip = db.trips[&1].clone();
    assert_eq!((trip.id, trip.renter.as_str(), trip.state.as_str(), trip.created_at), (1, "Franco", "VEHICLE_VERIFIED", at(10)));
    let event = db.trip_events[&1].clone();
    assert_eq!((event.kind.as_str(), event.timestamp), ("RESERVED", at(10)));
    let row = db.telemetry[&1].clone();
    assert_eq!(row.battery, 82);
    let v = db.vehicles[&1].clone();
    assert_eq!(v.status, "Reserved");
}
