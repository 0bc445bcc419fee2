//! What each reducer does, stated directly over the ledger before and after: which requests
//! it accepts, by the trip's or vehicle's state alone, and which rows it writes, for whom.

use vstd::prelude::*;

use crate::laws::lemma_state_ranks;
use crate::ledger::LedgerView;
use crate::messages::{illegal_transition_text, trip_not_found_text, vehicle_not_found_text, vehicle_unavailable_text};
use crate::reducers::{
    ai_write_recommendation_spec, approve_unlock_spec, generate_closeout_spec, push_telemetry_spec,
    reserve_vehicle_spec, start_return_spec,
};
use crate::rows::{AiRecommendationView, TelemetryView, TripEventView, TripView, VehicleView};
use crate::state::{ACTIVE_TRIP, AI_REVIEWING, AVAILABLE, CLOSED, RESERVED_STATUS, TRIP_ACTIVE, VEHICLE_VERIFIED};

verus! {

/// No recommendation of this kind has been stored for this trip, whatever other trips hold.
pub open spec fn no_row_for(pre: LedgerView, trip_id: u64, kind: Seq<char>) -> bool {
    forall|k: u64| #[trigger] pre.ai_recommendations.contains_key(k)
        ==> !(pre.ai_recommendations[k].trip_id == trip_id && pre.ai_recommendations[k].kind == kind)
}

/// Each reducer that moves a trip accepts the request only in the one state it moves the trip
/// from: push_telemetry and start_return only from TRIP_ACTIVE, approve_unlock only from
/// VEHICLE_VERIFIED, generate_closeout (for a trip not yet closed out) only from AI_REVIEWING.
/// In any other state the answer is the illegal-transition error naming the trip's state and
/// the expected one, and the ledger is left as it was; an unknown trip is answered as not found.
pub proof fn law_transitions_start_from_one_state(
    pre: LedgerView,
    now: spacetimedb::Timestamp,
    trip_id: u64,
    battery: i32,
    odometer_delta_bits: u32,
    odometer_label: Seq<char>,
    harsh_brake: bool,
    geofence_ok: bool,
    verdict: Seq<char>,
    body: Seq<char>,
)
    ensures
        !pre.trips.contains_key(trip_id) ==> {
            &&& push_telemetry_spec(pre, now, trip_id, battery, odometer_delta_bits, odometer_label, harsh_brake, geofence_ok)
                == (pre, Err::<(), Seq<char>>(trip_not_found_text(trip_id)))
            &&& start_return_spec(pre, now, trip_id) == (pre, Err::<(), Seq<char>>(trip_not_found_text(trip_id)))
            &&& approve_unlock_spec(pre, now, trip_id) == (pre, Err::<(), Seq<char>>(trip_not_found_text(trip_id)))
            &&& generate_closeout_spec(pre, now, trip_id, verdict, body) == (pre, Err::<(), Seq<char>>(trip_not_found_text(trip_id)))
        },
        pre.trips.contains_key(trip_id) && pre.trips[trip_id].state != TRIP_ACTIVE@ ==> {
            let t = pre.trips[trip_id];
            &&& push_telemetry_spec(pre, now, trip_id, battery, odometer_delta_bits, odometer_label, harsh_brake, geofence_ok)
                == (pre, Err::<(), Seq<char>>(illegal_transition_text(t.id, t.state, TRIP_ACTIVE@)))
            &&& start_return_spec(pre, now, trip_id) == (pre, Err::<(), Seq<char>>(
                illegal_transition_text(t.id, t.state, TRIP_ACTIVE@),
            ))
        },
        pre.trips.contains_key(trip_id) && pre.trips[trip_id].state != VEHICLE_VERIFIED@ ==> approve_unlock_spec(
            pre,
            now,
            trip_id,
        ) == (pre, Err::<(), Seq<char>>(
            illegal_transition_text(pre.trips[trip_id].id, pre.trips[trip_id].state, VEHICLE_VERIFIED@),
        )),
        pre.trips.contains_key(trip_id) && no_row_for(pre, trip_id, "closeout"@) && pre.trips[trip_id].state
            != AI_REVIEWING@ ==> generate_closeout_spec(pre, now, trip_id, verdict, body) == (
            pre,
            Err::<(), Seq<char>>(illegal_transition_text(pre.trips[trip_id].id, pre.trips[trip_id].state, AI_REVIEWING@)),
        ),
{
}

/// A return is started once: right after a successful start_return, the trip is in
/// AI_REVIEWING and a second start_return is refused as an illegal transition from it,
/// changing nothing.
pub proof fn law_return_starts_once(
    pre: LedgerView,
    now: spacetimedb::Timestamp,
    later: spacetimedb::Timestamp,
    trip_id: u64,
)
    ensures
        ({
            let (post, r) = start_return_spec(pre, now, trip_id);
            r is Ok ==> {
                &&& post.trips[trip_id].state == AI_REVIEWING@
                &&& start_return_spec(post, later, trip_id) == (
                    post,
                    Err::<(), Seq<char>>(illegal_transition_text(pre.trips[trip_id].id, AI_REVIEWING@, TRIP_ACTIVE@)),
                )
            }
        }),
{
    lemma_state_ranks();
}

/// A reading pushed for an active trip is accepted, and belongs to that trip: one new
/// telemetry row holds exactly the values pushed, the trip's vehicle (where it exists) takes
/// the pushed battery and keeps the rest, and the trip stays as it was.
pub proof fn law_reading_for_an_active_trip(
    pre: LedgerView,
    now: spacetimedb::Timestamp,
    trip_id: u64,
    battery: i32,
    odometer_delta_bits: u32,
    odometer_label: Seq<char>,
    harsh_brake: bool,
    geofence_ok: bool,
)
    requires
        pre.wf(),
        pre.trips.contains_key(trip_id),
        pre.trips[trip_id].state == TRIP_ACTIVE@,
    ensures
        ({
            let (post, r) = push_telemetry_spec(pre, now, trip_id, battery, odometer_delta_bits, odometer_label, harsh_brake, geofence_ok);
            let v = pre.trips[trip_id].vehicle_id;
            &&& r is Ok
            &&& post.trips == pre.trips
            &&& exists|k: u64| #[trigger] post.telemetry.contains_key(k) && !pre.telemetry.contains_key(k)
                && post.telemetry[k] == (TelemetryView {
                    id: k,
                    trip_id,
                    battery,
                    odometer_delta_bits,
                    harsh_brake,
                    geofence_ok,
                    timestamp: now,
                })
            &&& pre.vehicles.contains_key(v) ==> post.vehicles[v] == (VehicleView { battery, ..pre.vehicles[v] })
        }),
{
    let k = pre.next_telemetry_id;
    assert(!pre.telemetry.contains_key(k));
    let post = push_telemetry_spec(pre, now, trip_id, battery, odometer_delta_bits, odometer_label, harsh_brake, geofence_ok).0;
    assert(post.telemetry.contains_key(k));
}

/// Recommendations are kept per trip: for a trip that has no recommendation of this kind,
/// whatever other trips hold, the agent's write is accepted and stores a new row with exactly
/// this trip, kind, verdict and body. The timeline event it logs for the trip is
/// AI_UNLOCK_RECOMMENDATION when the kind is "unlock" and AI_RECOMMENDATION for any other
/// kind, whatever the verdict; no other event is added or changed.
pub proof fn law_recommendations_are_per_trip(
    pre: LedgerView,
    now: spacetimedb::Timestamp,
    trip_id: u64,
    kind: Seq<char>,
    verdict: Seq<char>,
    body: Seq<char>,
)
    requires
        pre.wf(),
        pre.trips.contains_key(trip_id),
        no_row_for(pre, trip_id, kind),
    ensures
        ({
            let (post, r) = ai_write_recommendation_spec(pre, now, trip_id, kind, verdict, body);
            &&& r is Ok
            &&& post.trips == pre.trips
            &&& exists|k: u64| #[trigger] post.ai_recommendations.contains_key(k) && !pre.ai_recommendations.contains_key(k)
                && post.ai_recommendations[k] == (AiRecommendationView {
                    id: k,
                    trip_id,
                    kind,
                    verdict,
                    body,
                    created_at: now,
                })
            &&& exists|e: u64| #[trigger] post.trip_events.contains_key(e) && !pre.trip_events.contains_key(e)
                && post.trip_events[e] == (TripEventView {
                    id: e,
                    trip_id,
                    kind: if kind == "unlock"@ { "AI_UNLOCK_RECOMMENDATION"@ } else { "AI_RECOMMENDATION"@ },
                    payload: "AI Trust Agent wrote a recommendation into SpacetimeDB"@,
                    timestamp: now,
                })
                && forall|k: u64| #[trigger] post.trip_events.contains_key(k) && k != e
                    ==> pre.trip_events.contains_key(k) && post.trip_events[k] == pre.trip_events[k]
        }),
{
    let post = ai_write_recommendation_spec(pre, now, trip_id, kind, verdict, body).0;
    let k = pre.next_recommendation_id;
    assert(!pre.ai_recommendations.contains_key(k));
    assert(post.ai_recommendations.contains_key(k));
    let e = pre.next_event_id;
    assert(!pre.trip_events.contains_key(e));
    assert(post.trip_events.contains_key(e));
}

/// A closeout is kept per trip: a trip under review that has no closeout of its own, whatever
/// closeouts other trips have, is closed by the agent's closeout. The answer is Ok, a new
/// closeout row holds this trip's verdict and body, the trip is CLOSED with its other fields
/// kept, and its vehicle (where it exists) is Available again with its other fields kept.
pub proof fn law_closeout_closes_its_own_trip(
    pre: LedgerView,
    now: spacetimedb::Timestamp,
    trip_id: u64,
    verdict: Seq<char>,
    body: Seq<char>,
)
    requires
        pre.wf(),
        pre.trips.contains_key(trip_id),
        pre.trips[trip_id].state == AI_REVIEWING@,
        no_row_for(pre, trip_id, "closeout"@),
    ensures
        ({
            let (post, r) = generate_closeout_spec(pre, now, trip_id, verdict, body);
            let v = pre.trips[trip_id].vehicle_id;
            &&& r is Ok
            &&& post.trips[trip_id] == (TripView { state: CLOSED@, ..pre.trips[trip_id] })
            &&& pre.vehicles.contains_key(v) ==> post.vehicles[v] == (VehicleView { status: AVAILABLE@, ..pre.vehicles[v] })
            &&& exists|k: u64| #[trigger] post.ai_recommendations.contains_key(k) && !pre.ai_recommendations.contains_key(k)
                && post.ai_recommendations[k] == (AiRecommendationView {
                    id: k,
                    trip_id,
                    kind: "closeout"@,
                    verdict,
                    body,
                    created_at: now,
                })
        }),
{
    let post = generate_closeout_spec(pre, now, trip_id, verdict, body).0;
    let k = pre.next_recommendation_id;
    assert(!pre.ai_recommendations.contains_key(k));
    assert(post.ai_recommendations.contains_key(k));
}

/// A reservation of an Available vehicle opens a new trip for it, under an id no trip had,
/// at VEHICLE_VERIFIED, for this renter, at this time; the vehicle becomes Reserved with its
/// other fields kept, and the check-in snapshot is a new telemetry row of the new trip, with
/// the vehicle's battery, no distance, no harsh brake and the geofence kept. A vehicle that is
/// missing or not Available is refused, and nothing changes.
pub proof fn law_reservation_opens_a_trip_with_its_snapshot(
    pre: LedgerView,
    now: spacetimedb::Timestamp,
    vehicle_id: u64,
    renter: Seq<char>,
)
    requires
        pre.wf(),
    ensures
        !pre.vehicles.contains_key(vehicle_id) ==> reserve_vehicle_spec(pre, now, vehicle_id, renter) == (
            pre,
            Err::<(), Seq<char>>(vehicle_not_found_text(vehicle_id)),
        ),
        pre.vehicles.contains_key(vehicle_id) && pre.vehicles[vehicle_id].status != AVAILABLE@
            ==> reserve_vehicle_spec(pre, now, vehicle_id, renter) == (
            pre,
            Err::<(), Seq<char>>(vehicle_unavailable_text(pre.vehicles[vehicle_id].model, pre.vehicles[vehicle_id].status)),
        ),
        pre.vehicles.contains_key(vehicle_id) && pre.vehicles[vehicle_id].status == AVAILABLE@ ==> ({
            let (post, r) = reserve_vehicle_spec(pre, now, vehicle_id, renter);
            let v = pre.vehicles[vehicle_id];
            &&& r is Ok
            &&& post.vehicles[vehicle_id] == (VehicleView { status: RESERVED_STATUS@, ..v })
            &&& exists|t: u64| #[trigger] post.trips.contains_key(t) && !pre.trips.contains_key(t)
                && post.trips[t] == (TripView { id: t, vehicle_id, renter, state: VEHICLE_VERIFIED@, created_at: now })
                && (forall|k: u64| #[trigger] post.trips.contains_key(k) && k != t ==> pre.trips.contains_key(k)
                    && post.trips[k] == pre.trips[k])
                && exists|k: u64| #[trigger] post.telemetry.contains_key(k) && !pre.telemetry.contains_key(k)
                    && post.telemetry[k] == (TelemetryView {
                        id: k,
                        trip_id: t,
                        battery: v.battery,
                        odometer_delta_bits: 0,
                        harsh_brake: false,
                        geofence_ok: true,
                        timestamp: now,
                    })
        }),
{
    let (post, r) = reserve_vehicle_spec(pre, now, vehicle_id, renter);
    let t = pre.next_trip_id;
    let k = pre.next_telemetry_id;
    assert(!pre.trips.contains_key(t));
    assert(!pre.telemetry.contains_key(k));
    if pre.vehicles.contains_key(vehicle_id) && pre.vehicles[vehicle_id].status == AVAILABLE@ {
        assert(post.trips.contains_key(t));
        assert(post.telemetry.contains_key(k));
    }
}

/// An approval of a verified trip is accepted: the trip becomes TRIP_ACTIVE with its other
/// fields kept, its vehicle (where it exists) goes on an Active Trip with its other fields
/// kept, no other trip changes, and no AI content is written.
pub proof fn law_approval_activates_the_trip(pre: LedgerView, now: spacetimedb::Timestamp, trip_id: u64)
    requires
        pre.trips.contains_key(trip_id),
        pre.trips[trip_id].state == VEHICLE_VERIFIED@,
    ensures
        ({
            let (post, r) = approve_unlock_spec(pre, now, trip_id);
            let v = pre.trips[trip_id].vehicle_id;
            &&& r is Ok
            &&& post.trips[trip_id] == (TripView { state: TRIP_ACTIVE@, ..pre.trips[trip_id] })
            &&& forall|k: u64| #[trigger] pre.trips.contains_key(k) && k != trip_id ==> post.trips.contains_key(k)
                && post.trips[k] == pre.trips[k]
            &&& post.trips.dom() == pre.trips.dom()
            &&& pre.vehicles.contains_key(v) ==> post.vehicles[v] == (VehicleView { status: ACTIVE_TRIP@, ..pre.vehicles[v] })
            &&& post.ai_recommendations == pre.ai_recommendations
        }),
{
    let post = approve_unlock_spec(pre, now, trip_id).0;
    assert(post.trips.dom() =~= pre.trips.dom());
}

/// Starting the return of an active trip is accepted: the trip moves to AI_REVIEWING with
/// its other fields kept, no other trip changes, the vehicles stay as they are, and no AI
/// content is written: the closeout is left to the agent.
pub proof fn law_return_moves_to_review(pre: LedgerView, now: spacetimedb::Timestamp, trip_id: u64)
    requires
        pre.trips.contains_key(trip_id),
        pre.trips[trip_id].state == TRIP_ACTIVE@,
    ensures
        ({
            let (post, r) = start_return_spec(pre, now, trip_id);
            &&& r is Ok
            &&& post.trips[trip_id] == (TripView { state: AI_REVIEWING@, ..pre.trips[trip_id] })
            &&& forall|k: u64| #[trigger] pre.trips.contains_key(k) && k != trip_id ==> post.trips.contains_key(k)
                && post.trips[k] == pre.trips[k]
            &&& post.trips.dom() == pre.trips.dom()
            &&& post.vehicles == pre.vehicles
            &&& post.ai_recommendations == pre.ai_recommendations
        }),
{
    let post = start_return_spec(pre, now, trip_id).0;
    assert(post.trips.dom() =~= pre.trips.dom());
}

/// A write that finds its own row already stored is a no-op: where the trip exists and
/// already has a recommendation of this kind, the agent's write answers Ok and changes
/// nothing; where it already has a closeout, so does a closeout, whatever the trip's state.
pub proof fn law_stored_rows_make_writes_no_ops(
    pre: LedgerView,
    now: spacetimedb::Timestamp,
    trip_id: u64,
    kind: Seq<char>,
    verdict: Seq<char>,
    body: Seq<char>,
    k: u64,
)
    requires
        pre.trips.contains_key(trip_id),
        pre.ai_recommendations.contains_key(k),
        pre.ai_recommendations[k].trip_id == trip_id,
    ensures
        pre.ai_recommendations[k].kind == kind ==> ai_write_recommendation_spec(pre, now, trip_id, kind, verdict, body)
            == (pre, Ok::<(), Seq<char>>(())),
        pre.ai_recommendations[k].kind == "closeout"@ ==> generate_closeout_spec(pre, now, trip_id, verdict, body) == (
            pre,
            Ok::<(), Seq<char>>(()),
        ),
{
}

} // verus!
