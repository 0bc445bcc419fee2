//! What holds of the Trip Room across reducers: the lifecycle only moves forward, rejected
//! requests change nothing, the agent's writes are idempotent, logs only grow.

use vstd::prelude::*;

use crate::ledger::{lemma_logged_wf, lemma_telemetry_wf, lemma_vehicle_battery_wf, LedgerView};
use crate::rows::{TelemetryView, TripEventView, VehicleView};
use crate::reducers::{
    ai_write_recommendation_spec, approve_unlock_spec,
    generate_closeout_spec, push_telemetry_spec, reserve_vehicle_spec, seed_demo_data_spec,
    start_return_spec,
};
use crate::messages::{illegal_transition_text, telemetry_payload_text, vehicle_unavailable_text};
use crate::state::{
    AI_REVIEWING, AVAILABLE, CHECK_IN_STARTED, CLOSED, RESERVED, RESERVED_STATUS, RETURN_STARTED,
    TRIP_ACTIVE, UNLOCK_GRANTED, VEHICLE_VERIFIED,
};

verus! {

/// The place of a Trip Room state in the lifecycle, from RESERVED (0) to CLOSED (7);
/// -1 for any other text.
pub open spec fn state_rank(s: Seq<char>) -> int {
    if s == RESERVED@ {
        0
    } else if s == CHECK_IN_STARTED@ {
        1
    } else if s == VEHICLE_VERIFIED@ {
        2
    } else if s == UNLOCK_GRANTED@ {
        3
    } else if s == TRIP_ACTIVE@ {
        4
    } else if s == RETURN_STARTED@ {
        5
    } else if s == AI_REVIEWING@ {
        6
    } else if s == CLOSED@ {
        7
    } else {
        -1
    }
}

/// Every trip is in one of the lifecycle states.
pub open spec fn trip_states_valid(v: LedgerView) -> bool {
    forall|k: u64| #[trigger] v.trips.contains_key(k) ==> state_rank(v.trips[k].state) >= 0
}

/// `post` keeps every trip of `pre`, with the same id, vehicle, renter and creation time,
/// at the same or a later state; a trip it adds starts at VEHICLE_VERIFIED.
pub open spec fn trips_only_advance(pre: LedgerView, post: LedgerView) -> bool {
    &&& forall|k: u64| #[trigger] pre.trips.contains_key(k) ==> {
        &&& post.trips.contains_key(k)
        &&& post.trips[k].id == pre.trips[k].id
        &&& post.trips[k].vehicle_id == pre.trips[k].vehicle_id
        &&& post.trips[k].renter == pre.trips[k].renter
        &&& post.trips[k].created_at == pre.trips[k].created_at
        &&& state_rank(post.trips[k].state) >= state_rank(pre.trips[k].state)
    }
    &&& forall|k: u64| #[trigger] post.trips.contains_key(k) && !pre.trips.contains_key(k)
        ==> post.trips[k].state == VEHICLE_VERIFIED@
}

/// No two recommendations share a trip and a kind.
pub open spec fn recommendations_unique(v: LedgerView) -> bool {
    forall|a: u64, b: u64|
        #[trigger] v.ai_recommendations.contains_key(a) && #[trigger] v.ai_recommendations.contains_key(b)
            && a != b ==> !(v.ai_recommendations[a].trip_id == v.ai_recommendations[b].trip_id
            && v.ai_recommendations[a].kind == v.ai_recommendations[b].kind)
}

/// The timeline, the telemetry and the recommendations of `pre` all stand unchanged in
/// `post`, and so do the residents and the community.
pub open spec fn history_kept(pre: LedgerView, post: LedgerView) -> bool {
    &&& pre.trip_events.submap_of(post.trip_events)
    &&& pre.telemetry.submap_of(post.telemetry)
    &&& pre.ai_recommendations.submap_of(post.ai_recommendations)
    &&& post.residents == pre.residents
    &&& post.community == pre.community
}

/// The ranks of the eight state names.
pub proof fn lemma_state_ranks()
    ensures
        state_rank(RESERVED@) == 0,
        state_rank(CHECK_IN_STARTED@) == 1,
        state_rank(VEHICLE_VERIFIED@) == 2,
        state_rank(UNLOCK_GRANTED@) == 3,
        state_rank(TRIP_ACTIVE@) == 4,
        state_rank(RETURN_STARTED@) == 5,
        state_rank(AI_REVIEWING@) == 6,
        state_rank(CLOSED@) == 7,
{
    reveal_strlit("RESERVED");
    reveal_strlit("CHECK_IN_STARTED");
    reveal_strlit("VEHICLE_VERIFIED");
    reveal_strlit("UNLOCK_GRANTED");
    reveal_strlit("TRIP_ACTIVE");
    reveal_strlit("RETURN_STARTED");
    reveal_strlit("AI_REVIEWING");
    reveal_strlit("CLOSED");
    assert(RESERVED@.len() == 8 && RESERVED@[0] == 'R');
    assert(CHECK_IN_STARTED@.len() == 16 && CHECK_IN_STARTED@[0] == 'C');
    assert(VEHICLE_VERIFIED@.len() == 16 && VEHICLE_VERIFIED@[0] == 'V');
    assert(UNLOCK_GRANTED@.len() == 14 && UNLOCK_GRANTED@[0] == 'U');
    assert(TRIP_ACTIVE@.len() == 11 && TRIP_ACTIVE@[0] == 'T');
    assert(RETURN_STARTED@.len() == 14 && RETURN_STARTED@[0] == 'R');
    assert(AI_REVIEWING@.len() == 12 && AI_REVIEWING@[0] == 'A');
    assert(CLOSED@.len() == 6 && CLOSED@[0] == 'C');
}

/// Moving one trip to a state of higher rank keeps the others, and the trip's other fields.
proof fn lemma_advance_one(pre: LedgerView, trip_id: u64, state: Seq<char>)
    requires
        pre.trips.contains_key(trip_id),
        state_rank(state) >= state_rank(pre.trips[trip_id].state),
    ensures
        trips_only_advance(pre, pre.with_trip_state(trip_id, state)),
{
}

/// The lifecycle only moves forward: no reducer but a reset removes a trip, changes what
/// it rents to whom, or moves it back to an earlier state; a trip is opened only at
/// VEHICLE_VERIFIED, so a CLOSED trip stays closed. Trips in lifecycle states stay in them.
pub proof fn law_lifecycle_moves_forward(
    pre: LedgerView,
    now: spacetimedb::Timestamp,
    trip_id: u64,
    vehicle_id: u64,
    renter: Seq<char>,
    kind: Seq<char>,
    verdict: Seq<char>,
    body: Seq<char>,
    battery: i32,
    odometer_delta_bits: u32,
    odometer_label: Seq<char>,
    harsh_brake: bool,
    geofence_ok: bool,
)
    requires
        pre.wf(),
    ensures
        trips_only_advance(pre, reserve_vehicle_spec(pre, now, vehicle_id, renter).0),
        trips_only_advance(pre, ai_write_recommendation_spec(pre, now, trip_id, kind, verdict, body).0),
        trips_only_advance(pre, approve_unlock_spec(pre, now, trip_id).0),
        trips_only_advance(
            pre,
            push_telemetry_spec(pre, now, trip_id, battery, odometer_delta_bits, odometer_label, harsh_brake, geofence_ok).0,
        ),
        trips_only_advance(pre, start_return_spec(pre, now, trip_id).0),
        trips_only_advance(pre, generate_closeout_spec(pre, now, trip_id, verdict, body).0),
        trip_states_valid(pre) ==> trip_states_valid(reserve_vehicle_spec(pre, now, vehicle_id, renter).0),
        trip_states_valid(pre) ==> trip_states_valid(
            ai_write_recommendation_spec(pre, now, trip_id, kind, verdict, body).0,
        ),
        trip_states_valid(pre) ==> trip_states_valid(approve_unlock_spec(pre, now, trip_id).0),
        trip_states_valid(pre) ==> trip_states_valid(
            push_telemetry_spec(pre, now, trip_id, battery, odometer_delta_bits, odometer_label, harsh_brake, geofence_ok).0,
        ),
        trip_states_valid(pre) ==> trip_states_valid(start_return_spec(pre, now, trip_id).0),
        trip_states_valid(pre) ==> trip_states_valid(generate_closeout_spec(pre, now, trip_id, verdict, body).0),
{
    lemma_state_ranks();
    if pre.trips.contains_key(trip_id) {
        let t = pre.trips[trip_id];
        if t.state == VEHICLE_VERIFIED@ {
            lemma_advance_one(pre, trip_id, TRIP_ACTIVE@);
        }
        if t.state == TRIP_ACTIVE@ {
            lemma_advance_one(pre, trip_id, AI_REVIEWING@);
        }
        if t.state == AI_REVIEWING@ {
            lemma_advance_one(pre, trip_id, CLOSED@);
        }
    }
    let r = reserve_vehicle_spec(pre, now, vehicle_id, renter).0;
    if r != pre {
        assert(!pre.trips.contains_key(pre.next_trip_id));
    }
}

/// A rejected request changes nothing: whenever a reducer answers with an error, the
/// ledger after it is the ledger before it.
pub proof fn law_rejected_requests_change_nothing(
    pre: LedgerView,
    now: spacetimedb::Timestamp,
    trip_id: u64,
    vehicle_id: u64,
    renter: Seq<char>,
    kind: Seq<char>,
    verdict: Seq<char>,
    body: Seq<char>,
    battery: i32,
    odometer_delta_bits: u32,
    odometer_label: Seq<char>,
    harsh_brake: bool,
    geofence_ok: bool,
)
    ensures
        reserve_vehicle_spec(pre, now, vehicle_id, renter).1 is Err
            ==> reserve_vehicle_spec(pre, now, vehicle_id, renter).0 == pre,
        ai_write_recommendation_spec(pre, now, trip_id, kind, verdict, body).1 is Err
            ==> ai_write_recommendation_spec(pre, now, trip_id, kind, verdict, body).0 == pre,
        approve_unlock_spec(pre, now, trip_id).1 is Err ==> approve_unlock_spec(pre, now, trip_id).0 == pre,
        push_telemetry_spec(pre, now, trip_id, battery, odometer_delta_bits, odometer_label, harsh_brake, geofence_ok).1 is Err
            ==> push_telemetry_spec(pre, now, trip_id, battery, odometer_delta_bits, odometer_label, harsh_brake, geofence_ok).0
            == pre,
        start_return_spec(pre, now, trip_id).1 is Err ==> start_return_spec(pre, now, trip_id).0 == pre,
        generate_closeout_spec(pre, now, trip_id, verdict, body).1 is Err
            ==> generate_closeout_spec(pre, now, trip_id, verdict, body).0 == pre,
{
}

/// The agent's writes are idempotent per trip and kind: writing a recommendation of the same
/// kind for the same trip a second time, whatever its verdict, body or time, answers as the
/// first write did and changes nothing. Once a closeout has succeeded, a second one is a
/// no-op that succeeds.
pub proof fn law_agent_writes_are_idempotent(
    pre: LedgerView,
    now: spacetimedb::Timestamp,
    later: spacetimedb::Timestamp,
    trip_id: u64,
    kind: Seq<char>,
    verdict: Seq<char>,
    body: Seq<char>,
    verdict2: Seq<char>,
    body2: Seq<char>,
)
    ensures
        ({
            let (post, r) = ai_write_recommendation_spec(pre, now, trip_id, kind, verdict, body);
            ai_write_recommendation_spec(post, later, trip_id, kind, verdict2, body2) == (post, r)
        }),
        ({
            let (post, r) = generate_closeout_spec(pre, now, trip_id, verdict, body);
            r is Ok ==> generate_closeout_spec(post, later, trip_id, verdict2, body2) == (post, Ok::<(), Seq<char>>(()))
        }),
{
    let (post, r) = ai_write_recommendation_spec(pre, now, trip_id, kind, verdict, body);
    if r is Ok && !pre.has_recommendation(trip_id, kind) {
        let k = pre.next_recommendation_id;
        assert(post.ai_recommendations.contains_key(k));
        assert(post.has_recommendation(trip_id, kind));
    }
    let (post, r) = generate_closeout_spec(pre, now, trip_id, verdict, body);
    if r is Ok && !pre.has_recommendation(trip_id, "closeout"@) {
        let k = pre.next_recommendation_id;
        assert(post.ai_recommendations.contains_key(k));
        assert(post.has_recommendation(trip_id, "closeout"@));
    }
}

/// Adding a recommendation of a kind the trip does not have yet keeps them unique.
proof fn lemma_new_recommendation_unique(
    pre: LedgerView,
    trip_id: u64,
    kind: Seq<char>,
    verdict: Seq<char>,
    body: Seq<char>,
    now: spacetimedb::Timestamp,
)
    requires
        recommendations_unique(pre),
        !pre.has_recommendation(trip_id, kind),
    ensures
        recommendations_unique(pre.with_recommendation(trip_id, kind, verdict, body, now)),
{
    let post = pre.with_recommendation(trip_id, kind, verdict, body, now);
    let n = pre.next_recommendation_id;
    assert forall|a: u64, b: u64|
        #[trigger] post.ai_recommendations.contains_key(a) && #[trigger] post.ai_recommendations.contains_key(b)
            && a != b implies !(post.ai_recommendations[a].trip_id == post.ai_recommendations[b].trip_id
            && post.ai_recommendations[a].kind == post.ai_recommendations[b].kind) by {
        if a == n {
            assert(pre.ai_recommendations.contains_key(b));
        } else if b == n {
            assert(pre.ai_recommendations.contains_key(a));
        } else {
            assert(pre.ai_recommendations.contains_key(a) && pre.ai_recommendations.contains_key(b));
        }
    }
}

/// No reducer ever stores a second recommendation of the same kind for the same trip,
/// whichever actor writes it.
pub proof fn law_recommendations_stay_unique(
    pre: LedgerView,
    now: spacetimedb::Timestamp,
    trip_id: u64,
    vehicle_id: u64,
    renter: Seq<char>,
    kind: Seq<char>,
    verdict: Seq<char>,
    body: Seq<char>,
    battery: i32,
    odometer_delta_bits: u32,
    odometer_label: Seq<char>,
    harsh_brake: bool,
    geofence_ok: bool,
)
    requires
        recommendations_unique(pre),
    ensures
        recommendations_unique(seed_demo_data_spec(pre)),
        recommendations_unique(reserve_vehicle_spec(pre, now, vehicle_id, renter).0),
        recommendations_unique(ai_write_recommendation_spec(pre, now, trip_id, kind, verdict, body).0),
        recommendations_unique(approve_unlock_spec(pre, now, trip_id).0),
        recommendations_unique(
            push_telemetry_spec(pre, now, trip_id, battery, odometer_delta_bits, odometer_label, harsh_brake, geofence_ok).0,
        ),
        recommendations_unique(start_return_spec(pre, now, trip_id).0),
        recommendations_unique(generate_closeout_spec(pre, now, trip_id, verdict, body).0),
{
    if pre.trips.contains_key(trip_id) && !pre.has_recommendation(trip_id, kind) {
        lemma_new_recommendation_unique(pre, trip_id, kind, verdict, body, now);
    }
    if pre.trips.contains_key(trip_id) && !pre.has_recommendation(trip_id, "closeout"@) {
        lemma_new_recommendation_unique(pre, trip_id, "closeout"@, verdict, body, now);
    }
}

/// History only grows: no reducer but a reset edits or removes a timeline event, a
/// telemetry reading or a recommendation, or touches the residents or the community.
pub proof fn law_history_only_grows(
    pre: LedgerView,
    now: spacetimedb::Timestamp,
    trip_id: u64,
    vehicle_id: u64,
    renter: Seq<char>,
    kind: Seq<char>,
    verdict: Seq<char>,
    body: Seq<char>,
    battery: i32,
    odometer_delta_bits: u32,
    odometer_label: Seq<char>,
    harsh_brake: bool,
    geofence_ok: bool,
)
    requires
        pre.wf(),
        pre.next_event_id < u64::MAX - 2,
    ensures
        history_kept(pre, reserve_vehicle_spec(pre, now, vehicle_id, renter).0),
        history_kept(pre, ai_write_recommendation_spec(pre, now, trip_id, kind, verdict, body).0),
        history_kept(pre, approve_unlock_spec(pre, now, trip_id).0),
        history_kept(
            pre,
            push_telemetry_spec(pre, now, trip_id, battery, odometer_delta_bits, odometer_label, harsh_brake, geofence_ok).0,
        ),
        history_kept(pre, start_return_spec(pre, now, trip_id).0),
        history_kept(pre, generate_closeout_spec(pre, now, trip_id, verdict, body).0),
{
    assert(!pre.trip_events.contains_key(pre.next_event_id));
    assert(!pre.trip_events.contains_key((pre.next_event_id + 1) as u64));
    assert(!pre.trip_events.contains_key((pre.next_event_id + 2) as u64));
    assert(!pre.telemetry.contains_key(pre.next_telemetry_id));
    assert(!pre.ai_recommendations.contains_key(pre.next_recommendation_id));
}

/// Only the AI Trust Agent writes AI content: reserving, approving, streaming telemetry
/// and starting the return leave the recommendations as they were.
pub proof fn law_only_the_agent_writes_recommendations(
    pre: LedgerView,
    now: spacetimedb::Timestamp,
    trip_id: u64,
    vehicle_id: u64,
    renter: Seq<char>,
    battery: i32,
    odometer_delta_bits: u32,
    odometer_label: Seq<char>,
    harsh_brake: bool,
    geofence_ok: bool,
)
    ensures
        reserve_vehicle_spec(pre, now, vehicle_id, renter).0.ai_recommendations == pre.ai_recommendations,
        approve_unlock_spec(pre, now, trip_id).0.ai_recommendations == pre.ai_recommendations,
        push_telemetry_spec(pre, now, trip_id, battery, odometer_delta_bits, odometer_label, harsh_brake, geofence_ok).0.ai_recommendations
            == pre.ai_recommendations,
        start_return_spec(pre, now, trip_id).0.ai_recommendations == pre.ai_recommendations,
{
}

/// A vehicle cannot be booked twice: right after a successful reservation, reserving the
/// same vehicle again is refused as not available, and changes nothing.
pub proof fn law_no_double_booking(
    pre: LedgerView,
    now: spacetimedb::Timestamp,
    later: spacetimedb::Timestamp,
    vehicle_id: u64,
    renter: Seq<char>,
    other_renter: Seq<char>,
)
    ensures
        ({
            let (post, r) = reserve_vehicle_spec(pre, now, vehicle_id, renter);
            r is Ok ==> reserve_vehicle_spec(post, later, vehicle_id, other_renter) == (
                post,
                Err::<(), Seq<char>>(vehicle_unavailable_text(pre.vehicles[vehicle_id].model, RESERVED_STATUS@)),
            )
        }),
{
    reveal_strlit("Available");
    reveal_strlit("Reserved");
    assert(AVAILABLE@.len() != RESERVED_STATUS@.len());
}

/// Three consecutive ids are distinct, also where the sequence wraps around.
proof fn lemma_three_keys(n: u64)
    by (bit_vector)
    ensures
        (n + 1) as u64 != n,
        (n + 2) as u64 != n,
        (n + 2) as u64 != (n + 1) as u64,
{
}

/// A reset forgets everything: its result depends on the ledger before it only through
/// the sequences. A second reset writes the same community, fleet and residents again,
/// each vehicle and resident under the next ids.
pub proof fn law_reset_is_idempotent(a: LedgerView, b: LedgerView)
    ensures
        a.next_vehicle_id == b.next_vehicle_id && a.next_resident_id == b.next_resident_id
            && a.next_trip_id == b.next_trip_id && a.next_event_id == b.next_event_id
            && a.next_telemetry_id == b.next_telemetry_id
            && a.next_recommendation_id == b.next_recommendation_id
            ==> seed_demo_data_spec(a) == seed_demo_data_spec(b),
        ({
            let once = seed_demo_data_spec(a);
            let twice = seed_demo_data_spec(once);
            &&& twice.community == once.community
            &&& twice.trips == once.trips
            &&& twice.trip_events == once.trip_events
            &&& twice.telemetry == once.telemetry
            &&& twice.ai_recommendations == once.ai_recommendations
            &&& forall|i: u64| 0 <= i < 3 ==> twice.vehicles[(once.next_vehicle_id + i) as u64] == (
                #[trigger] once.vehicles[(a.next_vehicle_id + i) as u64]).with_id((once.next_vehicle_id + i) as u64)
            &&& forall|i: u64| 0 <= i < 3 ==> twice.residents[(once.next_resident_id + i) as u64] == (
                #[trigger] once.residents[(a.next_resident_id + i) as u64]).with_id((once.next_resident_id + i) as u64)
        }),
{
    let once = seed_demo_data_spec(a);
    assert forall|i: u64| 0 <= i < 3 implies seed_demo_data_spec(once).vehicles[(once.next_vehicle_id + i) as u64] == (
        #[trigger] once.vehicles[(a.next_vehicle_id + i) as u64]).with_id((once.next_vehicle_id + i) as u64) by {
        lemma_three_keys(a.next_vehicle_id);
        lemma_three_keys(once.next_vehicle_id);
    }
    assert forall|i: u64| 0 <= i < 3 implies seed_demo_data_spec(once).residents[(once.next_resident_id + i) as u64] == (
        #[trigger] once.residents[(a.next_resident_id + i) as u64]).with_id((once.next_resident_id + i) as u64) by {
        lemma_three_keys(a.next_resident_id);
        lemma_three_keys(once.next_resident_id);
    }
}

/// The trip is still open: not CLOSED.
pub open spec fn is_open(t: crate::rows::TripView) -> bool {
    t.state != CLOSED@
}

/// Each vehicle is held by at most one open trip, and a vehicle held by an open trip is
/// not Available.
pub open spec fn fleet_consistent(v: LedgerView) -> bool {
    &&& forall|a: u64, b: u64|
        #[trigger] v.trips.contains_key(a) && #[trigger] v.trips.contains_key(b) && a != b && is_open(v.trips[a])
            && is_open(v.trips[b]) ==> v.trips[a].vehicle_id != v.trips[b].vehicle_id
    &&& forall|t: u64|
        #[trigger] v.trips.contains_key(t) && is_open(v.trips[t]) && v.vehicles.contains_key(v.trips[t].vehicle_id)
            ==> v.vehicles[v.trips[t].vehicle_id].status != AVAILABLE@
}

proof fn lemma_status_names()
    ensures
        RESERVED_STATUS@ != AVAILABLE@,
        crate::state::ACTIVE_TRIP@ != AVAILABLE@,
        VEHICLE_VERIFIED@ != CLOSED@,
        TRIP_ACTIVE@ != CLOSED@,
        AI_REVIEWING@ != CLOSED@,
{
    reveal_strlit("Available");
    reveal_strlit("Reserved");
    reveal_strlit("Active Trip");
    lemma_state_ranks();
    assert(RESERVED_STATUS@.len() != AVAILABLE@.len());
    assert(crate::state::ACTIVE_TRIP@.len() != AVAILABLE@.len());
}

/// No vehicle is ever double-booked: the fleet stays consistent with the open trips
/// through every reducer. A reservation takes an Available vehicle, which no open trip
/// holds; an approval keeps it off the Available list; only the closeout that closes its
/// trip makes it Available again.
pub proof fn law_fleet_stays_consistent(
    pre: LedgerView,
    now: spacetimedb::Timestamp,
    trip_id: u64,
    vehicle_id: u64,
    renter: Seq<char>,
    kind: Seq<char>,
    verdict: Seq<char>,
    body: Seq<char>,
    battery: i32,
    odometer_delta_bits: u32,
    odometer_label: Seq<char>,
    harsh_brake: bool,
    geofence_ok: bool,
)
    requires
        pre.wf(),
        fleet_consistent(pre),
    ensures
        fleet_consistent(seed_demo_data_spec(pre)),
        fleet_consistent(reserve_vehicle_spec(pre, now, vehicle_id, renter).0),
        fleet_consistent(ai_write_recommendation_spec(pre, now, trip_id, kind, verdict, body).0),
        fleet_consistent(approve_unlock_spec(pre, now, trip_id).0),
        fleet_consistent(
            push_telemetry_spec(pre, now, trip_id, battery, odometer_delta_bits, odometer_label, harsh_brake, geofence_ok).0,
        ),
        fleet_consistent(start_return_spec(pre, now, trip_id).0),
        fleet_consistent(generate_closeout_spec(pre, now, trip_id, verdict, body).0),
{
    lemma_status_names();
    let post = reserve_vehicle_spec(pre, now, vehicle_id, renter).0;
    if post != pre {
        let n = pre.next_trip_id;
        assert(!pre.trips.contains_key(n));
        assert forall|a: u64, b: u64|
            #[trigger] post.trips.contains_key(a) && #[trigger] post.trips.contains_key(b) && a != b
                && is_open(post.trips[a]) && is_open(post.trips[b]) implies post.trips[a].vehicle_id
            != post.trips[b].vehicle_id by {
            if a == n {
                assert(pre.trips.contains_key(b));
            } else if b == n {
                assert(pre.trips.contains_key(a));
            } else {
                assert(pre.trips.contains_key(a) && pre.trips.contains_key(b));
            }
        }
        assert forall|t: u64|
            #[trigger] post.trips.contains_key(t) && is_open(post.trips[t]) && post.vehicles.contains_key(
                post.trips[t].vehicle_id,
            ) implies post.vehicles[post.trips[t].vehicle_id].status != AVAILABLE@ by {
            if t != n {
                assert(pre.trips.contains_key(t));
            }
        }
    }
    let post = approve_unlock_spec(pre, now, trip_id).0;
    if post != pre {
        assert forall|a: u64, b: u64|
            #[trigger] post.trips.contains_key(a) && #[trigger] post.trips.contains_key(b) && a != b
                && is_open(post.trips[a]) && is_open(post.trips[b]) implies post.trips[a].vehicle_id
            != post.trips[b].vehicle_id by {
            assert(pre.trips.contains_key(a) && pre.trips.contains_key(b));
        }
        assert forall|t: u64|
            #[trigger] post.trips.contains_key(t) && is_open(post.trips[t]) && post.vehicles.contains_key(
                post.trips[t].vehicle_id,
            ) implies post.vehicles[post.trips[t].vehicle_id].status != AVAILABLE@ by {
            assert(pre.trips.contains_key(t));
        }
    }
    let post = push_telemetry_spec(pre, now, trip_id, battery, odometer_delta_bits, odometer_label, harsh_brake, geofence_ok).0;
    if post != pre {
        assert forall|t: u64|
            #[trigger] post.trips.contains_key(t) && is_open(post.trips[t]) && post.vehicles.contains_key(
                post.trips[t].vehicle_id,
            ) implies post.vehicles[post.trips[t].vehicle_id].status != AVAILABLE@ by {
            assert(pre.trips.contains_key(t));
        }
    }
    let post = start_return_spec(pre, now, trip_id).0;
    if post != pre {
        assert forall|a: u64, b: u64|
            #[trigger] post.trips.contains_key(a) && #[trigger] post.trips.contains_key(b) && a != b
                && is_open(post.trips[a]) && is_open(post.trips[b]) implies post.trips[a].vehicle_id
            != post.trips[b].vehicle_id by {
            assert(pre.trips.contains_key(a) && pre.trips.contains_key(b));
        }
        assert forall|t: u64|
            #[trigger] post.trips.contains_key(t) && is_open(post.trips[t]) && post.vehicles.contains_key(
                post.trips[t].vehicle_id,
            ) implies post.vehicles[post.trips[t].vehicle_id].status != AVAILABLE@ by {
            assert(pre.trips.contains_key(t));
        }
    }
    let post = generate_closeout_spec(pre, now, trip_id, verdict, body).0;
    if post != pre {
        assert forall|a: u64, b: u64|
            #[trigger] post.trips.contains_key(a) && #[trigger] post.trips.contains_key(b) && a != b
                && is_open(post.trips[a]) && is_open(post.trips[b]) implies post.trips[a].vehicle_id
            != post.trips[b].vehicle_id by {
            assert(pre.trips.contains_key(a) && pre.trips.contains_key(b));
        }
        assert forall|t: u64|
            #[trigger] post.trips.contains_key(t) && is_open(post.trips[t]) && post.vehicles.contains_key(
                post.trips[t].vehicle_id,
            ) implies post.vehicles[post.trips[t].vehicle_id].status != AVAILABLE@ by {
            assert(pre.trips.contains_key(t));
            assert(pre.trips.contains_key(trip_id));
            assert(t != trip_id);
        }
    }
}

/// A reset, and so the first publish, leaves the demo in place: three vehicles, three
/// residents, one community row, and no trips or history.
pub proof fn law_reset_fills_the_demo(pre: LedgerView)
    ensures
        seed_demo_data_spec(pre).vehicles.len() == 3,
        seed_demo_data_spec(pre).residents.len() == 3,
        seed_demo_data_spec(pre).community.len() == 1,
        seed_demo_data_spec(pre).trips.is_empty(),
        seed_demo_data_spec(pre).trip_events.is_empty(),
        seed_demo_data_spec(pre).telemetry.is_empty(),
        seed_demo_data_spec(pre).ai_recommendations.is_empty(),
{
    lemma_three_keys(pre.next_vehicle_id);
    lemma_three_keys(pre.next_resident_id);
}

/// An unlock is granted at most once per trip: right after a successful approval, a second
/// one is refused as an illegal transition from TRIP_ACTIVE, and changes nothing.
pub proof fn law_unlock_granted_once(
    pre: LedgerView,
    now: spacetimedb::Timestamp,
    later: spacetimedb::Timestamp,
    trip_id: u64,
)
    ensures
        ({
            let (post, r) = approve_unlock_spec(pre, now, trip_id);
            r is Ok ==> approve_unlock_spec(post, later, trip_id) == (
                post,
                Err::<(), Seq<char>>(
                    illegal_transition_text(pre.trips[trip_id].id, TRIP_ACTIVE@, VEHICLE_VERIFIED@),
                ),
            )
        }),
        ({
            let (post, r) = approve_unlock_spec(pre, now, trip_id);
            r is Ok && pre.wf() ==> approve_unlock_spec(post, later, trip_id).1 == Err::<(), Seq<char>>(
                illegal_transition_text(trip_id, TRIP_ACTIVE@, VEHICLE_VERIFIED@),
            )
        }),
{
    lemma_state_ranks();
}

/// One reading as the telemetry connector pushes it.
pub struct Reading {
    pub at: spacetimedb::Timestamp,
    pub battery: i32,
    pub odometer_delta_bits: u32,
    pub odometer_label: Seq<char>,
    pub harsh_brake: bool,
    pub geofence_ok: bool,
}

/// The readings pushed for a trip one after the other; the stream stops at the first refusal.
pub open spec fn push_all(pre: LedgerView, trip_id: u64, readings: Seq<Reading>) -> (LedgerView, Result<(), Seq<char>>)
    decreases readings.len(),
{
    if readings.len() == 0 {
        (pre, Ok(()))
    } else {
        let (mid, r) = push_all(pre, trip_id, readings.drop_last());
        if r is Err {
            (mid, r)
        } else {
            let x = readings.last();
            push_telemetry_spec(
                mid,
                x.at,
                trip_id,
                x.battery,
                x.odometer_delta_bits,
                x.odometer_label,
                x.harsh_brake,
                x.geofence_ok,
            )
        }
    }
}

/// The telemetry row that the `j`-th reading of a stream writes.
pub open spec fn streamed_row(pre: LedgerView, trip_id: u64, readings: Seq<Reading>, j: int) -> TelemetryView {
    TelemetryView {
        id: (pre.next_telemetry_id + j) as u64,
        trip_id,
        battery: readings[j].battery,
        odometer_delta_bits: readings[j].odometer_delta_bits,
        harsh_brake: readings[j].harsh_brake,
        geofence_ok: readings[j].geofence_ok,
        timestamp: readings[j].at,
    }
}

/// The timeline event that the `j`-th reading of a stream writes.
pub open spec fn streamed_event(pre: LedgerView, trip_id: u64, readings: Seq<Reading>, j: int) -> TripEventView {
    TripEventView {
        id: (pre.next_event_id + j) as u64,
        trip_id,
        kind: "TELEMETRY"@,
        payload: telemetry_payload_text(
            readings[j].odometer_label,
            readings[j].battery,
            readings[j].harsh_brake,
            readings[j].geofence_ok,
        ),
        timestamp: readings[j].at,
    }
}

/// What a stream of readings for an active trip leaves: every push accepted, the trip
/// still active, one telemetry row and one TELEMETRY event per reading, in order, under the
/// next ids, nothing earlier changed, and the vehicle's live battery at the last value pushed.
pub open spec fn streamed(pre: LedgerView, post: LedgerView, trip_id: u64, readings: Seq<Reading>) -> bool {
    let n = readings.len();
    let v = pre.trips[trip_id].vehicle_id;
    &&& post.wf()
    &&& post.trips == pre.trips
    &&& post.next_telemetry_id == pre.next_telemetry_id + n
    &&& post.next_event_id == pre.next_event_id + n
    &&& forall|j: int|
        #![trigger post.telemetry.contains_key((pre.next_telemetry_id + j) as u64)]
        #![trigger post.telemetry[(pre.next_telemetry_id + j) as u64]]
        0 <= j < n ==> post.telemetry.contains_key((pre.next_telemetry_id + j) as u64)
            && post.telemetry[(pre.next_telemetry_id + j) as u64] == streamed_row(pre, trip_id, readings, j)
    &&& forall|j: int|
        #![trigger post.trip_events.contains_key((pre.next_event_id + j) as u64)]
        #![trigger post.trip_events[(pre.next_event_id + j) as u64]]
        0 <= j < n ==> post.trip_events.contains_key((pre.next_event_id + j) as u64)
            && post.trip_events[(pre.next_event_id + j) as u64] == streamed_event(pre, trip_id, readings, j)
    &&& forall|k: u64| #[trigger] post.telemetry.contains_key(k) ==> (pre.telemetry.contains_key(k)
        && post.telemetry[k] == pre.telemetry[k]) || (pre.next_telemetry_id <= k < pre.next_telemetry_id + n)
    &&& forall|k: u64| #[trigger] pre.telemetry.contains_key(k) ==> post.telemetry.contains_key(k)
    &&& forall|k: u64| #[trigger] post.trip_events.contains_key(k) ==> (pre.trip_events.contains_key(k)
        && post.trip_events[k] == pre.trip_events[k]) || (pre.next_event_id <= k < pre.next_event_id + n)
    &&& forall|k: u64| #[trigger] pre.trip_events.contains_key(k) ==> post.trip_events.contains_key(k)
    &&& post.vehicles.dom() == pre.vehicles.dom()
    &&& forall|k: u64| #[trigger] pre.vehicles.contains_key(k) && k != v ==> post.vehicles[k] == pre.vehicles[k]
    &&& pre.vehicles.contains_key(v) ==> post.vehicles[v] == (VehicleView {
        battery: if n == 0 { pre.vehicles[v].battery } else { readings[n - 1].battery },
        ..pre.vehicles[v]
    })
    &&& post.ai_recommendations == pre.ai_recommendations
    &&& post.residents == pre.residents
    &&& post.community == pre.community
}

/// A trip's telemetry streams: pushing n readings one after the other for an active trip
/// accepts every one, leaves the trip active, writes n telemetry rows and n TELEMETRY events
/// in order, and leaves the vehicle's live battery at the last value pushed.
pub proof fn law_telemetry_stream(pre: LedgerView, trip_id: u64, readings: Seq<Reading>)
    requires
        pre.wf(),
        pre.trips.contains_key(trip_id),
        pre.trips[trip_id].state == TRIP_ACTIVE@,
        pre.next_telemetry_id + readings.len() <= u64::MAX,
        pre.next_event_id + readings.len() <= u64::MAX,
    ensures
        push_all(pre, trip_id, readings).1 is Ok,
        streamed(pre, push_all(pre, trip_id, readings).0, trip_id, readings),
    decreases readings.len(),
{
    let n = readings.len();
    if n == 0 {
        return;
    }
    let prefix = readings.drop_last();
    law_telemetry_stream(pre, trip_id, prefix);
    let mid = push_all(pre, trip_id, prefix).0;
    let x = readings.last();
    let v = pre.trips[trip_id].vehicle_id;
    lemma_telemetry_wf(mid, trip_id, x.battery, x.odometer_delta_bits, x.harsh_brake, x.geofence_ok, x.at);
    let m1 = mid.with_telemetry(trip_id, x.battery, x.odometer_delta_bits, x.harsh_brake, x.geofence_ok, x.at);
    lemma_vehicle_battery_wf(m1, v, x.battery);
    let m2 = m1.with_vehicle_battery(v, x.battery);
    lemma_logged_wf(m2, trip_id, "TELEMETRY"@, telemetry_payload_text(x.odometer_label, x.battery, x.harsh_brake, x.geofence_ok), x.at);
    let post = push_all(pre, trip_id, readings).0;
    assert(post == m2.logged(trip_id, "TELEMETRY"@, telemetry_payload_text(x.odometer_label, x.battery, x.harsh_brake, x.geofence_ok), x.at));
    assert forall|j: int|
        #![trigger post.telemetry.contains_key((pre.next_telemetry_id + j) as u64)]
        #![trigger post.telemetry[(pre.next_telemetry_id + j) as u64]]
        0 <= j < n implies post.telemetry.contains_key((pre.next_telemetry_id + j) as u64)
            && post.telemetry[(pre.next_telemetry_id + j) as u64] == streamed_row(pre, trip_id, readings, j) by {
        let k = (pre.next_telemetry_id + j) as u64;
        assert(k == pre.next_telemetry_id + j);
        if j < n - 1 {
            assert(prefix[j] == readings[j]);
            assert(k != mid.next_telemetry_id);
            assert(mid.telemetry.contains_key(k));
            assert(streamed_row(pre, trip_id, readings, j) == streamed_row(pre, trip_id, prefix, j));
        } else {
            assert(k == mid.next_telemetry_id);
            assert(readings[j] == x);
        }
    }
    assert forall|j: int|
        #![trigger post.trip_events.contains_key((pre.next_event_id + j) as u64)]
        #![trigger post.trip_events[(pre.next_event_id + j) as u64]]
        0 <= j < n implies post.trip_events.contains_key((pre.next_event_id + j) as u64)
            && post.trip_events[(pre.next_event_id + j) as u64] == streamed_event(pre, trip_id, readings, j) by {
        let k = (pre.next_event_id + j) as u64;
        assert(k == pre.next_event_id + j);
        if j < n - 1 {
            assert(prefix[j] == readings[j]);
            assert(k != m2.next_event_id);
            assert(m2.trip_events.contains_key(k));
            assert(streamed_event(pre, trip_id, readings, j) == streamed_event(pre, trip_id, prefix, j));
        } else {
            assert(k == m2.next_event_id);
            assert(readings[j] == x);
        }
    }
    assert(post.vehicles.dom() =~= pre.vehicles.dom());
}

/// The timeline kinds of the demo trip, in order.
pub open spec fn demo_trip_kinds() -> Seq<Seq<char>> {
    seq![
        RESERVED@,
        CHECK_IN_STARTED@,
        VEHICLE_VERIFIED@,
        UNLOCK_GRANTED@,
        TRIP_ACTIVE@,
        "TELEMETRY"@,
        RETURN_STARTED@,
        AI_REVIEWING@,
        "AI_CLOSEOUT"@,
        CLOSED@,
    ]
}

/// The demo trip, from a reset to the closeout: the Model 3 reserved, the unlock approved,
/// a telemetry reading pushed, the return started and the closeout written. Every step is
/// accepted; the trip ends CLOSED, the Model 3 is Available again with the battery last
/// pushed, the trip has exactly one closeout, and its timeline runs through the lifecycle
/// in order.
pub proof fn law_demo_trip_closes(
    pre: LedgerView,
    t1: spacetimedb::Timestamp,
    t2: spacetimedb::Timestamp,
    t3: spacetimedb::Timestamp,
    t4: spacetimedb::Timestamp,
    t5: spacetimedb::Timestamp,
    renter: Seq<char>,
    battery: i32,
    odometer_delta_bits: u32,
    odometer_label: Seq<char>,
    harsh_brake: bool,
    verdict: Seq<char>,
    body: Seq<char>,
)
    requires
        pre.next_event_id < u64::MAX - 9,
    ensures
        ({
            let s0 = seed_demo_data_spec(pre);
            let m = pre.next_vehicle_id;
            let t = pre.next_trip_id;
            let e = pre.next_event_id;
            let (s1, r1) = reserve_vehicle_spec(s0, t1, m, renter);
            let (s2, r2) = approve_unlock_spec(s1, t2, t);
            let (s3, r3) = push_telemetry_spec(s2, t3, t, battery, odometer_delta_bits, odometer_label, harsh_brake, true);
            let (s4, r4) = start_return_spec(s3, t4, t);
            let (s5, r5) = generate_closeout_spec(s4, t5, t, verdict, body);
            &&& s0.vehicles[m].model == "Tesla Model 3"@
            &&& r1 is Ok && r2 is Ok && r3 is Ok && r4 is Ok && r5 is Ok
            &&& s5.trips[t].state == CLOSED@
            &&& s5.vehicles[m].status == AVAILABLE@
            &&& s5.vehicles[m].battery == battery
            &&& exists|k: u64| #[trigger] s5.ai_recommendations.contains_key(k)
                && s5.ai_recommendations[k].trip_id == t && s5.ai_recommendations[k].kind == "closeout"@
                && forall|k2: u64| #[trigger] s5.ai_recommendations.contains_key(k2)
                    && s5.ai_recommendations[k2].trip_id == t && s5.ai_recommendations[k2].kind == "closeout"@ ==> k2 == k
            &&& forall|k: u64| #[trigger] s5.trip_events.contains_key(k) <==> e <= k < e + 10
            &&& forall|i: int| 0 <= i < 10 ==> #[trigger] s5.trip_events[(e + i) as u64].kind == demo_trip_kinds()[i]
                && s5.trip_events[(e + i) as u64].trip_id == t
        }),
{
    lemma_three_keys(pre.next_vehicle_id);
    lemma_three_keys(pre.next_resident_id);
    let s0 = seed_demo_data_spec(pre);
    let m = pre.next_vehicle_id;
    let t = pre.next_trip_id;
    let e = pre.next_event_id;
    assert(s0.vehicles.contains_key(m));
    assert(s0.vehicles[m].status == AVAILABLE@);
    let (s1, r1) = reserve_vehicle_spec(s0, t1, m, renter);
    let (s2, r2) = approve_unlock_spec(s1, t2, t);
    let (s3, r3) = push_telemetry_spec(s2, t3, t, battery, odometer_delta_bits, odometer_label, harsh_brake, true);
    let (s4, r4) = start_return_spec(s3, t4, t);
    assert(s4.ai_recommendations == Map::<u64, crate::rows::AiRecommendationView>::empty());
    let (s5, r5) = generate_closeout_spec(s4, t5, t, verdict, body);
    let k = pre.next_recommendation_id;
    assert(s5.ai_recommendations.contains_key(k));
    assert forall|k: u64| #[trigger] s5.trip_events.contains_key(k) <==> e <= k < e + 10 by {}
    assert forall|i: int| 0 <= i < 10 implies #[trigger] s5.trip_events[(e + i) as u64].kind == demo_trip_kinds()[i]
        && s5.trip_events[(e + i) as u64].trip_id == t by {
    }
}

} // verus!
