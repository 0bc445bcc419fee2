//! The trip ledger: one table per row type, keyed by primary key, with the sequences
//! that hand out auto-incremented ids.

use std::collections::HashMap;
use vstd::prelude::*;
use vstd::std_specs::hash::spec_hash_map_iter;
use vstd::std_specs::iter::IteratorSpec;
use vstd::string::*;

use crate::messages::{illegal_transition, illegal_transition_text, trip_not_found, trip_not_found_text};
use crate::rows::{
    AiRecommendation, AiRecommendationView, Community, CommunityView, Resident, ResidentView,
    Telemetry, TelemetryView, Trip, TripEvent, TripEventView, TripView, Vehicle, VehicleView,
};

verus! {

broadcast use vstd::std_specs::hash::group_hash_axioms;

/// The contents of a table, each row taken by its view.
pub open spec fn table_view<R: View>(m: Map<u64, R>) -> Map<u64, R::V> {
    m.map_values(|r: R| r@)
}

pub proof fn lemma_table_insert<R: View>(m: Map<u64, R>, k: u64, r: R)
    ensures
        table_view(m.insert(k, r)) == table_view(m).insert(k, r@),
{
    assert(table_view(m.insert(k, r)) =~= table_view(m).insert(k, r@));
}

pub proof fn lemma_table_remove<R: View>(m: Map<u64, R>, k: u64)
    ensures
        table_view(m.remove(k)) == table_view(m).remove(k),
{
    assert(table_view(m.remove(k)) =~= table_view(m).remove(k));
}

pub proof fn lemma_table_empty<R: View>()
    ensures
        table_view(Map::<u64, R>::empty()) == Map::<u64, R::V>::empty(),
{
    assert(table_view(Map::<u64, R>::empty()) =~= Map::<u64, R::V>::empty());
}

/// The ledger as a value: each table as a map from primary key to row, and the next
/// value of each auto-increment sequence.
#[verifier::ext_equal]
pub struct LedgerView {
    pub vehicles: Map<u64, VehicleView>,
    pub residents: Map<u64, ResidentView>,
    pub trips: Map<u64, TripView>,
    pub trip_events: Map<u64, TripEventView>,
    pub telemetry: Map<u64, TelemetryView>,
    pub ai_recommendations: Map<u64, AiRecommendationView>,
    pub community: Map<u64, CommunityView>,
    pub next_vehicle_id: u64,
    pub next_resident_id: u64,
    pub next_trip_id: u64,
    pub next_event_id: u64,
    pub next_telemetry_id: u64,
    pub next_recommendation_id: u64,
}

impl LedgerView {
    /// Each row sits under its own id, and every auto-incremented id is below its
    /// sequence, so the next one handed out is fresh.
    pub open spec fn wf(self) -> bool {
        &&& forall|k: u64| #[trigger] self.vehicles.contains_key(k)
            ==> self.vehicles[k].id == k && k < self.next_vehicle_id
        &&& forall|k: u64| #[trigger] self.residents.contains_key(k)
            ==> self.residents[k].id == k && k < self.next_resident_id
        &&& forall|k: u64| #[trigger] self.trips.contains_key(k)
            ==> self.trips[k].id == k && k < self.next_trip_id
        &&& forall|k: u64| #[trigger] self.trip_events.contains_key(k)
            ==> self.trip_events[k].id == k && k < self.next_event_id
        &&& forall|k: u64| #[trigger] self.telemetry.contains_key(k)
            ==> self.telemetry[k].id == k && k < self.next_telemetry_id
        &&& forall|k: u64| #[trigger] self.ai_recommendations.contains_key(k)
            ==> self.ai_recommendations[k].id == k && k < self.next_recommendation_id
        &&& forall|k: u64| #[trigger] self.community.contains_key(k) ==> self.community[k].id == k
    }

    /// Some recommendation of this kind has been written for the trip.
    pub open spec fn has_recommendation(self, trip_id: u64, kind: Seq<char>) -> bool {
        exists|k: u64|
            #[trigger] self.ai_recommendations.contains_key(k) && self.ai_recommendations[k].trip_id
                == trip_id && self.ai_recommendations[k].kind == kind
    }

    /// The ledger with one more timeline event, under the next event id.
    pub open spec fn logged(
        self,
        trip_id: u64,
        kind: Seq<char>,
        payload: Seq<char>,
        now: spacetimedb::Timestamp,
    ) -> LedgerView {
        LedgerView {
            trip_events: self.trip_events.insert(
                self.next_event_id,
                TripEventView { id: self.next_event_id, trip_id, kind, payload, timestamp: now },
            ),
            next_event_id: (self.next_event_id + 1) as u64,
            ..self
        }
    }

    /// The ledger with the trip moved to a new state.
    pub open spec fn with_trip_state(self, trip_id: u64, state: Seq<char>) -> LedgerView {
        LedgerView {
            trips: self.trips.insert(trip_id, TripView { state, ..self.trips[trip_id] }),
            ..self
        }
    }

    /// The ledger with the vehicle's status changed, where the vehicle exists.
    pub open spec fn with_vehicle_status(self, vehicle_id: u64, status: Seq<char>) -> LedgerView {
        if self.vehicles.contains_key(vehicle_id) {
            LedgerView {
                vehicles: self.vehicles.insert(
                    vehicle_id,
                    VehicleView { status, ..self.vehicles[vehicle_id] },
                ),
                ..self
            }
        } else {
            self
        }
    }

    /// The ledger with the vehicle's live battery changed, where the vehicle exists.
    pub open spec fn with_vehicle_battery(self, vehicle_id: u64, battery: i32) -> LedgerView {
        if self.vehicles.contains_key(vehicle_id) {
            LedgerView {
                vehicles: self.vehicles.insert(
                    vehicle_id,
                    VehicleView { battery, ..self.vehicles[vehicle_id] },
                ),
                ..self
            }
        } else {
            self
        }
    }

    /// The ledger with one more telemetry row, under the next telemetry id.
    pub open spec fn with_telemetry(
        self,
        trip_id: u64,
        battery: i32,
        odometer_delta_bits: u32,
        harsh_brake: bool,
        geofence_ok: bool,
        now: spacetimedb::Timestamp,
    ) -> LedgerView {
        LedgerView {
            telemetry: self.telemetry.insert(
                self.next_telemetry_id,
                TelemetryView {
                    id: self.next_telemetry_id,
                    trip_id,
                    battery,
                    odometer_delta_bits,
                    harsh_brake,
                    geofence_ok,
                    timestamp: now,
                },
            ),
            next_telemetry_id: (self.next_telemetry_id + 1) as u64,
            ..self
        }
    }

    /// The ledger with one more AI recommendation, under the next recommendation id.
    pub open spec fn with_recommendation(
        self,
        trip_id: u64,
        kind: Seq<char>,
        verdict: Seq<char>,
        body: Seq<char>,
        now: spacetimedb::Timestamp,
    ) -> LedgerView {
        LedgerView {
            ai_recommendations: self.ai_recommendations.insert(
                self.next_recommendation_id,
                AiRecommendationView {
                    id: self.next_recommendation_id,
                    trip_id,
                    kind,
                    verdict,
                    body,
                    created_at: now,
                },
            ),
            next_recommendation_id: (self.next_recommendation_id + 1) as u64,
            ..self
        }
    }

    /// The ledger with a new vehicle, under the next vehicle id.
    pub open spec fn with_new_vehicle(
        self,
        model: Seq<char>,
        battery: i32,
        location: Seq<char>,
        status: Seq<char>,
    ) -> LedgerView {
        LedgerView {
            vehicles: self.vehicles.insert(
                self.next_vehicle_id,
                VehicleView { id: self.next_vehicle_id, model, battery, location, status },
            ),
            next_vehicle_id: (self.next_vehicle_id + 1) as u64,
            ..self
        }
    }

    /// The ledger with a new resident, under the next resident id.
    pub open spec fn with_new_resident(self, name: Seq<char>, voltscore: i32, status: Seq<char>) -> LedgerView {
        LedgerView {
            residents: self.residents.insert(
                self.next_resident_id,
                ResidentView { id: self.next_resident_id, name, voltscore, status },
            ),
            next_resident_id: (self.next_resident_id + 1) as u64,
            ..self
        }
    }

    /// The ledger with every table emptied; the sequences keep counting.
    pub open spec fn cleared(self) -> LedgerView {
        LedgerView {
            vehicles: Map::empty(),
            residents: Map::empty(),
            trips: Map::empty(),
            trip_events: Map::empty(),
            telemetry: Map::empty(),
            ai_recommendations: Map::empty(),
            community: Map::empty(),
            ..self
        }
    }

    /// The ledger with a new trip, under the next trip id.
    pub open spec fn with_new_trip(
        self,
        vehicle_id: u64,
        renter: Seq<char>,
        state: Seq<char>,
        now: spacetimedb::Timestamp,
    ) -> LedgerView {
        LedgerView {
            trips: self.trips.insert(
                self.next_trip_id,
                TripView { id: self.next_trip_id, vehicle_id, renter, state, created_at: now },
            ),
            next_trip_id: (self.next_trip_id + 1) as u64,
            ..self
        }
    }
}

pub proof fn lemma_logged_wf(v: LedgerView, trip_id: u64, kind: Seq<char>, payload: Seq<char>, now: spacetimedb::Timestamp)
    requires
        v.wf(),
        v.next_event_id < u64::MAX,
    ensures
        v.logged(trip_id, kind, payload, now).wf(),
{
    let w = v.logged(trip_id, kind, payload, now);
    assert forall|k: u64| #[trigger] w.trip_events.contains_key(k) implies w.trip_events[k].id == k
        && k < w.next_event_id by {
        if k != v.next_event_id {
            assert(v.trip_events.contains_key(k));
        }
    }
}

pub proof fn lemma_trip_state_wf(v: LedgerView, trip_id: u64, state: Seq<char>)
    requires
        v.wf(),
        v.trips.contains_key(trip_id),
    ensures
        v.with_trip_state(trip_id, state).wf(),
{
    let w = v.with_trip_state(trip_id, state);
    assert forall|k: u64| #[trigger] w.trips.contains_key(k) implies w.trips[k].id == k
        && k < w.next_trip_id by {
        assert(v.trips.contains_key(k));
    }
}

pub proof fn lemma_vehicle_status_wf(v: LedgerView, vehicle_id: u64, status: Seq<char>)
    requires
        v.wf(),
    ensures
        v.with_vehicle_status(vehicle_id, status).wf(),
{
    let w = v.with_vehicle_status(vehicle_id, status);
    assert forall|k: u64| #[trigger] w.vehicles.contains_key(k) implies w.vehicles[k].id == k
        && k < w.next_vehicle_id by {
        assert(v.vehicles.contains_key(k));
    }
}

pub proof fn lemma_vehicle_battery_wf(v: LedgerView, vehicle_id: u64, battery: i32)
    requires
        v.wf(),
    ensures
        v.with_vehicle_battery(vehicle_id, battery).wf(),
{
    let w = v.with_vehicle_battery(vehicle_id, battery);
    assert forall|k: u64| #[trigger] w.vehicles.contains_key(k) implies w.vehicles[k].id == k
        && k < w.next_vehicle_id by {
        assert(v.vehicles.contains_key(k));
    }
}

pub proof fn lemma_telemetry_wf(
    v: LedgerView,
    trip_id: u64,
    battery: i32,
    bits: u32,
    harsh_brake: bool,
    geofence_ok: bool,
    now: spacetimedb::Timestamp,
)
    requires
        v.wf(),
        v.next_telemetry_id < u64::MAX,
    ensures
        v.with_telemetry(trip_id, battery, bits, harsh_brake, geofence_ok, now).wf(),
{
    let w = v.with_telemetry(trip_id, battery, bits, harsh_brake, geofence_ok, now);
    assert forall|k: u64| #[trigger] w.telemetry.contains_key(k) implies w.telemetry[k].id == k
        && k < w.next_telemetry_id by {
        if k != v.next_telemetry_id {
            assert(v.telemetry.contains_key(k));
        }
    }
}

pub proof fn lemma_recommendation_wf(
    v: LedgerView,
    trip_id: u64,
    kind: Seq<char>,
    verdict: Seq<char>,
    body: Seq<char>,
    now: spacetimedb::Timestamp,
)
    requires
        v.wf(),
        v.next_recommendation_id < u64::MAX,
    ensures
        v.with_recommendation(trip_id, kind, verdict, body, now).wf(),
{
    let w = v.with_recommendation(trip_id, kind, verdict, body, now);
    assert forall|k: u64| #[trigger] w.ai_recommendations.contains_key(k) implies
        w.ai_recommendations[k].id == k && k < w.next_recommendation_id by {
        if k != v.next_recommendation_id {
            assert(v.ai_recommendations.contains_key(k));
        }
    }
}

pub proof fn lemma_new_trip_wf(
    v: LedgerView,
    vehicle_id: u64,
    renter: Seq<char>,
    state: Seq<char>,
    now: spacetimedb::Timestamp,
)
    requires
        v.wf(),
        v.next_trip_id < u64::MAX,
    ensures
        v.with_new_trip(vehicle_id, renter, state, now).wf(),
{
    let w = v.with_new_trip(vehicle_id, renter, state, now);
    assert forall|k: u64| #[trigger] w.trips.contains_key(k) implies w.trips[k].id == k
        && k < w.next_trip_id by {
        if k != v.next_trip_id {
            assert(v.trips.contains_key(k));
        }
    }
}

pub proof fn lemma_new_vehicle_wf(v: LedgerView, model: Seq<char>, battery: i32, location: Seq<char>, status: Seq<char>)
    requires
        v.wf(),
        v.next_vehicle_id < u64::MAX,
    ensures
        v.with_new_vehicle(model, battery, location, status).wf(),
{
    let w = v.with_new_vehicle(model, battery, location, status);
    assert forall|k: u64| #[trigger] w.vehicles.contains_key(k) implies w.vehicles[k].id == k
        && k < w.next_vehicle_id by {
        if k != v.next_vehicle_id {
            assert(v.vehicles.contains_key(k));
        }
    }
}

pub proof fn lemma_new_resident_wf(v: LedgerView, name: Seq<char>, voltscore: i32, status: Seq<char>)
    requires
        v.wf(),
        v.next_resident_id < u64::MAX,
    ensures
        v.with_new_resident(name, voltscore, status).wf(),
{
    let w = v.with_new_resident(name, voltscore, status);
    assert forall|k: u64| #[trigger] w.residents.contains_key(k) implies w.residents[k].id == k
        && k < w.next_resident_id by {
        if k != v.next_resident_id {
            assert(v.residents.contains_key(k));
        }
    }
}

/// What a reducer answers, its error message taken as text.
pub open spec fn outcome(r: Result<(), String>) -> Result<(), Seq<char>> {
    match r {
        Ok(()) => Ok(()),
        Err(msg) => Err(msg@),
    }
}

/// The trip ledger: the tables of the Trip Room, each keyed by primary key, and the
/// auto-increment sequences of the tables whose ids the ledger hands out.
pub struct Ledger {
    pub vehicles: HashMap<u64, Vehicle>,
    pub residents: HashMap<u64, Resident>,
    pub trips: HashMap<u64, Trip>,
    pub trip_events: HashMap<u64, TripEvent>,
    pub telemetry: HashMap<u64, Telemetry>,
    pub ai_recommendations: HashMap<u64, AiRecommendation>,
    pub community: HashMap<u64, Community>,
    pub next_vehicle_id: u64,
    pub next_resident_id: u64,
    pub next_trip_id: u64,
    pub next_event_id: u64,
    pub next_telemetry_id: u64,
    pub next_recommendation_id: u64,
}

impl View for Ledger {
    type V = LedgerView;

    open spec fn view(&self) -> LedgerView {
        LedgerView {
            vehicles: table_view(self.vehicles@),
            residents: table_view(self.residents@),
            trips: table_view(self.trips@),
            trip_events: table_view(self.trip_events@),
            telemetry: table_view(self.telemetry@),
            ai_recommendations: table_view(self.ai_recommendations@),
            community: table_view(self.community@),
            next_vehicle_id: self.next_vehicle_id,
            next_resident_id: self.next_resident_id,
            next_trip_id: self.next_trip_id,
            next_event_id: self.next_event_id,
            next_telemetry_id: self.next_telemetry_id,
            next_recommendation_id: self.next_recommendation_id,
        }
    }
}

/// A copy of a trip row.
pub fn copy_trip(t: &Trip) -> (c: Trip)
    ensures
        c@ == t@,
{
    Trip {
        id: t.id,
        vehicle_id: t.vehicle_id,
        renter: t.renter.clone(),
        state: t.state.clone(),
        created_at: t.created_at,
    }
}

/// Checks that a trip is in the expected state.
pub fn require_state(trip: &Trip, expected: &str) -> (r: Result<(), String>)
    ensures
        r is Ok <==> trip.state@ == expected@,
        r matches Err(msg) ==> msg@ == illegal_transition_text(trip.id, trip.state@, expected@),
{
    let want = String::from_str(expected);
    if !(trip.state == want) {
        return Err(illegal_transition(trip.id, &trip.state, expected));
    }
    Ok(())
}

impl Ledger {
    /// An empty ledger whose sequences start at one.
    pub fn new() -> (db: Ledger)
        ensures
            db@.wf(),
            db@.vehicles.is_empty(),
            db@.residents.is_empty(),
            db@.trips.is_empty(),
            db@.trip_events.is_empty(),
            db@.telemetry.is_empty(),
            db@.ai_recommendations.is_empty(),
            db@.community.is_empty(),
            db@.next_vehicle_id == 1,
            db@.next_resident_id == 1,
            db@.next_trip_id == 1,
            db@.next_event_id == 1,
            db@.next_telemetry_id == 1,
            db@.next_recommendation_id == 1,
    {
        let db = Ledger {
            vehicles: HashMap::new(),
            residents: HashMap::new(),
            trips: HashMap::new(),
            trip_events: HashMap::new(),
            telemetry: HashMap::new(),
            ai_recommendations: HashMap::new(),
            community: HashMap::new(),
            next_vehicle_id: 1,
            next_resident_id: 1,
            next_trip_id: 1,
            next_event_id: 1,
            next_telemetry_id: 1,
            next_recommendation_id: 1,
        };
        proof {
            lemma_table_empty::<Vehicle>();
            lemma_table_empty::<Resident>();
            lemma_table_empty::<Trip>();
            lemma_table_empty::<TripEvent>();
            lemma_table_empty::<Telemetry>();
            lemma_table_empty::<AiRecommendation>();
            lemma_table_empty::<Community>();
        }
        db
    }

    /// The trip under this id, or the "not found" message.
    pub fn find_trip(&self, trip_id: u64) -> (r: Result<Trip, String>)
        ensures
            r is Ok <==> self@.trips.contains_key(trip_id),
            r matches Ok(t) ==> t@ == self@.trips[trip_id],
            r matches Err(msg) ==> msg@ == trip_not_found_text(trip_id),
    {
        match self.trips.get(&trip_id) {
            Some(t) => Ok(copy_trip(t)),
            None => Err(trip_not_found(trip_id)),
        }
    }

    /// Appends an event to the trip's timeline.
    pub fn log_event(&mut self, trip_id: u64, kind: &str, payload: &str, now: spacetimedb::Timestamp)
        requires
            old(self)@.wf(),
            old(self).next_event_id < u64::MAX,
        ensures
            final(self)@ == old(self)@.logged(trip_id, kind@, payload@, now),
            final(self)@.wf(),
    {
        let id = self.next_event_id;
        let row = TripEvent {
            id,
            trip_id,
            kind: String::from_str(kind),
            payload: String::from_str(payload),
            timestamp: now,
        };
        proof {
            lemma_table_insert(self.trip_events@, id, row);
            lemma_logged_wf(old(self)@, trip_id, kind@, payload@, now);
        }
        self.trip_events.insert(id, row);
        self.next_event_id = id + 1;
    }

    /// Moves an existing trip to a new state.
    pub fn set_state(&mut self, trip_id: u64, new_state: &str) -> (r: Result<(), String>)
        requires
            old(self)@.wf(),
        ensures
            r is Ok <==> old(self)@.trips.contains_key(trip_id),
            r matches Err(msg) ==> msg@ == trip_not_found_text(trip_id),
            r is Ok ==> final(self)@ == old(self)@.with_trip_state(trip_id, new_state@),
            r is Err ==> final(self)@ == old(self)@,
            final(self)@.wf(),
    {
        match self.trips.remove(&trip_id) {
            Some(mut trip) => {
                proof {
                    lemma_table_remove(old(self).trips@, trip_id);
                }
                let ghost removed = self.trips@;
                trip.state = String::from_str(new_state);
                proof {
                    lemma_table_insert(removed, trip_id, trip);
                    assert(table_view(removed).insert(trip_id, trip@) =~= old(self)@.trips.insert(
                        trip_id,
                        TripView { state: new_state@, ..old(self)@.trips[trip_id] },
                    ));
                }
                self.trips.insert(trip_id, trip);
                Ok(())
            },
            None => Err(trip_not_found(trip_id)),
        }
    }

    /// Whether some recommendation of this kind has been written for the trip.
    pub fn has_recommendation(&self, trip_id: u64, kind: &str) -> (b: bool)
        ensures
            b == self@.has_recommendation(trip_id, kind@),
    {
        let want = String::from_str(kind);
        let ghost rows = spec_hash_map_iter(&self.ai_recommendations).remaining();
        let ghost mut seen: int = 0;
        for entry in it: self.ai_recommendations.iter()
            invariant
                it.seq() == rows,
                seen == it.index(),
                want@ == kind@,
                forall|j: int|
                    0 <= j < seen ==> !(#[trigger] rows[j].1.trip_id == trip_id
                        && rows[j].1.kind@ == kind@),
        {
            let (_, r) = entry;
            if r.trip_id == trip_id && r.kind == want {
                proof {
                    assert(entry == rows[seen]);
                    let k = *rows[seen].0;
                    assert(self.ai_recommendations@.contains_key(k));
                    assert(self@.ai_recommendations.contains_key(k));
                }
                return true;
            }
            proof {
                seen = seen + 1;
            }
        }
        proof {
            if self@.has_recommendation(trip_id, kind@) {
                let k = choose|k: u64|
                    #[trigger] self@.ai_recommendations.contains_key(k)
                        && self@.ai_recommendations[k].trip_id == trip_id
                        && self@.ai_recommendations[k].kind == kind@;
                assert(self.ai_recommendations@.contains_key(k));
                assert(rows.contains((&k, &self.ai_recommendations@[k])));
                let j = choose|j: int| 0 <= j < rows.len() && rows[j] == (&k, &self.ai_recommendations@[k]);
                assert(rows[j].1.trip_id == trip_id);
            }
        }
        false
    }

    /// Writes a telemetry row under the next telemetry id.
    pub fn add_telemetry(
        &mut self,
        trip_id: u64,
        battery: i32,
        odometer_delta_bits: u32,
        harsh_brake: bool,
        geofence_ok: bool,
        now: spacetimedb::Timestamp,
    )
        requires
            old(self)@.wf(),
            old(self).next_telemetry_id < u64::MAX,
        ensures
            final(self)@ == old(self)@.with_telemetry(
                trip_id,
                battery,
                odometer_delta_bits,
                harsh_brake,
                geofence_ok,
                now,
            ),
            final(self)@.wf(),
    {
        let id = self.next_telemetry_id;
        let row = Telemetry {
            id,
            trip_id,
            battery,
            odometer_delta_bits,
            harsh_brake,
            geofence_ok,
            timestamp: now,
        };
        proof {
            lemma_table_insert(self.telemetry@, id, row);
            lemma_telemetry_wf(old(self)@, trip_id, battery, odometer_delta_bits, harsh_brake, geofence_ok, now);
        }
        self.telemetry.insert(id, row);
        self.next_telemetry_id = id + 1;
    }

    /// Writes an AI recommendation row under the next recommendation id.
    pub fn add_recommendation(
        &mut self,
        trip_id: u64,
        kind: String,
        verdict: String,
        body: String,
        now: spacetimedb::Timestamp,
    )
        requires
            old(self)@.wf(),
            old(self).next_recommendation_id < u64::MAX,
        ensures
            final(self)@ == old(self)@.with_recommendation(trip_id, kind@, verdict@, body@, now),
            final(self)@.wf(),
    {
        let id = self.next_recommendation_id;
        let row = AiRecommendation { id, trip_id, kind, verdict, body, created_at: now };
        proof {
            lemma_table_insert(self.ai_recommendations@, id, row);
            lemma_recommendation_wf(old(self)@, trip_id, row.kind@, row.verdict@, row.body@, now);
        }
        self.ai_recommendations.insert(id, row);
        self.next_recommendation_id = id + 1;
    }

    /// Opens a trip under the next trip id and returns that id.
    pub fn add_trip(&mut self, vehicle_id: u64, renter: String, state: &str, now: spacetimedb::Timestamp) -> (id: u64)
        requires
            old(self)@.wf(),
            old(self).next_trip_id < u64::MAX,
        ensures
            id == old(self).next_trip_id,
            final(self)@ == old(self)@.with_new_trip(vehicle_id, renter@, state@, now),
            final(self)@.wf(),
    {
        let id = self.next_trip_id;
        let row = Trip { id, vehicle_id, renter, state: String::from_str(state), created_at: now };
        proof {
            lemma_table_insert(self.trips@, id, row);
            lemma_new_trip_wf(old(self)@, vehicle_id, row.renter@, state@, now);
        }
        self.trips.insert(id, row);
        self.next_trip_id = id + 1;
        id
    }

    /// Changes the status of the vehicle, where it exists.
    pub fn set_vehicle_status(&mut self, vehicle_id: u64, status: &str)
        requires
            old(self)@.wf(),
        ensures
            final(self)@ == old(self)@.with_vehicle_status(vehicle_id, status@),
            final(self)@.wf(),
    {
        proof {
            lemma_vehicle_status_wf(old(self)@, vehicle_id, status@);
        }
        match self.vehicles.remove(&vehicle_id) {
            Some(mut v) => {
                proof {
                    lemma_table_remove(old(self).vehicles@, vehicle_id);
                }
                let ghost removed = self.vehicles@;
                v.status = String::from_str(status);
                proof {
                    lemma_table_insert(removed, vehicle_id, v);
                    assert(table_view(removed).insert(vehicle_id, v@) =~= old(self)@.vehicles.insert(
                        vehicle_id,
                        VehicleView { status: status@, ..old(self)@.vehicles[vehicle_id] },
                    ));
                }
                self.vehicles.insert(vehicle_id, v);
            },
            None => {},
        }
    }

    /// Changes the live battery of the vehicle, where it exists.
    pub fn set_vehicle_battery(&mut self, vehicle_id: u64, battery: i32)
        requires
            old(self)@.wf(),
        ensures
            final(self)@ == old(self)@.with_vehicle_battery(vehicle_id, battery),
            final(self)@.wf(),
    {
        proof {
            lemma_vehicle_battery_wf(old(self)@, vehicle_id, battery);
        }
        match self.vehicles.remove(&vehicle_id) {
            Some(mut v) => {
                proof {
                    lemma_table_remove(old(self).vehicles@, vehicle_id);
                }
                let ghost removed = self.vehicles@;
                v.battery = battery;
                proof {
                    lemma_table_insert(removed, vehicle_id, v);
                    assert(table_view(removed).insert(vehicle_id, v@) =~= old(self)@.vehicles.insert(
                        vehicle_id,
                        VehicleView { battery, ..old(self)@.vehicles[vehicle_id] },
                    ));
                }
                self.vehicles.insert(vehicle_id, v);
            },
            None => {},
        }
    }

    /// Registers a vehicle under the next vehicle id.
    pub fn add_vehicle(&mut self, model: &str, battery: i32, location: &str, status: &str)
        requires
            old(self)@.wf(),
            old(self).next_vehicle_id < u64::MAX,
        ensures
            final(self)@ == old(self)@.with_new_vehicle(model@, battery, location@, status@),
            final(self)@.wf(),
    {
        let id = self.next_vehicle_id;
        let row = Vehicle {
            id,
            model: String::from_str(model),
            battery,
            location: String::from_str(location),
            status: String::from_str(status),
        };
        proof {
            lemma_table_insert(self.vehicles@, id, row);
            lemma_new_vehicle_wf(old(self)@, model@, battery, location@, status@);
        }
        self.vehicles.insert(id, row);
        self.next_vehicle_id = id + 1;
    }

    /// Registers a resident under the next resident id.
    pub fn add_resident(&mut self, name: &str, voltscore: i32, status: &str)
        requires
            old(self)@.wf(),
            old(self).next_resident_id < u64::MAX,
        ensures
            final(self)@ == old(self)@.with_new_resident(name@, voltscore, status@),
            final(self)@.wf(),
    {
        let id = self.next_resident_id;
        let row = Resident { id, name: String::from_str(name), voltscore, status: String::from_str(status) };
        proof {
            lemma_table_insert(self.residents@, id, row);
            lemma_new_resident_wf(old(self)@, name@, voltscore, status@);
        }
        self.residents.insert(id, row);
        self.next_resident_id = id + 1;
    }

    /// Deletes every row of every table; the sequences keep counting.
    pub fn clear_all(&mut self)
        ensures
            final(self)@ == old(self)@.cleared(),
            final(self)@.wf(),
    {
        self.trip_events.clear();
        self.telemetry.clear();
        self.ai_recommendations.clear();
        self.trips.clear();
        self.vehicles.clear();
        self.residents.clear();
        self.community.clear();
        proof {
            lemma_table_empty::<Vehicle>();
            lemma_table_empty::<Resident>();
            lemma_table_empty::<Trip>();
            lemma_table_empty::<TripEvent>();
            lemma_table_empty::<Telemetry>();
            lemma_table_empty::<AiRecommendation>();
            lemma_table_empty::<Community>();
        }
    }

    /// Writes the community row under its own id, replacing any row there.
    pub fn put_community(&mut self, row: Community)
        requires
            old(self)@.wf(),
        ensures
            final(self)@ == (LedgerView { community: old(self)@.community.insert(row.id, row@), ..old(self)@ }),
            final(self)@.wf(),
    {
        proof {
            lemma_table_insert(self.community@, row.id, row);
        }
        let ghost id = row.id;
        self.community.insert(row.id, row);
        proof {
            assert forall|k: u64| #[trigger] self@.community.contains_key(k) implies self@.community[k].id
                == k by {
                if k != id {
                    assert(old(self)@.community.contains_key(k));
                }
            }
            assert(self@.vehicles == old(self)@.vehicles);
            assert(self@.trips == old(self)@.trips);
            assert(self@.next_trip_id == old(self)@.next_trip_id);
        }
    }
}

} // verus!
