//! Building a ledger from the rows of its tables, as the database holds them.

use std::collections::HashMap;
use vstd::prelude::*;

use crate::ledger::Ledger;
use crate::rows::{AiRecommendation, Community, Resident, Telemetry, Trip, TripEvent, Vehicle};

verus! {

broadcast use vstd::std_specs::hash::group_hash_axioms;

/// A row with a primary key.
pub trait Keyed {
    spec fn key(&self) -> u64;

    fn primary_key(&self) -> (k: u64)
        ensures
            k == self.key(),
    ;
}

impl Keyed for Vehicle {
    open spec fn key(&self) -> u64 {
        self.id
    }

    fn primary_key(&self) -> (k: u64) {
        self.id
    }
}

impl Keyed for Resident {
    open spec fn key(&self) -> u64 {
        self.id
    }

    fn primary_key(&self) -> (k: u64) {
        self.id
    }
}

impl Keyed for Trip {
    open spec fn key(&self) -> u64 {
        self.id
    }

    fn primary_key(&self) -> (k: u64) {
        self.id
    }
}

impl Keyed for TripEvent {
    open spec fn key(&self) -> u64 {
        self.id
    }

    fn primary_key(&self) -> (k: u64) {
        self.id
    }
}

impl Keyed for Telemetry {
    open spec fn key(&self) -> u64 {
        self.id
    }

    fn primary_key(&self) -> (k: u64) {
        self.id
    }
}

impl Keyed for AiRecommendation {
    open spec fn key(&self) -> u64 {
        self.id
    }

    fn primary_key(&self) -> (k: u64) {
        self.id
    }
}

impl Keyed for Community {
    open spec fn key(&self) -> u64 {
        self.id
    }

    fn primary_key(&self) -> (k: u64) {
        self.id
    }
}

/// No two rows share a primary key.
pub open spec fn keys_distinct<R: Keyed>(rows: Seq<R>) -> bool {
    forall|i: int, j: int| 0 <= i < j < rows.len() ==> #[trigger] rows[i].key() != #[trigger] rows[j].key()
}

/// No two rows share a primary key, and none has the largest key (the sequence after it
/// would overflow).
pub open spec fn keys_usable<R: Keyed>(rows: Seq<R>) -> bool {
    &&& keys_distinct(rows)
    &&& forall|i: int| 0 <= i < rows.len() ==> #[trigger] rows[i].key() < u64::MAX
}

/// The map holds exactly the rows, each under its primary key.
pub open spec fn keyed_rows<R: Keyed>(m: Map<u64, R>, rows: Seq<R>) -> bool {
    &&& forall|i: int| 0 <= i < rows.len() ==> #[trigger] m.contains_key(rows[i].key()) && m[rows[i].key()] == rows[i]
    &&& forall|k: u64| #[trigger] m.contains_key(k) ==> exists|i: int| 0 <= i < rows.len() && rows[i].key() == k
}

/// The sequence stands right after the largest key of the table, or at one when it is empty.
pub open spec fn resumes_after<R>(m: Map<u64, R>, next: u64) -> bool {
    next == 1 || (next > 1 && m.contains_key((next - 1) as u64))
}

/// The rows as a table keyed by primary key, with the sequence value after the largest
/// key (one for no rows); `None` where two rows share a key or a key is the largest.
pub fn table_from_rows<R: Keyed>(rows: Vec<R>) -> (r: Option<(HashMap<u64, R>, u64)>)
    ensures
        r is Some <==> keys_usable(rows@),
        r matches Some((m, next)) ==> {
            &&& keyed_rows(m@, rows@)
            &&& forall|k: u64| #[trigger] m@.contains_key(k) ==> m@[k].key() == k && k < next
            &&& resumes_after(m@, next)
        },
{
    let ghost orig = rows@;
    let ghost n = rows@.len();
    let mut pending = rows;
    let mut m: HashMap<u64, R> = HashMap::new();
    let mut next: u64 = 1;
    let mut usable = true;
    while usable && pending.len() > 0
        invariant
            pending@ == orig.subrange(0, pending@.len() as int),
            pending@.len() <= n,
            n == orig.len(),
            !usable ==> !keys_usable(orig),
            usable ==> forall|i: int, j: int| pending@.len() <= i < j < n ==> #[trigger] orig[i].key() != #[trigger] orig[j].key(),
            usable ==> forall|i: int| pending@.len() <= i < n ==> #[trigger] orig[i].key() < u64::MAX,
            usable ==> forall|i: int| pending@.len() <= i < n ==> #[trigger] m@.contains_key(orig[i].key()) && m@[orig[i].key()] == orig[i],
            usable ==> forall|k: u64| #[trigger] m@.contains_key(k) ==> exists|i: int| pending@.len() <= i < n && orig[i].key() == k,
            forall|k: u64| #[trigger] m@.contains_key(k) ==> m@[k].key() == k && k < next,
            next == 1 || (next > 1 && m@.contains_key((next - 1) as u64)),
        decreases pending@.len(),
    {
        let ghost lo = pending@.len() - 1;
        let row = pending.pop().unwrap();
        assert(row == orig[lo]);
        let k = row.primary_key();
        if k == u64::MAX {
            assert(orig[lo].key() == u64::MAX);
            usable = false;
        } else if m.contains_key(&k) {
            proof {
                let i = choose|i: int| lo + 1 <= i < n && orig[i].key() == k;
                assert(orig[lo].key() == orig[i].key());
                assert(0 <= lo < i < orig.len());
            }
            usable = false;
        } else {
            if k >= next {
                next = k + 1;
            }
            m.insert(k, row);
            proof {
                assert forall|k2: u64| #[trigger] m@.contains_key(k2) implies exists|i: int|
                    pending@.len() <= i < n && orig[i].key() == k2 by {
                    if k2 == k {
                        assert(orig[lo].key() == k2);
                    }
                }
            }
        }
    }
    if !usable {
        return None;
    }
    assert(orig.subrange(0, 0) =~= pending@);
    Some((m, next))
}

/// The rows of a table without a sequence, keyed by primary key; `None` where two rows
/// share a key.
pub fn keyed_table<R: Keyed>(rows: Vec<R>) -> (r: Option<HashMap<u64, R>>)
    ensures
        r is Some <==> keys_distinct(rows@),
        r matches Some(m) ==> {
            &&& keyed_rows(m@, rows@)
            &&& forall|k: u64| #[trigger] m@.contains_key(k) ==> m@[k].key() == k
        },
{
    let ghost orig = rows@;
    let ghost n = rows@.len();
    let mut pending = rows;
    let mut m: HashMap<u64, R> = HashMap::new();
    let mut distinct = true;
    while distinct && pending.len() > 0
        invariant
            pending@ == orig.subrange(0, pending@.len() as int),
            pending@.len() <= n,
            n == orig.len(),
            !distinct ==> !keys_distinct(orig),
            distinct ==> forall|i: int, j: int| pending@.len() <= i < j < n ==> #[trigger] orig[i].key() != #[trigger] orig[j].key(),
            distinct ==> forall|i: int| pending@.len() <= i < n ==> #[trigger] m@.contains_key(orig[i].key()) && m@[orig[i].key()] == orig[i],
            distinct ==> forall|k: u64| #[trigger] m@.contains_key(k) ==> exists|i: int| pending@.len() <= i < n && orig[i].key() == k,
            forall|k: u64| #[trigger] m@.contains_key(k) ==> m@[k].key() == k,
        decreases pending@.len(),
    {
        let ghost lo = pending@.len() - 1;
        let row = pending.pop().unwrap();
        assert(row == orig[lo]);
        let k = row.primary_key();
        if m.contains_key(&k) {
            proof {
                let i = choose|i: int| lo + 1 <= i < n && orig[i].key() == k;
                assert(orig[lo].key() == orig[i].key());
                assert(0 <= lo < i < orig.len());
            }
            distinct = false;
        } else {
            m.insert(k, row);
            proof {
                assert forall|k2: u64| #[trigger] m@.contains_key(k2) implies exists|i: int|
                    pending@.len() <= i < n && orig[i].key() == k2 by {
                    if k2 == k {
                        assert(orig[lo].key() == k2);
                    }
                }
            }
        }
    }
    if !distinct {
        return None;
    }
    assert(orig.subrange(0, 0) =~= pending@);
    Some(m)
}

/// The values of the ledger's auto-increment sequences, as the database keeps them
/// between reducer calls.
pub struct Sequences {
    pub vehicles: u64,
    pub residents: u64,
    pub trips: u64,
    pub trip_events: u64,
    pub telemetry: u64,
    pub ai_recommendations: u64,
}

/// The sequence goes on from the value it was kept at, or from just after the largest key
/// of the table where that is further: a sequence never hands out a value again.
pub open spec fn sequence_goes_on<R>(m: Map<u64, R>, kept: u64, next: u64) -> bool {
    next >= kept && (next == kept || resumes_after(m, next))
}

/// The larger of the kept sequence value and the one after the table's largest key.
fn go_on(kept: u64, resumed: u64) -> (next: u64)
    ensures
        next == if kept > resumed { kept } else { resumed },
{
    if kept > resumed {
        kept
    } else {
        resumed
    }
}

impl Ledger {
    /// The ledger that the database's tables hold, each sequence going on from the value
    /// it was kept at (or from after the table's largest id, where that is further);
    /// `None` where a table holds two rows under one id, or a table with a sequence holds a
    /// row under the largest id.
    pub fn load(
        vehicles: Vec<Vehicle>,
        residents: Vec<Resident>,
        trips: Vec<Trip>,
        trip_events: Vec<TripEvent>,
        telemetry: Vec<Telemetry>,
        ai_recommendations: Vec<AiRecommendation>,
        community: Vec<Community>,
        sequences: Sequences,
    ) -> (r: Option<Ledger>)
        ensures
            r is Some <==> keys_usable(vehicles@) && keys_usable(residents@) && keys_usable(trips@)
                && keys_usable(trip_events@) && keys_usable(telemetry@) && keys_usable(ai_recommendations@)
                && keys_distinct(community@),
            r matches Some(db) ==> {
                &&& db@.wf()
                &&& keyed_rows(db.vehicles@, vehicles@)
                &&& keyed_rows(db.residents@, residents@)
                &&& keyed_rows(db.trips@, trips@)
                &&& keyed_rows(db.trip_events@, trip_events@)
                &&& keyed_rows(db.telemetry@, telemetry@)
                &&& keyed_rows(db.ai_recommendations@, ai_recommendations@)
                &&& keyed_rows(db.community@, community@)
                &&& sequence_goes_on(db.vehicles@, sequences.vehicles, db.next_vehicle_id)
                &&& sequence_goes_on(db.residents@, sequences.residents, db.next_resident_id)
                &&& sequence_goes_on(db.trips@, sequences.trips, db.next_trip_id)
                &&& sequence_goes_on(db.trip_events@, sequences.trip_events, db.next_event_id)
                &&& sequence_goes_on(db.telemetry@, sequences.telemetry, db.next_telemetry_id)
                &&& sequence_goes_on(db.ai_recommendations@, sequences.ai_recommendations, db.next_recommendation_id)
            },
    {
        let (vehicles, next_vehicle_id) = match table_from_rows(vehicles) {
            Some(t) => t,
            None => return None,
        };
        let (residents, next_resident_id) = match table_from_rows(residents) {
            Some(t) => t,
            None => return None,
        };
        let (trips, next_trip_id) = match table_from_rows(trips) {
            Some(t) => t,
            None => return None,
        };
        let (trip_events, next_event_id) = match table_from_rows(trip_events) {
            Some(t) => t,
            None => return None,
        };
        let (telemetry, next_telemetry_id) = match table_from_rows(telemetry) {
            Some(t) => t,
            None => return None,
        };
        let (ai_recommendations, next_recommendation_id) = match table_from_rows(ai_recommendations) {
            Some(t) => t,
            None => return None,
        };
        let community = match keyed_table(community) {
            Some(t) => t,
            None => return None,
        };
        Some(
            Ledger {
                vehicles,
                residents,
                trips,
                trip_events,
                telemetry,
                ai_recommendations,
                community,
                next_vehicle_id: go_on(sequences.vehicles, next_vehicle_id),
                next_resident_id: go_on(sequences.residents, next_resident_id),
                next_trip_id: go_on(sequences.trips, next_trip_id),
                next_event_id: go_on(sequences.trip_events, next_event_id),
                next_telemetry_id: go_on(sequences.telemetry, next_telemetry_id),
                next_recommendation_id: go_on(sequences.ai_recommendations, next_recommendation_id),
            },
        )
    }

    /// The values of the sequences, for the database to keep until the next call.
    pub fn sequences(&self) -> (s: Sequences)
        ensures
            s.vehicles == self.next_vehicle_id,
            s.residents == self.next_resident_id,
            s.trips == self.next_trip_id,
            s.trip_events == self.next_event_id,
            s.telemetry == self.next_telemetry_id,
            s.ai_recommendations == self.next_recommendation_id,
    {
        Sequences {
            vehicles: self.next_vehicle_id,
            residents: self.next_resident_id,
            trips: self.next_trip_id,
            trip_events: self.next_event_id,
            telemetry: self.next_telemetry_id,
            ai_recommendations: self.next_recommendation_id,
        }
    }
}

} // verus!
