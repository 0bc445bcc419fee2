//! The rows of the trip ledger's tables, and their views.

use vstd::prelude::*;

verus! {

/// The moment a reducer runs, carried into the rows it writes; nothing here reads it.
#[verifier::external_type_specification]
#[verifier::external_body]
pub struct ExTimestamp(spacetimedb::Timestamp);

/// `Clone` of `spacetimedb::Timestamp`, which its crate derives on a `Copy` struct of one
/// `i64`: the clone is the same value.
pub assume_specification[ <spacetimedb::Timestamp as Clone>::clone ](t: &spacetimedb::Timestamp) -> (r: spacetimedb::Timestamp)
    ensures
        r == *t,
;

/// A car of the community fleet.
#[derive(Clone)]
pub struct Vehicle {
    pub id: u64,
    pub model: String,
    pub battery: i32,
    pub location: String,
    /// Available | Reserved | Active Trip | Charging
    pub status: String,
}

pub struct VehicleView {
    pub id: u64,
    pub model: Seq<char>,
    pub battery: i32,
    pub location: Seq<char>,
    pub status: Seq<char>,
}

impl VehicleView {
    /// The same row under another id.
    pub open spec fn with_id(self, id: u64) -> VehicleView {
        VehicleView { id, ..self }
    }
}

impl View for Vehicle {
    type V = VehicleView;

    open spec fn view(&self) -> VehicleView {
        VehicleView {
            id: self.id,
            model: self.model@,
            battery: self.battery,
            location: self.location@,
            status: self.status@,
        }
    }
}

/// A resident of the community, with the score the trust agent reads.
#[derive(Clone)]
pub struct Resident {
    pub id: u64,
    pub name: String,
    pub voltscore: i32,
    /// verified | pending
    pub status: String,
}

pub struct ResidentView {
    pub id: u64,
    pub name: Seq<char>,
    pub voltscore: i32,
    pub status: Seq<char>,
}

impl ResidentView {
    /// The same row under another id.
    pub open spec fn with_id(self, id: u64) -> ResidentView {
        ResidentView { id, ..self }
    }
}

impl View for Resident {
    type V = ResidentView;

    open spec fn view(&self) -> ResidentView {
        ResidentView { id: self.id, name: self.name@, voltscore: self.voltscore, status: self.status@ }
    }
}

/// The Trip Room: one rental of one vehicle, and where it stands in its lifecycle.
#[derive(Clone)]
pub struct Trip {
    pub id: u64,
    pub vehicle_id: u64,
    pub renter: String,
    pub state: String,
    pub created_at: spacetimedb::Timestamp,
}

pub struct TripView {
    pub id: u64,
    pub vehicle_id: u64,
    pub renter: Seq<char>,
    pub state: Seq<char>,
    pub created_at: spacetimedb::Timestamp,
}

impl View for Trip {
    type V = TripView;

    open spec fn view(&self) -> TripView {
        TripView {
            id: self.id,
            vehicle_id: self.vehicle_id,
            renter: self.renter@,
            state: self.state@,
            created_at: self.created_at,
        }
    }
}

/// One entry of a trip's live timeline.
#[derive(Clone)]
pub struct TripEvent {
    pub id: u64,
    pub trip_id: u64,
    pub kind: String,
    pub payload: String,
    pub timestamp: spacetimedb::Timestamp,
}

pub struct TripEventView {
    pub id: u64,
    pub trip_id: u64,
    pub kind: Seq<char>,
    pub payload: Seq<char>,
    pub timestamp: spacetimedb::Timestamp,
}

impl View for TripEvent {
    type V = TripEventView;

    open spec fn view(&self) -> TripEventView {
        TripEventView {
            id: self.id,
            trip_id: self.trip_id,
            kind: self.kind@,
            payload: self.payload@,
            timestamp: self.timestamp,
        }
    }
}

/// One telemetry reading of a trip's vehicle. The odometer delta is a 32-bit float,
/// kept here as its bit pattern (`f32::to_bits`): the ledger stores it and never reads it.
#[derive(Clone)]
pub struct Telemetry {
    pub id: u64,
    pub trip_id: u64,
    pub battery: i32,
    pub odometer_delta_bits: u32,
    pub harsh_brake: bool,
    pub geofence_ok: bool,
    pub timestamp: spacetimedb::Timestamp,
}

pub struct TelemetryView {
    pub id: u64,
    pub trip_id: u64,
    pub battery: i32,
    pub odometer_delta_bits: u32,
    pub harsh_brake: bool,
    pub geofence_ok: bool,
    pub timestamp: spacetimedb::Timestamp,
}

impl View for Telemetry {
    type V = TelemetryView;

    open spec fn view(&self) -> TelemetryView {
        TelemetryView {
            id: self.id,
            trip_id: self.trip_id,
            battery: self.battery,
            odometer_delta_bits: self.odometer_delta_bits,
            harsh_brake: self.harsh_brake,
            geofence_ok: self.geofence_ok,
            timestamp: self.timestamp,
        }
    }
}

/// A structured output row of the AI Trust Agent.
#[derive(Clone)]
pub struct AiRecommendation {
    pub id: u64,
    pub trip_id: u64,
    /// unlock | closeout
    pub kind: String,
    /// APPROVE | REVIEW | CLEAN_CLOSE
    pub verdict: String,
    pub body: String,
    pub created_at: spacetimedb::Timestamp,
}

pub struct AiRecommendationView {
    pub id: u64,
    pub trip_id: u64,
    pub kind: Seq<char>,
    pub verdict: Seq<char>,
    pub body: Seq<char>,
    pub created_at: spacetimedb::Timestamp,
}

impl View for AiRecommendation {
    type V = AiRecommendationView;

    open spec fn view(&self) -> AiRecommendationView {
        AiRecommendationView {
            id: self.id,
            trip_id: self.trip_id,
            kind: self.kind@,
            verdict: self.verdict@,
            body: self.body@,
            created_at: self.created_at,
        }
    }
}

/// Static community context for the "Community Ops" panel. One row.
#[derive(Clone)]
pub struct Community {
    pub id: u64,
    pub name: String,
    pub teslas: i32,
    pub residents: i32,
    pub chargers: i32,
}

pub struct CommunityView {
    pub id: u64,
    pub name: Seq<char>,
    pub teslas: i32,
    pub residents: i32,
    pub chargers: i32,
}

impl View for Community {
    type V = CommunityView;

    open spec fn view(&self) -> CommunityView {
        CommunityView {
            id: self.id,
            name: self.name@,
            teslas: self.teslas,
            residents: self.residents,
            chargers: self.chargers,
        }
    }
}

} // verus!
