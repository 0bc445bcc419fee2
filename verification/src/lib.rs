//! VoltPass trip ledger: the Trip Room state machine for resident-only EV sharing.

pub mod laws;
pub mod ledger;
pub mod load;
pub mod messages;
pub mod reducer_laws;
pub mod reducers;
pub mod rows;
pub mod state;
pub mod text;
