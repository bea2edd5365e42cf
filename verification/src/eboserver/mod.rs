//! Management of `EboServer` resources: the state machine and the record the
//! operator keeps of each server.

pub mod manager;
pub mod reconcile;
pub mod error;
pub mod fsm;
