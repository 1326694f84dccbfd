//! Decision logic of the Veda platform services: the read-only storage
//! service and its client, authentication, the CCUS websocket session,
//! the full-text indexer, the BPMN script runner and the WinPak connector.
//! Input and output stay with the caller; every function here is a pure
//! step from plain values to plain values, verified by Verus.

pub mod text;
pub mod codes;
pub mod user_stats;
pub mod sources;
pub mod auth;
pub mod storage;
pub mod winpak;
pub mod ccus;
pub mod indexer;
pub mod bpmn;
