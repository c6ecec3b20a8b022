//! Verified core of a host that wakes coding agents on provider signals.

#![allow(unused_imports)]

pub mod ack;
pub mod ack_handled;
pub mod ack_laws;
pub mod admission;
pub mod attach;
pub mod attempt;
pub mod authority;
pub mod authority_laws;
pub mod authority_model;
pub mod bytes;
pub mod check;
pub mod child;
pub mod claim_laws;
pub mod codex;
pub mod codex_laws;
pub mod codex_steps;
pub mod controller;
pub mod coordinator;
pub mod daemon;
pub mod decision_laws;
pub mod delivery;
pub mod evidence;
pub mod exchange;
pub mod face_laws;
pub mod frame_laws;
pub mod ident;
pub mod interrupt;
pub mod launch;
pub mod link;
pub mod link_laws;
pub mod outcome_laws;
pub mod paths;
pub mod persist;
pub mod phase_laws;
pub mod primitives;
pub mod protocol;
pub mod receipt_laws;
pub mod record_laws;
pub mod records;
pub mod sanitize;
pub mod secret;
pub mod store;
pub mod store_laws;
pub mod table;
pub mod text;
pub mod text_table;
pub mod timestamp;
pub mod transport;
pub mod turn_laws;
pub mod wait_on;
pub mod who;
