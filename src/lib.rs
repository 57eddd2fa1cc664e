//! Capture and publication orchestration for live-stream recording.
//!
//! The library holds the decisions of the engine: which sources the liveness
//! monitor admits, how a recorder job rotates and stops its segments, and how
//! the publication pipeline turns per-profile outcomes into a task status.
//! Waiting, subprocesses and the network stay with the caller, which hands
//! each outcome back to the functions here.

pub mod checker;
pub mod clock;
pub mod manual;
pub mod model;
pub mod monitor;
pub mod paths;
pub mod publish;
pub mod recorder;
pub mod registry;
pub mod settings;
pub mod text;
pub mod uploader;
pub mod web;
