//! Core of a desktop installer: an orchestration engine that runs an ordered
//! pipeline of install stages in a background worker, reports stage
//! transitions and fractional progress to a controller, honors cooperative
//! cancellation, and surfaces exactly one terminal outcome per run.
//!
//! The library holds the verified logic only: the pipeline state machine, the
//! controller's dispatch rules, the shared install state, and the worker
//! lifecycle. Presentation (windows, labels, audio) and blocking work
//! (downloads, archive extraction, thread joins) are collaborators that an
//! embedding drives around this core.

pub mod stage;
pub mod event;
pub mod progress;
pub mod trace;
pub mod pipeline;
pub mod state;
pub mod worker;
pub mod controller;




