//! Enforcement core of an automated moderation pipeline.
//!
//! An observed user action is recorded, an evaluator says which abuse
//! limits it breaches, and each breach is enforced against the user only
//! when the enforcing agent outranks them; every enforced breach leaves an
//! audit record that cites the actions behind it.
//!
//! The core performs no I/O. `handler::handle_mod_action` starts an
//! invocation and hands out its first command; the caller performs each
//! command against the store, the evaluator or the platform and passes the
//! answer to `pipeline::Pipeline::resume`, which yields the next one.
//!
//! - `model`: the records and their views.
//! - `gate`: the decision whether enforcement may proceed.
//! - `platform`: the hierarchy comparison on the platform's guild data.
//! - `pipeline`: the state machine and its transition function.
//! - `store`: a model of the persistent store that performs the
//!   pipeline's storage commands in memory.
//! - `store_laws`, `pipeline_laws`: what holds of every store and of every
//!   run.

pub mod gate;
pub mod handler;
pub mod model;
pub mod pipeline;
pub mod pipeline_laws;
pub mod platform;
pub mod store;
pub mod store_laws;
