//! State-management and reward-accounting engine for a sustainability
//! gamification service.
//!
//! The engine keeps the whole domain state — users, waste footprints,
//! quizzes, courses, challenges, a token ledger, notifications, feedback,
//! a reward catalog and an append-only action log — in one in-memory
//! snapshot, and exposes the request handlers that read and mutate it.
//! Every handler carries a contract describing exactly which inputs
//! succeed, which typed error each failing input produces, and how the
//! snapshot changes.

pub mod accounts;
pub mod catalog;
pub mod collaborators;
pub mod domain;
pub mod engine;
pub mod errors;
pub mod footprint;
pub mod keyed;
pub mod laws;
pub mod leaderboard;
pub mod ledger;
pub mod notify;
pub mod participation;
pub mod queries;
