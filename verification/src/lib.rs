//! Core of a minimal task-tracking backend, laid out hexagonally: the `Todo`
//! entity and its invariants, the closed domain error taxonomy, the `Repo`
//! and `App` port contracts, the application service that orchestrates
//! creation and completion through the repository port, and an in-memory
//! storage adapter that realizes the port contract, including the
//! read-modify-write protocol used for partial mutation.

pub mod app;
pub mod entities;
pub mod errors;
pub mod ids;
pub mod laws;
pub mod mem_repository;
pub mod store;
pub mod traits;
