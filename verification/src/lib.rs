//! Core business logic of a workout-tracking application: a synchronous
//! event reducer over a single-session model, a view projection, a plate
//! loading calculator, and the relational mapping of the workout aggregate.

pub mod clock;
pub mod events;
pub mod id;
pub mod model;
pub mod models;
pub mod plates;
pub mod store;
pub mod text;
pub mod update;
pub mod view;
