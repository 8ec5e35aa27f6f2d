//! Verified core of the task manager REST service: the request counters of
//! the application state, the sign-up validation rules, the error bodies the
//! service answers with, and the decisions taken by its route handlers.

pub mod state;
pub mod auth;
pub mod validation;
pub mod db;
pub mod models;
pub mod error;
pub mod health;
pub mod routes;
pub mod middleware;
pub mod laws;
