//! The logic of a small statistics service over a client, call and email
//! database: which SQL statements it runs, in which order it gathers the
//! per-client call and email reports, and how it frames each answer.
pub mod models;
pub mod queries;
pub mod response;
pub mod collector;
