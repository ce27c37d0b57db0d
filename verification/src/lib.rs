//! Core of a small tutoring web service: domain records for courses and
//! tutors, a closed error taxonomy with its HTTP status mapping, a data-access
//! layer specified against a model of the relational store, shared application
//! state with a visit counter, and the route table with its handlers.

pub mod db_access;
pub mod errors;
pub mod handlers;
pub mod models;
pub mod routes;
pub mod state;
pub mod store;
