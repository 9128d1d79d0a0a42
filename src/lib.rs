//! Language identification by a two-stage classifier cascade, and the plain
//! request and response values of the translation service's HTTP API.

pub mod api;
pub mod cascade;
pub mod confidence;
pub mod error;
pub mod guarantees;
pub mod taxonomy;
