//! Subscriber intake for a newsletter service: validation of subscriber
//! names and emails, the decisions of the subscription endpoint, and the
//! settings that the service runs with.

pub mod text;
pub mod domain;
pub mod routes;
pub mod configuration;
