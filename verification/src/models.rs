//! Data model of the service: regions and the wire-facing record shapes.

pub mod client;
pub mod common;
pub mod connection;
pub mod connections;
pub mod countries;
pub mod login;
pub mod notifications;
pub mod region;
