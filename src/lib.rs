//! A create-once registry of greetings and the request counters of a small
//! HTTP service, with the decisions of its request/response interceptor.

pub mod registry;
pub mod traffic;
pub mod laws;
