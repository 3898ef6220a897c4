//! Verified core of a Hyper-V management web service.
pub mod text;
pub mod virt;
pub mod auth;
pub mod host;
pub mod routes;
