//! Hyper-V virtual machines: listing, lookup by id, and the choice of the
//! management namespace to connect to.
pub mod connect;
pub mod getvm;
pub mod list;
