//! Resolution of storage region identifiers into the scheme, host and
//! display name that a client needs to reach them.

pub mod region;
