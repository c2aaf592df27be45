//! Types of the mixnet client requests.

pub mod types;
