//! What the operations of the library promise, each stated of every result that the operation can
//! give, in terms of what went into it.
pub mod fields;
pub mod keys;
pub mod knobs;
pub mod loading;
pub mod readings;
pub mod reports;
pub mod requests;
pub mod sources;
pub mod spans;
pub mod texts;
