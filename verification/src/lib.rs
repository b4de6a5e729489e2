//! Key/value storage on top of an ESP-IDF NVS namespace.
//!
//! The flash itself is reached by the application layer; this library holds
//! the parts that decide: how small values are packed into a single `u64`
//! entry, how they are unpacked again, and what each storage operation returns
//! for each answer that the NVS layer gives.
pub mod error;
pub mod codec;
pub mod storage;
