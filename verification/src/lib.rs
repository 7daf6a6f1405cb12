//! Pre-boot firmware support: a write-once global handle for the firmware
//! service table, a classifier for raw firmware status codes, and the
//! alignment arithmetic behind a padding pool allocator that satisfies
//! requests stronger than the pool's native eight-byte guarantee.

pub mod alignment;
pub mod allocator;
pub mod errors;
pub mod global_data;
pub mod helpers;
