//! A cache client for a small home-lab inventory: it writes a serialized
//! value under a key in a remote key-value service and reads it back,
//! translating transport and service failures into an explicit error type.

pub mod cache;
pub mod errors;
pub mod model;
pub mod redis_io;
