//! Access decisions and signed delivery for an asset-management backend.
//!
//! The crate decides whether an identity may act on a stored image, and
//! issues the two kinds of delivery URL: the object key handed to the storage
//! provider for presigning, and the HMAC-signed ticket URL that a resizing
//! service recomputes and compares.
pub mod enums;
pub mod extractors;
pub mod gateway;
pub mod ids;
pub mod middleware;
pub mod models;
pub mod permissions;
pub mod resolver;
pub mod signing;
pub mod storage;
pub mod text;
pub mod uploads;
