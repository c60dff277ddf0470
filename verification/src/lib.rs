//! A capability-secured host-call layer between a sandboxed guest and the
//! host: a rights-checked resource table, a bounds-checked guest-memory
//! marshaling layer, and an authenticated-encryption (AEAD) host-call
//! protocol built on both.

pub mod cipher;
pub mod crypto;
pub mod ctx;
pub mod entry;
pub mod error;
pub mod memory;
pub mod rights;
pub mod string_array;
pub mod table;
