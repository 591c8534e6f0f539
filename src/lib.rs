//! Two small contract modules that share one pattern: load a record, check
//! the caller, change the record, save it.
//!
//! - [`counter`]: a signed counter that anyone may step up or down and only
//!   its owner may reset.
//! - [`admin_list`]: a roster of admins that gates the forwarding of opaque
//!   operations, with a one-way freeze of the roster.
//!
//! Storage, address validation and message encoding belong to the host: the
//! functions here take the loaded record and the host's answers as plain
//! values and hand back the changed record and the response.
pub mod admin_list;
pub mod counter;
pub mod error;
pub mod response;
