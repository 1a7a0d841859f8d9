//! Domain rules of an end-to-end encrypted notes vault: key derivation and
//! payload encryption, the canonical note document, time-zone anchored
//! reminders, note lifecycle, identifiers, format versions, and the service
//! API the mobile app calls.
pub mod calendar;
pub mod crypto;
pub mod doc;
pub mod ffi;
pub mod ids;
pub mod lifecycle;
pub mod reminders;
pub mod text;
pub mod versioning;
