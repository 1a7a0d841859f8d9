//! Independently versioned formats: the editor document schema, the note
//! payload schema and the encryption container.
use vstd::prelude::*;

verus! {

/// Version of the canonical editor document schema.
pub const DOC_SCHEMA_VERSION: u32 = 1;

/// Version of the serialized note payload schema.
pub const NOTE_PAYLOAD_SCHEMA_VERSION: u32 = 1;

/// Version of the encryption container (nonce and ciphertext layout).
pub const ENCRYPTION_CONTAINER_VERSION: u32 = 1;

/// The three format versions together.
#[derive(Debug, Clone, Copy, PartialEq, Eq, Structural)]
pub struct VersionSet {
    pub doc_schema_version: u32,
    pub note_payload_schema_version: u32,
    pub encryption_container_version: u32,
}

/// The versions this library reads and writes.
pub open spec fn spec_current_versions() -> VersionSet {
    VersionSet {
        doc_schema_version: DOC_SCHEMA_VERSION,
        note_payload_schema_version: NOTE_PAYLOAD_SCHEMA_VERSION,
        encryption_container_version: ENCRYPTION_CONTAINER_VERSION,
    }
}

/// The versions this library reads and writes, each equal to its own constant.
pub fn current_versions() -> (v: VersionSet)
    ensures
        v == spec_current_versions(),
        v.doc_schema_version == DOC_SCHEMA_VERSION,
        v.note_payload_schema_version == NOTE_PAYLOAD_SCHEMA_VERSION,
        v.encryption_container_version == ENCRYPTION_CONTAINER_VERSION,
{
    VersionSet {
        doc_schema_version: DOC_SCHEMA_VERSION,
        note_payload_schema_version: NOTE_PAYLOAD_SCHEMA_VERSION,
        encryption_container_version: ENCRYPTION_CONTAINER_VERSION,
    }
}

} // verus!
