use crypnotes::versioning::{
    current_versions, VersionSet, DOC_SCHEMA_VERSION, ENCRYPTION_CONTAINER_VERSION,
    NOTE_PAYLOAD_SCHEMA_VERSION,
};

#[test]
fn current_versions_match_individual_constants() {
    let versions = current_versions();
    assert_eq!(versions.doc_schema_version, DOC_SCHEMA_VERSION);
    assert_eq!(versions.note_payload_schema_version, NOTE_PAYLOAD_SCHEMA_VERSION);
    assert_eq!(versions.encryption_container_version, ENCRYPTION_CONTAINER_VERSION);
}

#[test]
fn current_versions_are_all_one() {
    assert_eq!(
        current_versions(),
        VersionSet { doc_schema_version: 1, note_payload_schema_version: 1, encryption_container_version: 1 }
    );
}
