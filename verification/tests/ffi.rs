use crypnotes::ffi::{
    CrypNotesError, CryptoParams, Ids, LifecycleRules, NextTriggerResult, NoteRules, NoteState,
    Recurrence, ReminderEngine, ReminderSpec, VaultCrypto, VaultSession,
};

#[test]
fn vault_session_lock_changes_state() {
    let mut session = VaultSession::new();
    assert!(session.is_unlocked().unwrap());
    session.lock_and_zeroize().unwrap();
    assert!(!session.is_unlocked().unwrap());
}

#[test]
fn ids_generates_uuid_v7_string() {
    let ids = Ids::new();
    let id = ids.new_uuid_v7();
    let parsed = uuid::Uuid::parse_str(&id).unwrap();
    assert_eq!(parsed.get_version_num(), 7);
}

#[test]
fn uuid_strings_are_hyphenated_lowercase() {
    let id = Ids::new().new_uuid_v7();
    assert_eq!(id.len(), 36);
    assert_eq!(id, id.to_lowercase());
    assert_eq!(id.as_bytes()[14], b'7');
}

#[test]
fn vault_crypto_errors_map_to_crypto_failure() {
    let crypto = VaultCrypto::new();
    let params = CryptoParams { argon_mem_mib: 1, argon_iters: 1, argon_lanes: 1 };
    assert_eq!(crypto.derive_kek("pw".to_owned(), vec![0u8; 4], params), Err(CrypNotesError::CryptoFailure));
    assert_eq!(crypto.decrypt_payload(vec![1u8; 32], vec![0u8; 10], vec![]), Err(CrypNotesError::CryptoFailure));
    assert_eq!(crypto.encrypt_payload(vec![1u8; 5], vec![1], vec![]), Err(CrypNotesError::CryptoFailure));
}

#[test]
fn vault_crypto_roundtrips() {
    let crypto = VaultCrypto::default();
    let params = CryptoParams { argon_mem_mib: 1, argon_iters: 1, argon_lanes: 1 };
    let kek = crypto.derive_kek("correct horse".to_owned(), b"0123456789abcdef".to_vec(), params).unwrap();
    let dek = vec![42u8; 32];
    let wrapped = crypto.wrap_dek_with_kek(dek.clone(), kek.clone()).unwrap();
    assert_eq!(crypto.unwrap_dek_with_kek(wrapped, kek).unwrap(), dek);
    let sealed = crypto.encrypt_payload(dek.clone(), b"body".to_vec(), b"id".to_vec()).unwrap();
    assert_eq!(crypto.decrypt_payload(dek, sealed, b"id".to_vec()).unwrap(), b"body".to_vec());
}

#[test]
fn note_rules_map_errors_to_document_failure() {
    let rules = NoteRules::new();
    assert_eq!(rules.validate_note_document("null".to_owned()), Err(CrypNotesError::DocumentFailure));
    assert_eq!(rules.validate_note_document("not json".to_owned()), Err(CrypNotesError::DocumentFailure));
    assert_eq!(rules.validate_note_char_limit("a".repeat(20_001)), Err(CrypNotesError::DocumentFailure));
    assert_eq!(rules.validate_note_char_limit("abc".to_owned()), Ok(3));
    assert_eq!(rules.derive_display_title("".to_owned(), "{".to_owned()), Err(CrypNotesError::DocumentFailure));
    assert_eq!(rules.convert_text_to_checklist("true".to_owned()), Err(CrypNotesError::DocumentFailure));
    assert_eq!(rules.convert_checklist_to_text("[]".to_owned()), Err(CrypNotesError::DocumentFailure));
    assert_eq!(rules.convert_checklist_to_text("not json".to_owned()), Err(CrypNotesError::DocumentFailure));
    assert_eq!(
        rules.convert_checklist_to_text(r#"{"blocks":[{"type":"image","text":"x"}]}"#.to_owned()),
        Err(CrypNotesError::DocumentFailure)
    );
}

#[test]
fn note_rules_title_and_conversion() {
    let rules = NoteRules::default();
    let doc = || r#"{"blocks":[{"type":"paragraph","text":" Hi "}]}"#.to_owned();
    assert_eq!(rules.validate_note_document(doc()), Ok(()));
    assert_eq!(rules.derive_display_title("".to_owned(), doc()), Ok("Hi".to_owned()));
    let checklist = rules.convert_text_to_checklist(doc()).unwrap();
    assert_eq!(checklist, r#"{"blocks":[{"type":"checklist_item","text":" Hi ","checked":false}]}"#);
    assert_eq!(rules.convert_checklist_to_text(checklist).unwrap(), doc());
}

#[test]
fn reminder_engine_maps_records() {
    let engine = ReminderEngine::new();
    let spec = ReminderSpec { wall_clock_epoch_ms: 1_000, tzid: "UTC".to_owned(), recurrence: Recurrence::Once };
    assert_eq!(
        engine.next_trigger(spec.clone(), 0, NoteState::Active),
        Ok(NextTriggerResult { next_epoch_ms: Some(1_000), suppressed: false })
    );
    assert_eq!(
        engine.next_trigger(spec.clone(), 0, NoteState::Archived),
        Ok(NextTriggerResult { next_epoch_ms: None, suppressed: true })
    );
    let bad = ReminderSpec { wall_clock_epoch_ms: 1_000, tzid: "Bad/Zone".to_owned(), recurrence: Recurrence::Daily };
    assert_eq!(engine.next_trigger(bad.clone(), 0, NoteState::Active), Err(CrypNotesError::ReminderFailure));
    assert_eq!(engine.next_trigger_checked(bad, 0, NoteState::Active), Some(Err(CrypNotesError::ReminderFailure)));
    let daily = ReminderSpec { wall_clock_epoch_ms: 0, tzid: "UTC".to_owned(), recurrence: Recurrence::Daily };
    assert_eq!(
        ReminderEngine::default().next_trigger(daily, 86_400_001, NoteState::Active),
        Ok(NextTriggerResult { next_epoch_ms: Some(172_800_000), suppressed: false })
    );
}

#[test]
fn lifecycle_rules_service() {
    let rules = LifecycleRules::new();
    let p = rules.compute_trash_policy(1_000);
    assert_eq!(p.trashed_at_epoch_ms, 1_000);
    assert_eq!(p.hard_delete_at_epoch_ms, 1_000 + 2_592_000_000);
    assert!(!LifecycleRules::default().is_reminder_suppressed(NoteState::Active));
    assert!(rules.is_reminder_suppressed(NoteState::Archived));
    assert!(rules.is_reminder_suppressed(NoteState::Trashed));
}

#[test]
fn lifecycle_and_reminder_engine_agree_on_suppression() {
    let engine = ReminderEngine::new();
    let rules = LifecycleRules::new();
    let spec = ReminderSpec { wall_clock_epoch_ms: 0, tzid: "UTC".to_owned(), recurrence: Recurrence::Daily };
    for state in [NoteState::Active, NoteState::Archived, NoteState::Trashed] {
        let out = engine.next_trigger(spec.clone(), 5, state).unwrap();
        assert_eq!(out.suppressed, rules.is_reminder_suppressed(state));
    }
}
