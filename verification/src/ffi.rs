//! The API exposed to the mobile app: plain records and enums, and service
//! objects whose methods call into the library and report failures with one
//! coarse error per area.
use crate::crypto;
use crate::crypto::{decrypt_verdict, encrypt_verdict, kek_params_overflow, kek_verdict, vault_dek_aad};
use crate::doc;
use crate::doc::{conversion_verdict, spec_json_parse, title_verdict, validation_verdict};
use crate::ids;
use crate::ids::{hyphenated, is_uuid_v7};
use crate::lifecycle;
use crate::lifecycle::TRASH_RETENTION_MS;
use crate::reminders;
use crate::reminders::{returns_outcome, trigger_outcome, TriggerOutcome};
use vstd::prelude::*;
use vstd::utf8::encode_utf8;

verus! {

/// How long after the app is backgrounded the vault locks.
#[derive(Debug, Clone, Copy, PartialEq, Eq, Structural)]
pub enum LockDelay {
    Immediate,
    Sec30,
    Min1,
    Min2,
    Min5,
}

/// How often a reminder repeats.
#[derive(Debug, Clone, Copy, PartialEq, Eq, Structural)]
pub enum Recurrence {
    /// Fires once, at the anchor.
    Once,
    Daily,
    Weekly,
    Monthly,
    Yearly,
}

/// Where a note lives.
#[derive(Debug, Clone, Copy, PartialEq, Eq, Structural)]
pub enum NoteState {
    Active,
    Archived,
    Trashed,
}

/// Argon2id cost parameters: memory in MiB, iterations, parallel lanes.
#[derive(Debug, Clone, Copy, PartialEq, Eq, Structural)]
pub struct CryptoParams {
    pub argon_mem_mib: u32,
    pub argon_iters: u32,
    pub argon_lanes: u32,
}

/// A reminder: anchor instant, zone name and recurrence.
#[derive(Debug, Clone, PartialEq, Eq)]
pub struct ReminderSpec {
    pub wall_clock_epoch_ms: i64,
    pub tzid: String,
    pub recurrence: Recurrence,
}

/// The next instant a reminder fires, if any, and whether it is suppressed.
#[derive(Debug, Clone, PartialEq, Eq)]
pub struct NextTriggerResult {
    pub next_epoch_ms: Option<i64>,
    pub suppressed: bool,
}

/// When a note was trashed and when it is to be deleted for good.
#[derive(Debug, Clone, Copy, PartialEq, Eq, Structural)]
pub struct TrashPolicy {
    pub trashed_at_epoch_ms: i64,
    pub hard_delete_at_epoch_ms: i64,
}

/// The error the app sees, one per area.
#[derive(Debug, Clone, Copy, PartialEq, Eq, Structural)]
pub enum CrypNotesError {
    InvalidInput,
    CryptoFailure,
    DocumentFailure,
    ReminderFailure,
    Internal,
}

/// Key derivation and encryption service.
pub struct VaultCrypto;

/// Note document rules service.
pub struct NoteRules;

/// Reminder scheduling service.
pub struct ReminderEngine;

/// Note lifecycle rules service.
pub struct LifecycleRules;

/// Identifier service.
pub struct Ids;

/// A crypto result as the app sees it: every error is `CryptoFailure`.
pub open spec fn crypto_for_app(r: Result<Vec<u8>, crypto::CryptoError>) -> Result<Vec<u8>, CrypNotesError> {
    match r {
        Ok(v) => Ok(v),
        Err(_) => Err(CrypNotesError::CryptoFailure),
    }
}

/// A document result as the app sees it: every error is `DocumentFailure`.
pub open spec fn document_for_app<T>(r: Result<T, doc::DocumentError>) -> Result<T, CrypNotesError> {
    match r {
        Ok(v) => Ok(v),
        Err(_) => Err(CrypNotesError::DocumentFailure),
    }
}

/// The library's parameters for the app's parameters.
pub open spec fn spec_inner_params(p: CryptoParams) -> crypto::CryptoParams {
    crypto::CryptoParams { argon_mem_mib: p.argon_mem_mib, argon_iters: p.argon_iters, argon_lanes: p.argon_lanes }
}

fn crypto_to_app(r: Result<Vec<u8>, crypto::CryptoError>) -> (res: Result<Vec<u8>, CrypNotesError>)
    ensures
        res == crypto_for_app(r),
{
    match r {
        Ok(v) => Ok(v),
        Err(_) => Err(CrypNotesError::CryptoFailure),
    }
}

fn document_to_app<T>(r: Result<T, doc::DocumentError>) -> (res: Result<T, CrypNotesError>)
    ensures
        res == document_for_app(r),
{
    match r {
        Ok(v) => Ok(v),
        Err(_) => Err(CrypNotesError::DocumentFailure),
    }
}

impl VaultCrypto {
    pub fn new() -> Self {
        VaultCrypto
    }

    /// Derives a key-encryption key with Argon2id (see `crypto::derive_kek`).
    pub fn derive_kek(&self, password: String, salt: Vec<u8>, params: CryptoParams) -> (res: Result<Vec<u8>, CrypNotesError>)
        requires
            !kek_params_overflow(salt@.len(), spec_inner_params(params)),
        ensures
            exists|inner: Result<Vec<u8>, crypto::CryptoError>| kek_verdict(encode_utf8(password@), salt@, spec_inner_params(params), inner) && res == crypto_for_app(inner),
    {
        let inner = crypto::CryptoParams {
            argon_mem_mib: params.argon_mem_mib,
            argon_iters: params.argon_iters,
            argon_lanes: params.argon_lanes,
        };
        let r = crypto::derive_kek(password.as_str(), salt.as_slice(), inner);
        crypto_to_app(r)
    }

    /// Wraps a DEK under a KEK (see `crypto::wrap_dek_with_kek`).
    pub fn wrap_dek_with_kek(&self, dek: Vec<u8>, kek: Vec<u8>) -> (res: Result<Vec<u8>, CrypNotesError>)
        ensures
            exists|inner: Result<Vec<u8>, crypto::CryptoError>| encrypt_verdict(kek@, dek@, vault_dek_aad(), inner) && res == crypto_for_app(inner),
    {
        crypto_to_app(crypto::wrap_dek_with_kek(dek.as_slice(), kek.as_slice()))
    }

    /// Unwraps a DEK wrapped under a KEK (see `crypto::unwrap_dek_with_kek`).
    pub fn unwrap_dek_with_kek(&self, wrapped_dek: Vec<u8>, kek: Vec<u8>) -> (res: Result<Vec<u8>, CrypNotesError>)
        ensures
            exists|inner: Result<Vec<u8>, crypto::CryptoError>| decrypt_verdict(kek@, wrapped_dek@, vault_dek_aad(), inner) && res == crypto_for_app(inner),
    {
        crypto_to_app(crypto::unwrap_dek_with_kek(wrapped_dek.as_slice(), kek.as_slice()))
    }

    /// Encrypts a payload under a DEK (see `crypto::encrypt_payload`).
    pub fn encrypt_payload(&self, dek: Vec<u8>, plaintext: Vec<u8>, aad: Vec<u8>) -> (res: Result<Vec<u8>, CrypNotesError>)
        ensures
            exists|inner: Result<Vec<u8>, crypto::CryptoError>| encrypt_verdict(dek@, plaintext@, aad@, inner) && res == crypto_for_app(inner),
    {
        crypto_to_app(crypto::encrypt_payload(dek.as_slice(), plaintext.as_slice(), aad.as_slice()))
    }

    /// Decrypts a payload under a DEK (see `crypto::decrypt_payload`).
    pub fn decrypt_payload(&self, dek: Vec<u8>, ciphertext: Vec<u8>, aad: Vec<u8>) -> (res: Result<Vec<u8>, CrypNotesError>)
        ensures
            exists|inner: Result<Vec<u8>, crypto::CryptoError>| decrypt_verdict(dek@, ciphertext@, aad@, inner) && res == crypto_for_app(inner),
    {
        crypto_to_app(crypto::decrypt_payload(dek.as_slice(), ciphertext.as_slice(), aad.as_slice()))
    }
}

impl Default for VaultCrypto {
    fn default() -> (r: Self)
        ensures
            r == VaultCrypto,
    {
        VaultCrypto::new()
    }
}

/// An unlocked or locked vault session and the decrypted material it caches.
pub struct VaultSession {
    unlocked: bool,
    decrypted_cache: Vec<u8>,
}

impl VaultSession {
    /// Whether the session is unlocked.
    pub closed spec fn spec_unlocked(&self) -> bool {
        self.unlocked
    }

    /// The decrypted material the session holds.
    pub closed spec fn spec_cache(&self) -> Seq<u8> {
        self.decrypted_cache@
    }

    /// A new, unlocked session holding a small sample cache.
    pub fn new() -> (s: Self)
        ensures
            s.spec_unlocked(),
            s.spec_cache() == seq![0xAAu8, 0xBB, 0xCC],
    {
        let cache: Vec<u8> = vec![0xAAu8, 0xBB, 0xCC];
        let s = VaultSession { unlocked: true, decrypted_cache: cache };
        assert(s.spec_cache() =~= seq![0xAAu8, 0xBB, 0xCC]);
        s
    }

    /// Locks the session, zeroizing and dropping the decrypted cache.
    pub fn lock_and_zeroize(&mut self) -> (res: Result<(), CrypNotesError>)
        ensures
            res == Ok::<(), CrypNotesError>(()),
            !final(self).spec_unlocked(),
            final(self).spec_cache().len() == 0,
    {
        zeroize_bytes(&mut self.decrypted_cache);
        self.decrypted_cache.clear();
        self.unlocked = false;
        Ok(())
    }

    /// Whether the session is unlocked.
    pub fn is_unlocked(&self) -> (res: Result<bool, CrypNotesError>)
        ensures
            res == Ok::<bool, CrypNotesError>(self.spec_unlocked()),
    {
        Ok(self.unlocked)
    }
}

impl Default for VaultSession {
    fn default() -> (s: Self)
        ensures
            s.spec_unlocked(),
            s.spec_cache() == seq![0xAAu8, 0xBB, 0xCC],
    {
        VaultSession::new()
    }
}

/// Calls `Zeroize::zeroize` on the vector, which overwrites its elements and
/// spare capacity with zeros and then clears it. The contract states that it
/// is left empty; that the old bytes were overwritten in memory is not
/// something the contract can express.
#[verifier::external_body]
fn zeroize_bytes(bytes: &mut Vec<u8>)
    ensures
        final(bytes)@.len() == 0,
{
    zeroize::Zeroize::zeroize(bytes);
}

impl NoteRules {
    pub fn new() -> Self {
        NoteRules
    }

    /// Validates a note document given as JSON text (see `doc::validate_note_document`).
    pub fn validate_note_document(&self, canonical_json: String) -> (res: Result<(), CrypNotesError>)
        ensures
            exists|inner: Result<(), doc::DocumentError>| validation_verdict(spec_json_parse(canonical_json@), inner) && res == document_for_app(inner),
    {
        document_to_app(doc::validate_note_document(canonical_json.as_str()))
    }

    /// Counts a note's characters against the limit (see `doc::validate_note_char_limit`).
    pub fn validate_note_char_limit(&self, plain_text: String) -> (res: Result<u32, CrypNotesError>)
        ensures
            plain_text@.len() <= doc::NOTE_CHAR_LIMIT ==> res == Ok::<u32, CrypNotesError>(plain_text@.len() as u32),
            plain_text@.len() > doc::NOTE_CHAR_LIMIT ==> res == Err::<u32, CrypNotesError>(CrypNotesError::DocumentFailure),
    {
        document_to_app(doc::validate_note_char_limit(plain_text.as_str()))
    }

    /// The display title of a note (see `doc::derive_display_title`).
    pub fn derive_display_title(&self, explicit_title: String, canonical_json: String) -> (res: Result<String, CrypNotesError>)
        ensures
            exists|inner: Result<String, doc::DocumentError>| title_verdict(explicit_title@, spec_json_parse(canonical_json@), inner) && res == document_for_app(inner),
    {
        document_to_app(doc::derive_display_title(explicit_title.as_str(), canonical_json.as_str()))
    }

    /// Converts every block to an unchecked checklist item (see `doc::convert_text_to_checklist`).
    pub fn convert_text_to_checklist(&self, canonical_json: String) -> (res: Result<String, CrypNotesError>)
        ensures
            exists|inner: Result<String, doc::DocumentError>| conversion_verdict(spec_json_parse(canonical_json@), true, inner) && res == document_for_app(inner),
    {
        document_to_app(doc::convert_text_to_checklist(canonical_json.as_str()))
    }

    /// Converts every block to a paragraph (see `doc::convert_checklist_to_text`).
    pub fn convert_checklist_to_text(&self, canonical_json: String) -> (res: Result<String, CrypNotesError>)
        ensures
            exists|inner: Result<String, doc::DocumentError>| conversion_verdict(spec_json_parse(canonical_json@), false, inner) && res == document_for_app(inner),
    {
        document_to_app(doc::convert_checklist_to_text(canonical_json.as_str()))
    }
}

impl Default for NoteRules {
    fn default() -> (r: Self)
        ensures
            r == NoteRules,
    {
        NoteRules::new()
    }
}

/// The library's recurrence for the app's.
pub open spec fn spec_map_recurrence(input: Recurrence) -> reminders::Recurrence {
    match input {
        Recurrence::Once => reminders::Recurrence::Once,
        Recurrence::Daily => reminders::Recurrence::Daily,
        Recurrence::Weekly => reminders::Recurrence::Weekly,
        Recurrence::Monthly => reminders::Recurrence::Monthly,
        Recurrence::Yearly => reminders::Recurrence::Yearly,
    }
}

/// The reminder engine's note state for the app's.
pub open spec fn spec_map_reminder_state(input: NoteState) -> reminders::NoteState {
    match input {
        NoteState::Active => reminders::NoteState::Active,
        NoteState::Archived => reminders::NoteState::Archived,
        NoteState::Trashed => reminders::NoteState::Trashed,
    }
}

/// The lifecycle rules' note state for the app's.
pub open spec fn spec_map_lifecycle_state(input: NoteState) -> lifecycle::NoteState {
    match input {
        NoteState::Active => lifecycle::NoteState::Active,
        NoteState::Archived => lifecycle::NoteState::Archived,
        NoteState::Trashed => lifecycle::NoteState::Trashed,
    }
}

/// The reminder engine's reminder for the app's.
pub open spec fn spec_inner_reminder(spec: ReminderSpec) -> reminders::ReminderSpec {
    reminders::ReminderSpec {
        wall_clock_epoch_ms: spec.wall_clock_epoch_ms,
        tzid: spec.tzid,
        recurrence: spec_map_recurrence(spec.recurrence),
    }
}

/// A reminder result as the app sees it: every error is `ReminderFailure`.
pub open spec fn reminder_for_app(r: Result<reminders::NextTriggerResult, reminders::ReminderError>) -> Result<NextTriggerResult, CrypNotesError> {
    match r {
        Ok(n) => Ok(NextTriggerResult { next_epoch_ms: n.next_epoch_ms, suppressed: n.suppressed }),
        Err(_) => Err(CrypNotesError::ReminderFailure),
    }
}

fn map_recurrence(input: Recurrence) -> (r: reminders::Recurrence)
    ensures
        r == spec_map_recurrence(input),
{
    match input {
        Recurrence::Once => reminders::Recurrence::Once,
        Recurrence::Daily => reminders::Recurrence::Daily,
        Recurrence::Weekly => reminders::Recurrence::Weekly,
        Recurrence::Monthly => reminders::Recurrence::Monthly,
        Recurrence::Yearly => reminders::Recurrence::Yearly,
    }
}

fn map_reminder_state(input: NoteState) -> (r: reminders::NoteState)
    ensures
        r == spec_map_reminder_state(input),
{
    match input {
        NoteState::Active => reminders::NoteState::Active,
        NoteState::Archived => reminders::NoteState::Archived,
        NoteState::Trashed => reminders::NoteState::Trashed,
    }
}

fn map_lifecycle_state(input: NoteState) -> (r: lifecycle::NoteState)
    ensures
        r == spec_map_lifecycle_state(input),
{
    match input {
        NoteState::Active => lifecycle::NoteState::Active,
        NoteState::Archived => lifecycle::NoteState::Archived,
        NoteState::Trashed => lifecycle::NoteState::Trashed,
    }
}

fn map_next_trigger_result(input: reminders::NextTriggerResult) -> (r: NextTriggerResult)
    ensures
        r.next_epoch_ms == input.next_epoch_ms,
        r.suppressed == input.suppressed,
{
    NextTriggerResult { next_epoch_ms: input.next_epoch_ms, suppressed: input.suppressed }
}

fn map_reminder_spec(spec: ReminderSpec) -> (r: reminders::ReminderSpec)
    ensures
        r == spec_inner_reminder(spec),
{
    reminders::ReminderSpec {
        wall_clock_epoch_ms: spec.wall_clock_epoch_ms,
        tzid: spec.tzid,
        recurrence: map_recurrence(spec.recurrence),
    }
}

fn reminder_to_app(r: Result<reminders::NextTriggerResult, reminders::ReminderError>) -> (res: Result<NextTriggerResult, CrypNotesError>)
    ensures
        res == reminder_for_app(r),
{
    match r {
        Ok(n) => Ok(map_next_trigger_result(n)),
        Err(_) => Err(CrypNotesError::ReminderFailure),
    }
}

impl ReminderEngine {
    pub fn new() -> Self {
        ReminderEngine
    }

    /// The next instant a reminder fires (see `reminders::next_trigger`).
    pub fn next_trigger(&self, spec: ReminderSpec, now_epoch_ms: i64, state: NoteState) -> (res: Result<NextTriggerResult, CrypNotesError>)
        requires
            trigger_outcome(spec_inner_reminder(spec), now_epoch_ms, spec_map_reminder_state(state)) != TriggerOutcome::Panics,
        ensures
            exists|inner: Result<reminders::NextTriggerResult, reminders::ReminderError>| returns_outcome(trigger_outcome(spec_inner_reminder(spec), now_epoch_ms, spec_map_reminder_state(state)), spec.tzid@, inner) && res == reminder_for_app(inner),
            state != NoteState::Active ==> res == Ok::<NextTriggerResult, CrypNotesError>(NextTriggerResult { next_epoch_ms: None, suppressed: true }),
    {
        let inner_spec = map_reminder_spec(spec);
        let out = reminders::next_trigger(&inner_spec, now_epoch_ms, map_reminder_state(state));
        reminder_to_app(out)
    }

    /// `next_trigger` where its computation can be completed; `None` where it
    /// cannot (a wall-clock reading would leave the calendar's range).
    pub fn next_trigger_checked(&self, spec: ReminderSpec, now_epoch_ms: i64, state: NoteState) -> (res: Option<Result<NextTriggerResult, CrypNotesError>>)
        ensures
            res is None <==> trigger_outcome(spec_inner_reminder(spec), now_epoch_ms, spec_map_reminder_state(state)) == TriggerOutcome::Panics,
            res matches Some(r) ==> exists|inner: Result<reminders::NextTriggerResult, reminders::ReminderError>| returns_outcome(trigger_outcome(spec_inner_reminder(spec), now_epoch_ms, spec_map_reminder_state(state)), spec.tzid@, inner) && r == reminder_for_app(inner),
    {
        let inner_spec = reminders::ReminderSpec {
            wall_clock_epoch_ms: spec.wall_clock_epoch_ms,
            tzid: spec.tzid.clone(),
            recurrence: map_recurrence(spec.recurrence),
        };
        match reminders::next_trigger_checked(&inner_spec, now_epoch_ms, map_reminder_state(state)) {
            None => None,
            Some(_) => Some(self.next_trigger(spec, now_epoch_ms, state)),
        }
    }
}

impl Default for ReminderEngine {
    fn default() -> (r: Self)
        ensures
            r == ReminderEngine,
    {
        ReminderEngine::new()
    }
}

impl LifecycleRules {
    pub fn new() -> Self {
        LifecycleRules
    }

    /// The retention policy of a note trashed at the given instant (see
    /// `lifecycle::compute_trash_policy`).
    pub fn compute_trash_policy(&self, trashed_at_epoch_ms: i64) -> (p: TrashPolicy)
        requires
            trashed_at_epoch_ms + TRASH_RETENTION_MS <= i64::MAX,
        ensures
            p.trashed_at_epoch_ms == trashed_at_epoch_ms,
            p.hard_delete_at_epoch_ms == trashed_at_epoch_ms + TRASH_RETENTION_MS,
    {
        let out = lifecycle::compute_trash_policy(trashed_at_epoch_ms);
        TrashPolicy { trashed_at_epoch_ms: out.trashed_at_epoch_ms, hard_delete_at_epoch_ms: out.hard_delete_at_epoch_ms }
    }

    /// Whether reminders of a note in `state` are suppressed.
    pub fn is_reminder_suppressed(&self, state: NoteState) -> (r: bool)
        ensures
            r == lifecycle::suppresses_reminders(spec_map_lifecycle_state(state)),
            r <==> state != NoteState::Active,
    {
        lifecycle::is_reminder_suppressed(map_lifecycle_state(state))
    }
}

impl Default for LifecycleRules {
    fn default() -> (r: Self)
        ensures
            r == LifecycleRules,
    {
        LifecycleRules::new()
    }
}

impl Ids {
    pub fn new() -> Self {
        Ids
    }

    /// A new version 7 UUID in hyphenated lowercase text form.
    pub fn new_uuid_v7(&self) -> (s: String)
        ensures
            exists|b: Seq<u8>| is_uuid_v7(b) && s@ == hyphenated(b),
    {
        let id = ids::new_uuid_v7();
        ids::uuid_to_string(&id)
    }
}

impl Default for Ids {
    fn default() -> (r: Self)
        ensures
            r == Ids,
    {
        Ids::new()
    }
}

/// The lifecycle rules and the reminder engine agree on suppression: reminders
/// of a note are suppressed exactly when the lifecycle rules say so.
pub proof fn lemma_suppression_agrees(spec: ReminderSpec, now_epoch_ms: i64, state: NoteState)
    ensures
        lifecycle::suppresses_reminders(spec_map_lifecycle_state(state)) <==> trigger_outcome(spec_inner_reminder(spec), now_epoch_ms, spec_map_reminder_state(state)) == TriggerOutcome::Suppressed,
{
    reminders::lemma_outcome_shape(spec_inner_reminder(spec), now_epoch_ms, spec_map_reminder_state(state));
}

/// The service derives the key from the caller's parameters unchanged: a key
/// it returns is the 32-byte Argon2id output for the password's UTF-8 bytes
/// and the salt, with `argon_mem_mib` MiB of memory, `argon_iters` passes and
/// `argon_lanes` lanes; a salt shorter than `MIN_SALT_LEN` bytes fails.
pub proof fn lemma_service_kek_uses_given_params(
    password: Seq<char>,
    salt: Seq<u8>,
    params: CryptoParams,
    res: Result<Vec<u8>, CrypNotesError>,
)
    requires
        exists|inner: Result<Vec<u8>, crypto::CryptoError>| kek_verdict(encode_utf8(password), salt, spec_inner_params(params), inner) && res == crypto_for_app(inner),
    ensures
        res matches Ok(k) ==> params.argon_mem_mib * 1024 <= u32::MAX && k@.len() == crypto::KEY_LEN && k@ == crypto::spec_argon2id(
            encode_utf8(password),
            salt,
            (params.argon_mem_mib * 1024) as u32,
            params.argon_iters,
            params.argon_lanes,
            crypto::KEY_LEN,
        ),
        salt.len() < crypto::MIN_SALT_LEN ==> res == Err::<Vec<u8>, CrypNotesError>(CrypNotesError::CryptoFailure),
{
}

} // verus!
