//! User edits to activities that a broker sync imported: the identity that ties an edit to the
//! broker's record, the payload that carries the edit between devices, and the id of its outbox
//! entry.

use vstd::prelude::*;

use sha2::{Digest, Sha256};
use vstd::utf8::encode_utf8;

use crate::text::{
    ascii_uppercase, decimal_text, hex_prefix, hex_prefix_text, is_white_space,
    lemma_ascii_uppercase_facts, lemma_trim_idempotent, string_from, to_ascii_uppercase, trim,
    trimmed, usize_decimal,
};

verus! {

/// SHA-256 of a byte string.
pub uninterp spec fn sha256_of(data: Seq<u8>) -> Seq<u8>;

/// `Sha256::digest`: the SHA-256 hash of `data`, 32 bytes long. Feeding the same bytes to one
/// hasher in several `update` calls gives the same hash, so this one call stands for a sequence
/// of updates over the concatenated bytes.
#[verifier::external_body]
fn sha256_digest(data: &[u8]) -> (hash: Vec<u8>)
    ensures
        hash@ == sha256_of(data@),
        hash@.len() == 32,
{
    Sha256::digest(data).to_vec()
}

/// The prefix of every broker activity patch entity id.
pub open spec fn entity_id_prefix() -> Seq<char> {
    "broker_activity_patch:"@
}

/// `value` trimmed, or `None` when nothing but white space remains.
pub open spec fn normalized_required(value: Seq<char>) -> Option<Seq<char>> {
    let t = trim(value);
    if t.len() == 0 {
        None
    } else {
        Some(t)
    }
}

/// A source system name: trimmed and in ASCII upper case, or `None` when empty.
pub open spec fn normalized_source_system(value: Seq<char>) -> Option<Seq<char>> {
    match normalized_required(value) {
        Some(t) => Some(ascii_uppercase(t)),
        None => None,
    }
}

/// An optional value, trimmed, or `None` when absent or empty.
pub open spec fn normalized_optional(value: Option<Seq<char>>) -> Option<Seq<char>> {
    match value {
        Some(v) => normalized_required(v),
        None => None,
    }
}

/// The contents of an optional string.
pub open spec fn opt_chars(o: Option<String>) -> Option<Seq<char>> {
    match o {
        Some(s) => Some(s@),
        None => None,
    }
}

/// The contents of an optional string slice.
pub open spec fn opt_str_chars(o: Option<&str>) -> Option<Seq<char>> {
    match o {
        Some(s) => Some(s@),
        None => None,
    }
}

/// The identity of a broker record: normalized source system (not a manual or CSV import),
/// provider account and source record, each present and not blank.
pub open spec fn identity_of(
    source_system: Option<Seq<char>>,
    provider_account_id: Option<Seq<char>>,
    source_record_id: Option<Seq<char>>,
) -> Option<(Seq<char>, Seq<char>, Seq<char>)> {
    match (
        match source_system {
            Some(s) => normalized_source_system(s),
            None => None,
        },
        normalized_optional(provider_account_id),
        normalized_optional(source_record_id),
    ) {
        (Some(s), Some(p), Some(r)) => if s == "MANUAL"@ || s == "CSV"@ {
            None
        } else {
            Some((s, p, r))
        },
        _ => None,
    }
}

/// The identity of a broker-imported activity.
#[derive(Clone, Debug)]
pub struct BrokerActivityIdentity {
    pub source_system: String,
    pub provider_account_id: String,
    pub source_record_id: String,
}

impl BrokerActivityIdentity {
    /// The three parts of the identity.
    pub open spec fn parts(self) -> (Seq<char>, Seq<char>, Seq<char>) {
        (self.source_system@, self.provider_account_id@, self.source_record_id@)
    }
}

/// The user's edits to a broker-imported activity.
#[derive(Clone, Debug)]
pub struct BrokerActivityUserOverlay {
    pub notes: Option<String>,
    pub activity_type_override: Option<String>,
    pub subtype: Option<String>,
    pub needs_review: bool,
}

/// The payload that carries a user's edits to a broker-imported activity.
#[derive(Clone, Debug)]
pub struct BrokerActivityUserPatchPayload {
    pub source_system: String,
    pub provider_account_id: String,
    pub source_record_id: String,
    pub overlay: BrokerActivityUserOverlay,
}

/// The fields of a stored activity that broker patches read.
#[derive(Clone, Debug)]
pub struct ActivityRecord {
    pub source_system: Option<String>,
    pub source_record_id: Option<String>,
    pub notes: Option<String>,
    pub activity_type_override: Option<String>,
    pub subtype: Option<String>,
    pub needs_review: i32,
}

/// An outbox entry that updates the user patch of a broker activity: its entity id and payload.
#[derive(Clone, Debug)]
pub struct BrokerActivityUserPatch {
    pub entity_id: String,
    pub payload: BrokerActivityUserPatchPayload,
}

/// The error of a payload whose identity is not that of a broker record.
#[derive(Clone, Copy, Debug, PartialEq, Eq, Structural)]
pub enum PatchPayloadError {
    InvalidIdentity,
}

impl PatchPayloadError {
    /// The message of the error.
    pub fn message(&self) -> (s: String)
        ensures
            s@ == "Invalid broker activity user patch identity"@,
    {
        string_from("Invalid broker activity user patch identity")
    }
}

/// `value` trimmed, or `None` when nothing but white space remains.
pub fn normalize_required(value: &str) -> (r: Option<String>)
    ensures
        opt_chars(r) == normalized_required(value@),
{
    let t = trimmed(value);
    if t.as_str().is_empty() {
        None
    } else {
        Some(t)
    }
}

/// A source system name, trimmed and in ASCII upper case, or `None` when empty.
pub fn normalize_source_system(value: &str) -> (r: Option<String>)
    ensures
        opt_chars(r) == normalized_source_system(value@),
{
    match normalize_required(value) {
        Some(t) => Some(to_ascii_uppercase(t.as_str())),
        None => None,
    }
}

/// An optional value, trimmed, or `None` when absent or empty.
pub fn normalize_optional(value: Option<&str>) -> (r: Option<String>)
    ensures
        opt_chars(r) == normalized_optional(opt_str_chars(value)),
{
    match value {
        Some(v) => normalize_required(v),
        None => None,
    }
}

/// The identity of a broker-imported activity, or `None` when the activity is a manual or CSV
/// import or lacks one of the three parts.
pub fn broker_activity_identity(
    source_system: Option<&str>,
    provider_account_id: Option<&str>,
    source_record_id: Option<&str>,
) -> (r: Option<BrokerActivityIdentity>)
    ensures
        match r {
            Some(id) => identity_of(
                opt_str_chars(source_system),
                opt_str_chars(provider_account_id),
                opt_str_chars(source_record_id),
            ) == Some(id.parts()),
            None => identity_of(
                opt_str_chars(source_system),
                opt_str_chars(provider_account_id),
                opt_str_chars(source_record_id),
            ) is None,
        },
{
    let source_system = match source_system {
        Some(s) => match normalize_source_system(s) {
            Some(n) => n,
            None => return None,
        },
        None => return None,
    };
    if source_system == string_from("MANUAL") || source_system == string_from("CSV") {
        return None;
    }
    let provider_account_id = match normalize_optional(provider_account_id) {
        Some(p) => p,
        None => return None,
    };
    let source_record_id = match normalize_optional(source_record_id) {
        Some(r) => r,
        None => return None,
    };
    Some(BrokerActivityIdentity { source_system, provider_account_id, source_record_id })
}

/// The bytes that a component of the identity contributes to its hash: its length in bytes in
/// decimal, `:`, its UTF-8 bytes, `;`.
pub open spec fn component_bytes(value: Seq<char>) -> Seq<u8> {
    encode_utf8(decimal_text(encode_utf8(value).len())) + seq![58u8] + encode_utf8(value)
        + seq![59u8]
}

/// The entity id of the user patch of a broker activity: the prefix, then the first 32
/// hexadecimal digits of the SHA-256 of the three components.
pub open spec fn entity_id_of(id: (Seq<char>, Seq<char>, Seq<char>)) -> Seq<char> {
    entity_id_prefix() + hex_prefix_text(
        sha256_of(component_bytes(id.0) + component_bytes(id.1) + component_bytes(id.2)),
        32,
    )
}

fn push_component(data: &mut Vec<u8>, value: &String)
    ensures
        final(data)@ == old(data)@ + component_bytes(value@),
{
    let bytes = value.as_str().as_bytes();
    let len = usize_decimal(bytes.len());
    data.extend_from_slice(len.as_str().as_bytes());
    data.push(58u8);
    data.extend_from_slice(bytes);
    data.push(59u8);
    assert(final(data)@ =~= old(data)@ + component_bytes(value@));
}

/// The entity id of the user patch of the activity with this identity.
pub fn broker_activity_user_patch_entity_id(identity: &BrokerActivityIdentity) -> (id: String)
    ensures
        id@ == entity_id_of(identity.parts()),
        id@.len() == entity_id_prefix().len() + 32,
{
    let mut data: Vec<u8> = Vec::new();
    push_component(&mut data, &identity.source_system);
    push_component(&mut data, &identity.provider_account_id);
    push_component(&mut data, &identity.source_record_id);
    assert(data@ =~= component_bytes(identity.parts().0) + component_bytes(identity.parts().1)
        + component_bytes(identity.parts().2));
    let digest = sha256_digest(data.as_slice());
    let mut id = string_from("broker_activity_patch:");
    id.append(hex_prefix(digest.as_slice(), 32).as_str());
    id
}

/// The overlay that an activity's user edits give: its notes as they are, its type override and
/// subtype normalized, and whether it needs review.
pub open spec fn overlay_parts(activity: ActivityRecord) -> (
    Option<Seq<char>>,
    Option<Seq<char>>,
    Option<Seq<char>>,
    bool,
) {
    (
        opt_chars(activity.notes),
        normalized_optional(opt_chars(activity.activity_type_override)),
        normalized_optional(opt_chars(activity.subtype)),
        activity.needs_review != 0,
    )
}

impl BrokerActivityUserOverlay {
    /// The four parts of the overlay.
    pub open spec fn parts(self) -> (Option<Seq<char>>, Option<Seq<char>>, Option<Seq<char>>, bool) {
        (
            opt_chars(self.notes),
            opt_chars(self.activity_type_override),
            opt_chars(self.subtype),
            self.needs_review,
        )
    }
}

impl BrokerActivityUserPatchPayload {
    /// The identity parts of the payload.
    pub open spec fn identity_parts(self) -> (Seq<char>, Seq<char>, Seq<char>) {
        (self.source_system@, self.provider_account_id@, self.source_record_id@)
    }
}

/// The contents of an optional string slice built from an optional string.
fn as_deref(o: &Option<String>) -> (r: Option<&str>)
    ensures
        opt_str_chars(r) == opt_chars(*o),
{
    match o {
        Some(s) => Some(s.as_str()),
        None => None,
    }
}

fn clone_opt(o: &Option<String>) -> (r: Option<String>)
    ensures
        opt_chars(r) == opt_chars(*o),
{
    match o {
        Some(s) => Some(s.clone()),
        None => None,
    }
}

/// The outbox entry that carries the user edits of `activity`, or `None` when the activity is
/// not a broker import (see `broker_activity_identity`).
pub fn broker_activity_user_patch_request(
    activity: &ActivityRecord,
    provider_account_id: Option<&str>,
) -> (r: Option<BrokerActivityUserPatch>)
    ensures
        match identity_of(
            opt_chars(activity.source_system),
            opt_str_chars(provider_account_id),
            opt_chars(activity.source_record_id),
        ) {
            None => r is None,
            Some(id) => r matches Some(patch) && patch.payload.identity_parts() == id
                && patch.payload.overlay.parts() == overlay_parts(*activity) && patch.entity_id@
                == entity_id_of(id),
        },
{
    let identity = match broker_activity_identity(
        as_deref(&activity.source_system),
        provider_account_id,
        as_deref(&activity.source_record_id),
    ) {
        Some(identity) => identity,
        None => return None,
    };
    let entity_id = broker_activity_user_patch_entity_id(&identity);
    let payload = BrokerActivityUserPatchPayload {
        source_system: identity.source_system.clone(),
        provider_account_id: identity.provider_account_id.clone(),
        source_record_id: identity.source_record_id.clone(),
        overlay: BrokerActivityUserOverlay {
            notes: clone_opt(&activity.notes),
            activity_type_override: normalize_optional(as_deref(&activity.activity_type_override)),
            subtype: normalize_optional(as_deref(&activity.subtype)),
            needs_review: activity.needs_review != 0,
        },
    };
    Some(BrokerActivityUserPatch { entity_id, payload })
}

/// Whether the user edits differ between two versions of an activity: notes, normalized type
/// override, normalized subtype or review flag.
pub open spec fn overlay_differs(before: ActivityRecord, after: ActivityRecord) -> bool {
    ||| opt_chars(before.notes) != opt_chars(after.notes)
    ||| normalized_optional(opt_chars(before.activity_type_override)) != normalized_optional(
        opt_chars(after.activity_type_override),
    )
    ||| normalized_optional(opt_chars(before.subtype)) != normalized_optional(opt_chars(after.subtype))
    ||| before.needs_review != after.needs_review
}

fn opt_eq(a: &Option<String>, b: &Option<String>) -> (r: bool)
    ensures
        r == (opt_chars(*a) == opt_chars(*b)),
{
    match (a, b) {
        (Some(x), Some(y)) => *x == *y,
        (None, None) => true,
        _ => false,
    }
}

/// Whether the user edits changed from `before` to `after`.
pub fn broker_activity_user_overlay_changed(before: &ActivityRecord, after: &ActivityRecord) -> (r:
    bool)
    ensures
        r == overlay_differs(*before, *after),
{
    !opt_eq(&before.notes, &after.notes) || !opt_eq(
        &normalize_optional(as_deref(&before.activity_type_override)),
        &normalize_optional(as_deref(&after.activity_type_override)),
    ) || !opt_eq(
        &normalize_optional(as_deref(&before.subtype)),
        &normalize_optional(as_deref(&after.subtype)),
    ) || before.needs_review != after.needs_review
}

/// A received payload with its identity and overlay normalized, or the error when its identity is
/// not that of a broker record. Notes and the review flag are kept as they are.
pub fn validate_broker_activity_user_patch_payload(parsed: BrokerActivityUserPatchPayload) -> (r:
    Result<BrokerActivityUserPatchPayload, PatchPayloadError>)
    ensures
        match identity_of(
            Some(parsed.source_system@),
            Some(parsed.provider_account_id@),
            Some(parsed.source_record_id@),
        ) {
            None => r == Err::<BrokerActivityUserPatchPayload, PatchPayloadError>(
                PatchPayloadError::InvalidIdentity,
            ),
            Some(id) => r matches Ok(p) && p.identity_parts() == id && p.overlay.parts() == (
                opt_chars(parsed.overlay.notes),
                normalized_optional(opt_chars(parsed.overlay.activity_type_override)),
                normalized_optional(opt_chars(parsed.overlay.subtype)),
                parsed.overlay.needs_review,
            ),
        },
{
    let identity = match broker_activity_identity(
        Some(parsed.source_system.as_str()),
        Some(parsed.provider_account_id.as_str()),
        Some(parsed.source_record_id.as_str()),
    ) {
        Some(identity) => identity,
        None => return Err(PatchPayloadError::InvalidIdentity),
    };
    let activity_type_override = normalize_optional(as_deref(&parsed.overlay.activity_type_override));
    let subtype = normalize_optional(as_deref(&parsed.overlay.subtype));
    Ok(
        BrokerActivityUserPatchPayload {
            source_system: identity.source_system,
            provider_account_id: identity.provider_account_id,
            source_record_id: identity.source_record_id,
            overlay: BrokerActivityUserOverlay {
                notes: parsed.overlay.notes,
                activity_type_override,
                subtype,
                needs_review: parsed.overlay.needs_review,
            },
        },
    )
}

/// A normalized value normalizes to itself.
pub proof fn lemma_normalized_required_idempotent(value: Seq<char>)
    ensures
        normalized_required(value) matches Some(t) ==> normalized_required(t) == Some(t),
{
    lemma_trim_idempotent(value);
}

/// A normalized optional value normalizes to itself.
pub proof fn lemma_normalized_optional_idempotent(value: Option<Seq<char>>)
    ensures
        normalized_optional(normalized_optional(value)) == normalized_optional(value),
{
    if let Some(v) = value {
        lemma_normalized_required_idempotent(v);
    }
}

/// A normalized source system normalizes to itself.
pub proof fn lemma_normalized_source_system_idempotent(value: Seq<char>)
    ensures
        normalized_source_system(value) matches Some(u) ==> normalized_source_system(u) == Some(u),
{
    lemma_trim_idempotent(value);
    let t = trim(value);
    if t.len() > 0 {
        let u = ascii_uppercase(t);
        lemma_ascii_uppercase_facts(t);
        assert(!is_white_space(u[0]));
        assert(!is_white_space(u[u.len() - 1]));
        assert(u.last() == u[u.len() - 1]);
        crate::text::lemma_trim_of_clean(u);
    }
}

/// The identity that normalization gives is normalized already: its parts give it back.
/// This is what lets a payload built by `broker_activity_user_patch_request` pass
/// `validate_broker_activity_user_patch_payload` unchanged.
pub proof fn lemma_identity_fixed_point(
    source_system: Option<Seq<char>>,
    provider_account_id: Option<Seq<char>>,
    source_record_id: Option<Seq<char>>,
)
    ensures
        identity_of(source_system, provider_account_id, source_record_id) matches Some(id)
            ==> identity_of(Some(id.0), Some(id.1), Some(id.2)) == Some(id),
{
    if let Some(s) = source_system {
        lemma_normalized_source_system_idempotent(s);
    }
    if let Some(p) = provider_account_id {
        lemma_normalized_required_idempotent(p);
    }
    if let Some(r) = source_record_id {
        lemma_normalized_required_idempotent(r);
    }
}

/// A payload built for an activity passes validation unchanged: the identity and the overlay
/// that validation gives are those the payload holds.
pub proof fn lemma_built_payload_validates(
    activity: ActivityRecord,
    provider_account_id: Option<Seq<char>>,
    payload: BrokerActivityUserPatchPayload,
)
    requires
        identity_of(
            opt_chars(activity.source_system),
            provider_account_id,
            opt_chars(activity.source_record_id),
        ) == Some(payload.identity_parts()),
        payload.overlay.parts() == overlay_parts(activity),
    ensures
        identity_of(
            Some(payload.source_system@),
            Some(payload.provider_account_id@),
            Some(payload.source_record_id@),
        ) == Some(payload.identity_parts()),
        (
            opt_chars(payload.overlay.notes),
            normalized_optional(opt_chars(payload.overlay.activity_type_override)),
            normalized_optional(opt_chars(payload.overlay.subtype)),
            payload.overlay.needs_review,
        ) == payload.overlay.parts(),
{
    lemma_identity_fixed_point(
        opt_chars(activity.source_system),
        provider_account_id,
        opt_chars(activity.source_record_id),
    );
    lemma_normalized_optional_idempotent(opt_chars(activity.activity_type_override));
    lemma_normalized_optional_idempotent(opt_chars(activity.subtype));
}

/// Manual and CSV imports have no broker identity, whatever their case and surrounding white
/// space.
pub proof fn lemma_manual_and_csv_have_no_identity(
    source_system: Seq<char>,
    provider_account_id: Option<Seq<char>>,
    source_record_id: Option<Seq<char>>,
)
    requires
        normalized_source_system(source_system) == Some("MANUAL"@) || normalized_source_system(
            source_system,
        ) == Some("CSV"@),
    ensures
        identity_of(Some(source_system), provider_account_id, source_record_id) is None,
{
}

/// An activity's edits never differ from themselves, and the comparison is symmetric.
pub proof fn lemma_overlay_differs_symmetric(a: ActivityRecord, b: ActivityRecord)
    ensures
        !overlay_differs(a, a),
        overlay_differs(a, b) == overlay_differs(b, a),
{
}

/// The trimmed text of an optional value, or `None` when it is absent or nothing but white space
/// remains once trimmed.
pub open spec fn trimmed_or_none(value: Option<String>) -> Option<Seq<char>> {
    match value {
        Some(v) => if trim(v@).len() == 0 {
            None
        } else {
            Some(trim(v@))
        },
        None => None,
    }
}

/// The overlay of a patch carries every edit the user made to the activity: the notes exactly
/// as they are, the type override and the subtype trimmed (absent only when missing or blank),
/// and whether the activity needs review.
pub proof fn lemma_overlay_carries_user_edits(activity: ActivityRecord)
    ensures
        overlay_parts(activity).0 == opt_chars(activity.notes),
        overlay_parts(activity).1 == trimmed_or_none(activity.activity_type_override),
        overlay_parts(activity).2 == trimmed_or_none(activity.subtype),
        overlay_parts(activity).3 == (activity.needs_review != 0),
        activity.subtype matches Some(s) ==> (trim(s@).len() > 0 ==> overlay_parts(activity).2
            == Some(trim(s@))),
        activity.activity_type_override matches Some(s) ==> (trim(s@).len() > 0 ==> overlay_parts(
            activity,
        ).1 == Some(trim(s@))),
{
}

/// A change of the user's edits is detected exactly when the patch that carries them would
/// change, or the review flag's stored value changed: every edit that alters the patch (notes,
/// type override, subtype) is reported, and two versions whose patches agree and whose review
/// flags are equal are not.
pub proof fn lemma_overlay_change_detects_patch_change(before: ActivityRecord, after: ActivityRecord)
    ensures
        overlay_parts(before) != overlay_parts(after) ==> overlay_differs(before, after),
        before.needs_review != after.needs_review ==> overlay_differs(before, after),
        trimmed_or_none(before.activity_type_override) != trimmed_or_none(
            after.activity_type_override,
        ) ==> overlay_differs(before, after),
        trimmed_or_none(before.subtype) != trimmed_or_none(after.subtype) ==> overlay_differs(
            before,
            after,
        ),
        opt_chars(before.notes) != opt_chars(after.notes) ==> overlay_differs(before, after),
        overlay_parts(before) == overlay_parts(after) && before.needs_review == after.needs_review
            ==> !overlay_differs(before, after),
{
    lemma_overlay_carries_user_edits(before);
    lemma_overlay_carries_user_edits(after);
}

} // verus!
