use sha2::{Digest, Sha256};
use wealthfolio::broker_patch::{
    broker_activity_identity, broker_activity_user_overlay_changed,
    broker_activity_user_patch_entity_id, broker_activity_user_patch_request,
    normalize_optional, normalize_required, normalize_source_system,
    validate_broker_activity_user_patch_payload, ActivityRecord, BrokerActivityIdentity,
    BrokerActivityUserOverlay, BrokerActivityUserPatchPayload, PatchPayloadError,
};

fn record(source_system: Option<&str>, source_record_id: Option<&str>) -> ActivityRecord {
    ActivityRecord {
        source_system: source_system.map(str::to_string),
        source_record_id: source_record_id.map(str::to_string),
        notes: None,
        activity_type_override: None,
        subtype: None,
        needs_review: 0,
    }
}

fn expected_entity_id(parts: &[&str]) -> String {
    let mut data = Vec::new();
    for part in parts {
        data.extend_from_slice(part.len().to_string().as_bytes());
        data.push(b':');
        data.extend_from_slice(part.as_bytes());
        data.push(b';');
    }
    let digest = Sha256::digest(&data);
    let hex: String = digest.iter().map(|b| format!("{b:02x}")).collect();
    format!("broker_activity_patch:{}", &hex[..32])
}

fn payload(source_system: &str, account: &str, record_id: &str) -> BrokerActivityUserPatchPayload {
    BrokerActivityUserPatchPayload {
        source_system: source_system.to_string(),
        provider_account_id: account.to_string(),
        source_record_id: record_id.to_string(),
        overlay: BrokerActivityUserOverlay {
            notes: Some("  keep me  ".to_string()),
            activity_type_override: Some("  SELL ".to_string()),
            subtype: Some("   ".to_string()),
            needs_review: true,
        },
    }
}

#[test]
fn normalize_required_trims_and_rejects_blank() {
    assert_eq!(normalize_required("  acc-1\t").as_deref(), Some("acc-1"));
    assert_eq!(normalize_required(" \n\t "), None);
    assert_eq!(normalize_required(""), None);
    assert_eq!(normalize_required("\u{3000}x\u{3000}").as_deref(), Some("x"));
}

#[test]
fn normalize_source_system_uppercases_ascii_only() {
    assert_eq!(normalize_source_system(" snapTrade ").as_deref(), Some("SNAPTRADE"));
    assert_eq!(normalize_source_system("ibkr-é").as_deref(), Some("IBKR-é"));
    assert_eq!(normalize_source_system("  "), None);
}

#[test]
fn normalize_optional_passes_none_through() {
    assert_eq!(normalize_optional(None), None);
    assert_eq!(normalize_optional(Some(" ")), None);
    assert_eq!(normalize_optional(Some(" DIVIDEND ")).as_deref(), Some("DIVIDEND"));
}

#[test]
fn identity_normalizes_each_part() {
    let identity =
        broker_activity_identity(Some("  snaptrade "), Some(" acc-1 "), Some("rec-9\t")).unwrap();
    assert_eq!(identity.source_system, "SNAPTRADE");
    assert_eq!(identity.provider_account_id, "acc-1");
    assert_eq!(identity.source_record_id, "rec-9");
}

#[test]
fn manual_and_csv_imports_have_no_identity() {
    for source in ["MANUAL", "manual", " Manual ", "CSV", "csv", "\tCsv"] {
        assert!(broker_activity_identity(Some(source), Some("acc"), Some("rec")).is_none());
    }
}

#[test]
fn missing_or_blank_parts_give_no_identity() {
    assert!(broker_activity_identity(None, Some("acc"), Some("rec")).is_none());
    assert!(broker_activity_identity(Some("PLAID"), None, Some("rec")).is_none());
    assert!(broker_activity_identity(Some("PLAID"), Some("acc"), None).is_none());
    assert!(broker_activity_identity(Some("  "), Some("acc"), Some("rec")).is_none());
    assert!(broker_activity_identity(Some("PLAID"), Some("  "), Some("rec")).is_none());
    assert!(broker_activity_identity(Some("PLAID"), Some("acc"), Some(" ")).is_none());
}

#[test]
fn entity_id_is_prefixed_sha256_of_length_framed_parts() {
    let identity = BrokerActivityIdentity {
        source_system: "SNAPTRADE".to_string(),
        provider_account_id: "acc-1".to_string(),
        source_record_id: "rec-9".to_string(),
    };
    let id = broker_activity_user_patch_entity_id(&identity);
    assert_eq!(id, expected_entity_id(&["SNAPTRADE", "acc-1", "rec-9"]));
    assert_eq!(id.len(), "broker_activity_patch:".len() + 32);
    assert!(id.starts_with("broker_activity_patch:"));
}

#[test]
fn entity_id_frames_utf8_byte_lengths() {
    let identity = BrokerActivityIdentity {
        source_system: "PLAID".to_string(),
        provider_account_id: "compte-é".to_string(),
        source_record_id: "ab".to_string(),
    };
    let id = broker_activity_user_patch_entity_id(&identity);
    assert_eq!(id, expected_entity_id(&["PLAID", "compte-é", "ab"]));
}

#[test]
fn entity_id_separates_parts() {
    let a = BrokerActivityIdentity {
        source_system: "X".to_string(),
        provider_account_id: "ab".to_string(),
        source_record_id: "c".to_string(),
    };
    let b = BrokerActivityIdentity {
        source_system: "X".to_string(),
        provider_account_id: "a".to_string(),
        source_record_id: "bc".to_string(),
    };
    assert_ne!(
        broker_activity_user_patch_entity_id(&a),
        broker_activity_user_patch_entity_id(&b)
    );
}

#[test]
fn patch_request_carries_identity_and_normalized_overlay() {
    let mut activity = record(Some(" snaptrade"), Some(" rec-9 "));
    activity.notes = Some("  my note ".to_string());
    activity.activity_type_override = Some(" SELL ".to_string());
    activity.subtype = Some("   ".to_string());
    activity.needs_review = 2;

    let patch = broker_activity_user_patch_request(&activity, Some("acc-1")).unwrap();
    assert_eq!(patch.entity_id, expected_entity_id(&["SNAPTRADE", "acc-1", "rec-9"]));
    assert_eq!(patch.payload.source_system, "SNAPTRADE");
    assert_eq!(patch.payload.provider_account_id, "acc-1");
    assert_eq!(patch.payload.source_record_id, "rec-9");
    assert_eq!(patch.payload.overlay.notes.as_deref(), Some("  my note "));
    assert_eq!(patch.payload.overlay.activity_type_override.as_deref(), Some("SELL"));
    assert_eq!(patch.payload.overlay.subtype, None);
    assert!(patch.payload.overlay.needs_review);
}

#[test]
fn patch_request_for_non_broker_activity_is_none() {
    assert!(broker_activity_user_patch_request(&record(Some("MANUAL"), Some("r")), Some("a")).is_none());
    assert!(broker_activity_user_patch_request(&record(None, Some("r")), Some("a")).is_none());
    assert!(broker_activity_user_patch_request(&record(Some("PLAID"), Some("r")), None).is_none());
}

#[test]
fn overlay_change_detection() {
    let before = record(Some("PLAID"), Some("r"));
    assert!(!broker_activity_user_overlay_changed(&before, &before.clone()));

    let mut after = before.clone();
    after.activity_type_override = Some("   ".to_string());
    assert!(!broker_activity_user_overlay_changed(&before, &after));

    after.subtype = Some(" X ".to_string());
    assert!(broker_activity_user_overlay_changed(&before, &after));

    let mut noted = before.clone();
    noted.notes = Some(String::new());
    assert!(broker_activity_user_overlay_changed(&before, &noted));

    let mut review = before.clone();
    review.needs_review = 1;
    assert!(broker_activity_user_overlay_changed(&before, &review));

    let mut padded = before.clone();
    padded.activity_type_override = Some("BUY".to_string());
    let mut padded_again = before.clone();
    padded_again.activity_type_override = Some("  BUY ".to_string());
    assert!(!broker_activity_user_overlay_changed(&padded, &padded_again));
}

#[test]
fn validation_normalizes_identity_and_overlay() {
    let validated =
        validate_broker_activity_user_patch_payload(payload(" snaptrade ", " acc-1", "rec-9 "))
            .unwrap();
    assert_eq!(validated.source_system, "SNAPTRADE");
    assert_eq!(validated.provider_account_id, "acc-1");
    assert_eq!(validated.source_record_id, "rec-9");
    assert_eq!(validated.overlay.notes.as_deref(), Some("  keep me  "));
    assert_eq!(validated.overlay.activity_type_override.as_deref(), Some("SELL"));
    assert_eq!(validated.overlay.subtype, None);
    assert!(validated.overlay.needs_review);
}

#[test]
fn validation_rejects_non_broker_identity() {
    let err = validate_broker_activity_user_patch_payload(payload("csv", "acc", "rec")).unwrap_err();
    assert_eq!(err, PatchPayloadError::InvalidIdentity);
    assert_eq!(err.message(), "Invalid broker activity user patch identity");
    assert!(validate_broker_activity_user_patch_payload(payload("PLAID", " ", "rec")).is_err());
}

#[test]
fn built_payload_validates_unchanged() {
    let mut activity = record(Some("Plaid "), Some(" r-1"));
    activity.activity_type_override = Some(" BUY".to_string());
    let patch = broker_activity_user_patch_request(&activity, Some(" acc ")).unwrap();
    let validated = validate_broker_activity_user_patch_payload(patch.payload.clone()).unwrap();
    assert_eq!(validated.source_system, patch.payload.source_system);
    assert_eq!(validated.provider_account_id, patch.payload.provider_account_id);
    assert_eq!(validated.source_record_id, patch.payload.source_record_id);
    assert_eq!(
        validated.overlay.activity_type_override,
        patch.payload.overlay.activity_type_override
    );
    assert_eq!(validated.overlay.subtype, patch.payload.overlay.subtype);
}
