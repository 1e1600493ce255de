use fastplay::license::{
    deactivation_error_allows_local_clear, LicenseError, LicenseErrorKind, LicenseSource,
    LicenseState, LicenseTier, StoredLicense, FASTPLAY_PRO_PRODUCT_ID, OFFLINE_GRACE_MS,
};
use fastplay::license_api::{
    activate_license_key_if_current, activation_saved, clear_failed,
    deactivate_stored_license_if_current, denied_stored_license, instance_name,
    license_key_to_send, license_to_use, product_number_of, server_error, transport_error,
    unreadable_reply, validate_stored_license_if_current, validation_saved, ActivationStep,
    ApiInstance, ApiLicenseKey, ApiMeta, DeactivationStep, JsonScalar, LicenseApiResponse,
    ValidationStep,
};

fn sample_stored(last_validated_unix_ms: u64) -> StoredLicense {
    StoredLicense {
        license_key: "key\\with\ttab".to_string(),
        instance_id: "instance".to_string(),
        product_id: FASTPLAY_PRO_PRODUCT_ID,
        license_status: "active".to_string(),
        customer_email: Some("test@example.com".to_string()),
        last_validated_unix_ms,
    }
}

fn validation_response(
    status: Option<&str>,
    customer_email: Option<&str>,
) -> LicenseApiResponse {
    LicenseApiResponse {
        activated: None,
        valid: Some(false),
        deactivated: None,
        error: Some("License is no longer valid".to_string()),
        license_key: status.map(|status| ApiLicenseKey {
            status: status.to_string(),
        }),
        instance: None,
        meta: Some(ApiMeta {
            product_id: Some(
                serde_json::Value::Number(FASTPLAY_PRO_PRODUCT_ID.into()).to_string(),
            ),
            customer_email: customer_email.map(str::to_string),
        }),
    }
}

#[test]
fn defaults_to_free() {
    let license = LicenseState::detect_with(None, None, 1_000);
    assert_eq!(license.tier, LicenseTier::Free);
    assert!(!license.can_save_markers());
    assert!(!license.can_edit_marker_notes());
    assert!(!license.can_export_markers());
    assert!(!license.can_batch_export_marker_screenshots());
    assert!(!license.can_save_review_queues());
    assert!(!license.can_load_review_queues());
    assert!(!license.can_delete_review_queues());
}

#[test]
fn dev_override_enables_pro_capabilities() {
    let license = LicenseState::detect_with(Some("1"), None, 1_000);
    assert_eq!(license.tier, LicenseTier::Pro);
    assert_eq!(license.source, LicenseSource::DevelopmentOverride);
    assert!(license.status_label.contains("development override"));
    assert!(license.can_save_markers());
    assert!(license.can_edit_marker_notes());
    assert!(license.can_export_markers());
    assert!(license.can_batch_export_marker_screenshots());
    assert!(license.can_save_review_queues());
    assert!(license.can_load_review_queues());
    assert!(license.can_delete_review_queues());
}

#[test]
fn dev_override_wins_over_stored_license() {
    let mut stored = sample_stored(1_000);
    stored.product_id = 99;
    let license = LicenseState::detect_with(Some("yes"), Some(stored), 1_000);
    assert_eq!(license.tier, LicenseTier::Pro);
    assert_eq!(license.source, LicenseSource::DevelopmentOverride);
}

#[test]
fn stored_license_enables_pro_within_grace() {
    let stored = sample_stored(1_000);
    let license = LicenseState::detect_with(None, Some(stored), 1_000 + OFFLINE_GRACE_MS);
    assert_eq!(license.tier, LicenseTier::Pro);
    assert_eq!(license.source, LicenseSource::StoredLicense);
}

#[test]
fn stale_stored_license_uses_offline_grace_label() {
    let stored = sample_stored(1_000);
    let license = LicenseState::detect_with(None, Some(stored), 1_001 + OFFLINE_GRACE_MS);
    assert_eq!(license.tier, LicenseTier::Pro);
    assert_eq!(license.source, LicenseSource::OfflineGrace);
    assert!(license.status_label.contains("offline grace"));
}

#[test]
fn wrong_product_does_not_enable_pro() {
    let mut stored = sample_stored(1_000);
    stored.product_id = 99;
    let license = LicenseState::detect_with(None, Some(stored), 1_000);
    assert_eq!(license.tier, LicenseTier::Free);
    assert_eq!(license.source, LicenseSource::NeedsValidation);
}

#[test]
fn disabled_license_does_not_enable_pro() {
    let mut stored = sample_stored(1_000);
    stored.license_status = "disabled".to_string();
    let license = LicenseState::detect_with(None, Some(stored), 1_000);
    assert_eq!(license.tier, LicenseTier::Free);
    assert_eq!(license.source, LicenseSource::NeedsValidation);
}

#[test]
fn stored_license_roundtrips_escaped_fields() {
    let stored = sample_stored(42);
    let serialized = stored.serialize();
    let parsed = StoredLicense::parse(&serialized).unwrap();
    assert_eq!(parsed, stored);
}

#[test]
fn denied_validation_response_downgrades_stored_license_to_free() {
    let stored = sample_stored(1_000);
    let response = validation_response(Some("disabled"), Some("new@example.com"));
    let updated = denied_stored_license(
        stored,
        "disabled",
        response.meta.and_then(|meta| meta.customer_email),
        2_000,
    );

    assert_eq!(updated.license_key, "key\\with\ttab");
    assert_eq!(updated.instance_id, "instance");
    assert_eq!(updated.product_id, FASTPLAY_PRO_PRODUCT_ID);
    assert_eq!(updated.license_status, "disabled");
    assert_eq!(updated.customer_email.as_deref(), Some("new@example.com"));
    assert_eq!(updated.last_validated_unix_ms, 2_000);

    let license = LicenseState::detect_with(None, Some(updated), 2_000);
    assert_eq!(license.tier, LicenseTier::Free);
    assert_eq!(license.source, LicenseSource::NeedsValidation);
    assert_eq!(license.status_label, "FastPlay Free (license disabled)");
}

#[test]
fn denied_validation_without_status_stores_invalid_status() {
    let stored = sample_stored(1_000);
    let response = validation_response(None, None);
    let updated = denied_stored_license(
        stored,
        "invalid",
        response.meta.and_then(|meta| meta.customer_email),
        2_000,
    );

    assert_eq!(updated.license_status, "invalid");
    assert_eq!(updated.customer_email.as_deref(), Some("test@example.com"));
    let license = LicenseState::detect_with(None, Some(updated), 2_000);
    assert_eq!(license.tier, LicenseTier::Free);
    assert_eq!(license.status_label, "FastPlay Free (license invalid)");
}

#[test]
fn deactivation_local_clear_is_allowed_only_for_already_gone_messages() {
    assert!(deactivation_error_allows_local_clear(
        "Activation not found for this instance"
    ));
    assert!(deactivation_error_allows_local_clear(
        "This instance has already been deactivated"
    ));
    assert!(!deactivation_error_allows_local_clear(
        "License server returned an error"
    ));
    assert!(!deactivation_error_allows_local_clear(
        "License key is invalid"
    ));
}

fn meta_from_json(text: &str) -> ApiMeta {
    let value: serde_json::Value = serde_json::from_str(text).unwrap();
    ApiMeta {
        product_id: value.get("product_id").map(|id| id.to_string()),
        customer_email: None,
    }
}

#[test]
fn api_meta_accepts_numeric_or_string_product_id() {
    let numeric: ApiMeta = meta_from_json(r#"{"product_id":1195401}"#);
    let string: ApiMeta = meta_from_json(r#"{"product_id":"1195401"}"#);
    assert_eq!(numeric.product_id_u64(), Some(FASTPLAY_PRO_PRODUCT_ID));
    assert_eq!(string.product_id_u64(), Some(FASTPLAY_PRO_PRODUCT_ID));
}

#[test]
fn other_json_gives_no_product() {
    for text in ["-1", "1.5", "true", "[1195401]", "\"x\"", "1195401 2", "", "18446744073709551616"] {
        let meta = ApiMeta {
            product_id: Some(text.to_string()),
            customer_email: None,
        };
        assert_eq!(meta.product_id_u64(), None, "{text}");
    }
    let spaced = ApiMeta {
        product_id: Some(" 42 ".to_string()),
        customer_email: None,
    };
    assert_eq!(spaced.product_id_u64(), Some(42));
    assert_eq!(product_number_of(&Some(JsonScalar::Text("+7".to_string()))), Some(7));
    assert_eq!(product_number_of(&Some(JsonScalar::Unsigned(8))), Some(8));
    assert_eq!(product_number_of(&Some(JsonScalar::OtherNumber)), None);
    assert_eq!(product_number_of(&Some(JsonScalar::Other)), None);
    assert_eq!(product_number_of(&None), None);
}

fn reply() -> LicenseApiResponse {
    LicenseApiResponse {
        activated: None,
        valid: None,
        deactivated: None,
        error: None,
        license_key: None,
        instance: None,
        meta: Some(ApiMeta {
            product_id: Some("1195401".to_string()),
            customer_email: Some("  me@example.com ".to_string()),
        }),
    }
}

fn activation() -> LicenseApiResponse {
    LicenseApiResponse {
        activated: Some(true),
        instance: Some(ApiInstance {
            id: " inst ".to_string(),
        }),
        ..reply()
    }
}

#[test]
fn a_blank_key_is_not_sent() {
    assert_eq!(license_key_to_send("  k ").unwrap(), "k");
    let error = license_key_to_send(" \t").unwrap_err();
    assert_eq!(error.kind(), LicenseErrorKind::Local);
    assert_eq!(error.message(), "License key required");
}

#[test]
fn a_good_activation_is_stored() {
    match activate_license_key_if_current("key", &activation(), true, 77) {
        ActivationStep::Save(stored) => {
            assert_eq!(
                stored,
                StoredLicense {
                    license_key: "key".to_string(),
                    instance_id: "inst".to_string(),
                    product_id: FASTPLAY_PRO_PRODUCT_ID,
                    license_status: "active".to_string(),
                    customer_email: Some("me@example.com".to_string()),
                    last_validated_unix_ms: 77,
                }
            );
            let done = activation_saved(&stored, Ok(()), 78).unwrap();
            assert_eq!(done.state.tier, LicenseTier::Pro);
            assert_eq!(done.customer_email.as_deref(), Some("me@example.com"));
            let failed = activation_saved(&stored, Err("disk".to_string()), 78).unwrap_err();
            assert_eq!(failed.message(), "Activated, but could not save license: disk");
        }
        other => panic!("{other:?}"),
    }
}

#[test]
fn a_bad_activation_is_refused_or_undone() {
    let refused = LicenseApiResponse {
        activated: Some(false),
        error: Some("limit reached".to_string()),
        ..activation()
    };
    match activate_license_key_if_current("key", &refused, true, 1) {
        ActivationStep::Fail(error) => {
            assert_eq!(error.kind(), LicenseErrorKind::Authoritative);
            assert_eq!(error.message(), "limit reached");
        }
        other => panic!("{other:?}"),
    }
    let nameless = LicenseApiResponse {
        instance: Some(ApiInstance { id: "  ".to_string() }),
        ..activation()
    };
    match activate_license_key_if_current("key", &nameless, true, 1) {
        ActivationStep::Fail(error) => {
            assert_eq!(error.kind(), LicenseErrorKind::Transient);
            assert_eq!(
                error.message(),
                "Activation response did not include an instance id"
            );
        }
        other => panic!("{other:?}"),
    }
    let elsewhere = LicenseApiResponse {
        meta: Some(ApiMeta {
            product_id: Some("99".to_string()),
            customer_email: None,
        }),
        ..activation()
    };
    match activate_license_key_if_current("key", &elsewhere, true, 1) {
        ActivationStep::DeactivateAndFail { instance_id, error } => {
            assert_eq!(instance_id, "inst");
            assert_eq!(error.message(), "That license is not for FastPlay Pro");
        }
        other => panic!("{other:?}"),
    }
    let expired = LicenseApiResponse {
        license_key: Some(ApiLicenseKey {
            status: "expired!".to_string(),
        }),
        ..activation()
    };
    match activate_license_key_if_current("key", &expired, true, 1) {
        ActivationStep::DeactivateAndFail { error, .. } => {
            assert_eq!(error.message(), "License is expired");
        }
        other => panic!("{other:?}"),
    }
    match activate_license_key_if_current("key", &activation(), false, 1) {
        ActivationStep::DeactivateAndFail { error, .. } => {
            assert_eq!(error.kind(), LicenseErrorKind::Transient);
            assert_eq!(error.message(), "License operation was superseded");
        }
        other => panic!("{other:?}"),
    }
}

#[test]
fn a_denied_license_is_free_from_then_on() {
    let denial = validation_response(Some("disabled"), None);
    match validate_stored_license_if_current(sample_stored(1), Ok(denial), true, 5) {
        ValidationStep::SaveDenied { license, status } => {
            assert_eq!(status, "disabled");
            assert_eq!(license.license_status, "disabled");
            let step = ValidationStep::SaveDenied { license, status };
            let state = validation_saved(&step, Ok(()), 9).unwrap();
            assert_eq!(state.tier, LicenseTier::Free);
            let error = validation_saved(&step, Err("disk".to_string()), 9).unwrap_err();
            assert_eq!(
                error.message(),
                "License is disabled, but could not update local license: disk"
            );
        }
        other => panic!("{other:?}"),
    }
    let refused = LicenseError::authoritative("This license was REFUNDED");
    match validate_stored_license_if_current(sample_stored(1), Err(refused), true, 5) {
        ValidationStep::SaveDenied { license, .. } => {
            assert_eq!(license.license_status, "refunded")
        }
        other => panic!("{other:?}"),
    }
}

#[test]
fn an_open_question_changes_nothing() {
    let transient = LicenseError::transient("timeout");
    match validate_stored_license_if_current(sample_stored(1), Err(transient.clone()), true, 5) {
        ValidationStep::Fail(error) => assert_eq!(error, transient),
        other => panic!("{other:?}"),
    }
    match validate_stored_license_if_current(sample_stored(1), Ok(reply()), true, 5) {
        ValidationStep::Fail(error) => assert_eq!(
            error.message(),
            "License validation response was incomplete"
        ),
        other => panic!("{other:?}"),
    }
    let no_product = LicenseApiResponse {
        valid: Some(true),
        meta: None,
        ..reply()
    };
    match validate_stored_license_if_current(sample_stored(1), Ok(no_product), true, 5) {
        ValidationStep::Fail(error) => assert_eq!(
            error.message(),
            "License validation response did not include a product id"
        ),
        other => panic!("{other:?}"),
    }
}

#[test]
fn a_confirmed_license_is_refreshed() {
    let good = LicenseApiResponse {
        valid: Some(true),
        ..reply()
    };
    match validate_stored_license_if_current(sample_stored(1), Ok(good.clone()), true, 500) {
        ValidationStep::SaveValid(license) => {
            assert_eq!(license.last_validated_unix_ms, 500);
            assert_eq!(license.license_status, "active");
            assert_eq!(license.customer_email.as_deref(), Some("  me@example.com "));
        }
        other => panic!("{other:?}"),
    }
    match validate_stored_license_if_current(sample_stored(1), Ok(good), false, 500) {
        ValidationStep::Fail(error) => {
            assert_eq!(error.message(), "License operation was superseded")
        }
        other => panic!("{other:?}"),
    }
    let elsewhere = LicenseApiResponse {
        valid: Some(true),
        meta: Some(ApiMeta {
            product_id: Some("\"12\"".to_string()),
            customer_email: None,
        }),
        ..reply()
    };
    match validate_stored_license_if_current(sample_stored(1), Ok(elsewhere), true, 500) {
        ValidationStep::SaveDenied { license, .. } => {
            assert_eq!(license.license_status, "wrong_product")
        }
        other => panic!("{other:?}"),
    }
}

#[test]
fn deactivation_clears_what_is_gone() {
    let done = LicenseApiResponse {
        deactivated: Some(true),
        ..reply()
    };
    assert_eq!(
        deactivate_stored_license_if_current(Ok(done.clone()), true),
        DeactivationStep::Clear { already_gone: false }
    );
    let gone = LicenseError::authoritative("Instance not found");
    assert_eq!(
        deactivate_stored_license_if_current(Err(gone.clone()), true),
        DeactivationStep::Clear { already_gone: true }
    );
    match deactivate_stored_license_if_current(Err(gone), false) {
        DeactivationStep::Fail(error) => {
            assert_eq!(error.message(), "License operation was superseded")
        }
        other => panic!("{other:?}"),
    }
    match deactivate_stored_license_if_current(Ok(reply()), true) {
        DeactivationStep::Fail(error) => {
            assert_eq!(error.kind(), LicenseErrorKind::Authoritative);
            assert_eq!(error.message(), "License deactivation failed");
        }
        other => panic!("{other:?}"),
    }
    assert_eq!(
        clear_failed(true, "x").message(),
        "Activation is already gone, but could not clear local license: x"
    );
    assert_eq!(
        clear_failed(false, "x").message(),
        "Deactivated, but could not clear license: x"
    );
}

#[test]
fn errors_of_the_service_are_told_apart() {
    assert_eq!(server_error(503, None).kind(), LicenseErrorKind::Transient);
    assert_eq!(server_error(422, Some("bad")).kind(), LicenseErrorKind::Authoritative);
    assert_eq!(server_error(422, Some("bad")).message(), "bad");
    assert_eq!(server_error(500, None).message(), "License server returned an error");
    assert_eq!(transport_error("dns").message(), "Could not reach license server: dns");
    assert_eq!(
        unreadable_reply("eof").message(),
        "Could not parse license response: eof"
    );
    assert_eq!(
        license_to_use(Ok(None), true).unwrap_err().message(),
        "No saved license to deactivate"
    );
    assert_eq!(
        license_to_use(Ok(None), false).unwrap_err().message(),
        "No saved license"
    );
    assert_eq!(
        license_to_use(Err("io".to_string()), false).unwrap_err().message(),
        "Could not read saved license: io"
    );
    assert_eq!(instance_name(Some("PC")), "FastPlay on PC");
    assert_eq!(instance_name(Some("  ")), "FastPlay on Windows");
    assert_eq!(instance_name(None), "FastPlay on Windows");
}

#[test]
fn a_stored_license_needs_key_instance_and_product() {
    let text = sample_stored(3).serialize();
    assert!(StoredLicense::load(Some(&text)).is_some());
    assert!(StoredLicense::load(None).is_none());
    assert!(StoredLicense::parse(&text.replace("instance_id", "other")).is_none());
    assert!(StoredLicense::parse("license_key\ta\\x\n").is_none());
    let least = "license_key\tk\ninstance_id\ti\nproduct_id\t5\n";
    let parsed = StoredLicense::parse(least).unwrap();
    assert_eq!(parsed.license_status, "active");
    assert_eq!(parsed.last_validated_unix_ms, 0);
    assert_eq!(parsed.customer_email, None);
}

#[test]
fn only_stored_licenses_are_validated_on_startup() {
    assert!(LicenseState::detect_with(None, Some(sample_stored(0)), 5).should_validate_on_startup());
    assert!(!LicenseState::detect_with(Some(" true "), None, 5).should_validate_on_startup());
    assert!(!LicenseState::default().should_validate_on_startup());
}
