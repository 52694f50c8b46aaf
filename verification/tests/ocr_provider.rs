use std::cell::RefCell;

use kiri::ocr_provider::{
    is_loopback_url, normalize_base_url, validate_opaque_id, validate_settings, validate_text,
    CredentialMetadataChange, OcrEngineRef, OcrProviderError, OcrProviderPreset,
    OcrProviderProfileMetadata, OcrProviderProtocol, OcrProviderStore,
    PersistedOcrProviderSettings, SaveProfileMetadata, ALIYUN_BAILIAN_BASE_URL,
    ALIYUN_BAILIAN_MODEL, OPEN_AI_BASE_URL, OPEN_AI_MODEL,
};

fn draft() -> SaveProfileMetadata {
    SaveProfileMetadata {
        id: None,
        revision: None,
        name: "OpenAI".into(),
        provider: OcrProviderPreset::OpenAi,
        protocol: OcrProviderProtocol::OpenAiChatCompletions,
        base_url: OPEN_AI_BASE_URL.into(),
        model: OPEN_AI_MODEL.into(),
    }
}

/// A stand-in for the settings file: `commit` writes into it and a reload
/// reads from it.
struct Disk(RefCell<Option<PersistedOcrProviderSettings>>);

impl Disk {
    fn new() -> Self {
        Disk(RefCell::new(None))
    }

    fn commit(&self, store: &mut OcrProviderStore, next: PersistedOcrProviderSettings) {
        store
            .commit(next, |settings| {
                *self.0.borrow_mut() = Some(settings.duplicate());
                Ok(())
            })
            .unwrap();
    }

    fn reload(&self) -> OcrProviderStore {
        match self.0.borrow().as_ref() {
            Some(settings) => OcrProviderStore::from_settings(settings.duplicate()).unwrap(),
            None => OcrProviderStore::new(),
        }
    }
}

#[test]
fn defaults_to_local_without_profiles() {
    let store = Disk::new().reload();
    assert_eq!(store.settings().active_engine, OcrEngineRef::Local);
    assert!(store.settings().profiles.is_empty());
    assert_eq!(store.settings().schema_version, 1);
}

#[test]
fn save_uses_revision_and_preserves_credential_pointer() {
    let disk = Disk::new();
    let mut store = disk.reload();
    let (next, created) = store
        .plan_save(
            draft(),
            CredentialMetadataChange::Replace("credential-one".into()),
        )
        .unwrap();
    disk.commit(&mut store, next);

    let mut update = draft();
    update.id = Some(created.id.clone());
    update.revision = Some(1);
    update.model = "gpt-5".into();
    let (next, updated) = store
        .plan_save(update, CredentialMetadataChange::Preserve)
        .unwrap();
    assert_eq!(updated.revision, 2);
    assert_eq!(updated.credential_id.as_deref(), Some("credential-one"));
    disk.commit(&mut store, next);

    let reloaded = disk.reload();
    assert_eq!(reloaded.profile(&created.id).unwrap().model, "gpt-5");
}

#[test]
fn rejects_stale_revision_and_insecure_remote_http() {
    let disk = Disk::new();
    let mut store = disk.reload();
    let (next, created) = store
        .plan_save(draft(), CredentialMetadataChange::Preserve)
        .unwrap();
    disk.commit(&mut store, next);

    let mut update = draft();
    update.id = Some(created.id);
    update.revision = Some(99);
    assert_eq!(
        store
            .plan_save(update, CredentialMetadataChange::Preserve)
            .unwrap_err(),
        OcrProviderError::RevisionConflict
    );

    let mut insecure = draft();
    insecure.base_url = "http://example.com/v1".into();
    assert_eq!(
        store
            .plan_save(insecure, CredentialMetadataChange::Preserve)
            .unwrap_err(),
        OcrProviderError::InvalidRequest
    );
}

#[test]
fn permits_exact_loopback_http_and_builds_endpoint() {
    let mut loopback = draft();
    loopback.base_url = "http://127.0.0.1:11434/v1/".into();
    let store = Disk::new().reload();
    let (_, profile) = store
        .plan_save(loopback, CredentialMetadataChange::Preserve)
        .unwrap();
    assert_eq!(profile.base_url, "http://127.0.0.1:11434/v1");
    assert_eq!(
        profile.endpoint().unwrap().as_str(),
        "http://127.0.0.1:11434/v1/chat/completions"
    );
    assert!(is_loopback_url(&profile.base_url));

    let mut ipv6 = draft();
    ipv6.base_url = "http://[::1]:11434/v1".into();
    let (_, profile) = store
        .plan_save(ipv6, CredentialMetadataChange::Preserve)
        .unwrap();
    assert!(is_loopback_url(&profile.base_url));
}

#[test]
fn rejects_non_exact_loopback_and_url_smuggling_fields() {
    let store = Disk::new().reload();
    for base_url in [
        "http://127.0.0.2:11434/v1",
        "http://foo.localhost:11434/v1",
        "https://user@example.com/v1",
        "https://example.com/v1?target=other",
    ] {
        let mut request = draft();
        request.base_url = base_url.into();
        assert_eq!(
            store
                .plan_save(request, CredentialMetadataChange::Preserve)
                .unwrap_err(),
            OcrProviderError::InvalidRequest,
            "unexpectedly accepted {base_url}"
        );
    }
}

#[test]
fn deleting_active_profile_returns_to_local() {
    let disk = Disk::new();
    let mut store = disk.reload();
    let (next, profile) = store
        .plan_save(draft(), CredentialMetadataChange::Preserve)
        .unwrap();
    disk.commit(&mut store, next);
    let next = store
        .plan_set_active(OcrEngineRef::Profile {
            profile_id: profile.id.clone(),
        })
        .unwrap();
    disk.commit(&mut store, next);
    let (next, _) = store.plan_delete(&profile.id, profile.revision).unwrap();
    assert_eq!(next.active_engine, OcrEngineRef::Local);
}

#[test]
fn new_profiles_get_a_uuid_first_revision_and_preset_defaults() {
    let store = OcrProviderStore::new();
    let mut request = draft();
    request.provider = OcrProviderPreset::AliyunBailian;
    request.base_url = "  ".into();
    request.model = String::new();
    request.name = "  Bailian  ".into();
    let (next, created) = store
        .plan_save(request, CredentialMetadataChange::Preserve)
        .unwrap();
    assert_eq!(created.revision, 1);
    assert_eq!(created.name, "Bailian");
    assert_eq!(created.base_url, ALIYUN_BAILIAN_BASE_URL);
    assert_eq!(created.model, ALIYUN_BAILIAN_MODEL);
    assert_eq!(created.id.len(), 36);
    assert_eq!(created.id.matches('-').count(), 4);
    assert_eq!(created.credential_id, None);
    assert_eq!(next.profiles.len(), 1);
    assert_eq!(next.profiles[0], created);
    assert_eq!(
        OcrProviderPreset::OpenAi.defaults(),
        (OPEN_AI_BASE_URL, OPEN_AI_MODEL)
    );
}

#[test]
fn updating_a_missing_profile_is_not_found() {
    let store = OcrProviderStore::new();
    let mut update = draft();
    update.id = Some("profile-one".into());
    update.revision = Some(1);
    assert_eq!(
        store
            .plan_save(update, CredentialMetadataChange::Preserve)
            .unwrap_err(),
        OcrProviderError::ProfileNotFound
    );
    assert_eq!(
        store.plan_delete("profile-one", 1).unwrap_err(),
        OcrProviderError::ProfileNotFound
    );
    assert_eq!(
        store
            .plan_set_active(OcrEngineRef::Profile {
                profile_id: "profile-one".into()
            })
            .unwrap_err(),
        OcrProviderError::ProfileNotFound
    );
}

#[test]
fn deleting_with_a_stale_revision_conflicts() {
    let disk = Disk::new();
    let mut store = disk.reload();
    let (next, profile) = store
        .plan_save(draft(), CredentialMetadataChange::Preserve)
        .unwrap();
    disk.commit(&mut store, next);
    assert_eq!(
        store.plan_delete(&profile.id, 2).unwrap_err(),
        OcrProviderError::RevisionConflict
    );
    let (next, removed) = store.plan_delete(&profile.id, 1).unwrap();
    assert_eq!(removed, profile);
    assert!(next.profiles.is_empty());
}

#[test]
fn a_failed_persist_leaves_the_store_unchanged() {
    let mut store = OcrProviderStore::new();
    let (next, _) = store
        .plan_save(draft(), CredentialMetadataChange::Preserve)
        .unwrap();
    assert_eq!(
        store.commit(next, |_| Err(OcrProviderError::StorageUnavailable)),
        Err(OcrProviderError::StorageUnavailable)
    );
    assert!(store.settings().profiles.is_empty());
}

#[test]
fn invalid_settings_are_never_committed_or_loaded() {
    let mut settings = PersistedOcrProviderSettings::default();
    settings.schema_version = 2;
    assert_eq!(
        validate_settings(&settings),
        Err(OcrProviderError::InvalidSettings)
    );
    assert!(OcrProviderStore::from_settings(settings.duplicate()).is_err());
    let mut store = OcrProviderStore::new();
    let mut persisted = false;
    assert_eq!(
        store.commit(settings, |_| {
            persisted = true;
            Ok(())
        }),
        Err(OcrProviderError::InvalidSettings)
    );
    assert!(!persisted);

    let mut dangling = PersistedOcrProviderSettings::default();
    dangling.active_engine = OcrEngineRef::Profile {
        profile_id: "missing".into(),
    };
    assert!(validate_settings(&dangling).is_err());
}

#[test]
fn duplicate_profile_ids_are_invalid_settings() {
    let profile = OcrProviderProfileMetadata {
        id: "profile-one".into(),
        revision: 1,
        name: "OpenAI".into(),
        provider: OcrProviderPreset::OpenAi,
        protocol: OcrProviderProtocol::OpenAiChatCompletions,
        base_url: OPEN_AI_BASE_URL.into(),
        model: OPEN_AI_MODEL.into(),
        credential_id: None,
    };
    let mut settings = PersistedOcrProviderSettings::default();
    settings.profiles.push(profile.duplicate());
    assert_eq!(validate_settings(&settings), Ok(()));
    settings.profiles.push(profile);
    assert_eq!(
        validate_settings(&settings),
        Err(OcrProviderError::InvalidSettings)
    );
}

#[test]
fn text_and_id_validation() {
    assert_eq!(validate_text("  model ".into(), 80), Ok("model".to_string()));
    assert_eq!(validate_text("   ".into(), 80), Err(OcrProviderError::InvalidRequest));
    assert_eq!(validate_text("a\u{7}b".into(), 80), Err(OcrProviderError::InvalidRequest));
    assert_eq!(validate_text("界界".into(), 5), Err(OcrProviderError::InvalidRequest));
    assert_eq!(validate_text("界界".into(), 6), Ok("界界".to_string()));

    assert_eq!(validate_opaque_id("profile-one-2".into()), Ok("profile-one-2".to_string()));
    assert!(validate_opaque_id("profile_one".into()).is_err());
    assert!(validate_opaque_id("a:b".into()).is_err());
    assert!(validate_opaque_id(String::new()).is_err());
    assert!(validate_opaque_id("has space".into()).is_err());
    assert!(validate_opaque_id("x".repeat(129)).is_err());
}

#[test]
fn base_urls_are_normalized_without_trailing_slashes() {
    assert_eq!(
        normalize_base_url("https://api.openai.com/v1/"),
        Ok("https://api.openai.com/v1".to_string())
    );
    assert_eq!(
        normalize_base_url(" https://api.openai.com/v1"),
        Err(OcrProviderError::InvalidRequest)
    );
    assert_eq!(
        normalize_base_url("http://localhost:8080/"),
        Ok("http://localhost:8080".to_string())
    );
    assert_eq!(
        normalize_base_url("ftp://example.com"),
        Err(OcrProviderError::InvalidRequest)
    );
    assert_eq!(
        normalize_base_url("https://example.com/v1#part"),
        Err(OcrProviderError::InvalidRequest)
    );
    assert!(is_loopback_url("http://LOCALHOST:1/v1"));
    assert!(!is_loopback_url("https://api.openai.com/v1"));
}

#[test]
fn origin_keeps_scheme_host_and_port() {
    let profile = OcrProviderProfileMetadata {
        id: "profile-one".into(),
        revision: 1,
        name: "Local".into(),
        provider: OcrProviderPreset::OpenAi,
        protocol: OcrProviderProtocol::OpenAiChatCompletions,
        base_url: "http://127.0.0.1:11434/v1".into(),
        model: "llava".into(),
        credential_id: None,
    };
    assert_eq!(profile.origin(), Ok("http://127.0.0.1:11434".to_string()));
    assert_eq!(
        profile.endpoint(),
        Ok("http://127.0.0.1:11434/v1/chat/completions".to_string())
    );
}
