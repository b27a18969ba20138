use anchor::domain::SCHEMA_VERSION;
use anchor::persistence::{
    compute_content_hash, open_project_file, payload_to_store, seal_project_file,
    store_to_payload, AnchorProjectFile, PersistenceError, ProjectPayload, ANCHOR_FILE_VERSION,
};
use anchor::store::ProjectStore;

fn demo_store() -> ProjectStore {
    ProjectStore::demo()
}

/// A deterministic JSON text of the parts of a payload that these tests change.
fn payload_json(payload: &ProjectPayload) -> String {
    let artifacts: Vec<String> = payload
        .artifacts
        .iter()
        .map(|a| format!("{{\"id\":\"{}\",\"title\":\"{}\",\"state\":\"{:?}\"}}", a.id, a.title, a.state))
        .collect();
    format!(
        "{{\"project\":{{\"id\":\"{}\",\"name\":\"{}\"}},\"artifacts\":[{}]}}",
        payload.project.id,
        payload.project.name,
        artifacts.join(",")
    )
}

#[test]
fn round_trip_save_load() {
    let store = demo_store();
    let payload = store_to_payload(&store);
    let json = payload_json(&payload);
    let file = seal_project_file(payload, json.as_bytes());

    let loaded = open_project_file(file, json.as_bytes()).unwrap();

    assert_eq!(store.project.id, loaded.project.id);
    assert_eq!(store.project.name, loaded.project.name);
    assert_eq!(store.artifacts.len(), loaded.artifacts.len());
    assert_eq!(store.versions.len(), loaded.versions.len());
    assert_eq!(store.approvals.len(), loaded.approvals.len());
    assert_eq!(store.links.len(), loaded.links.len());
    assert_eq!(store.amendments.len(), loaded.amendments.len());
    assert_eq!(store.audit_events.len(), loaded.audit_events.len());
}

#[test]
fn deterministic_hash() {
    let store = demo_store();
    let payload = store_to_payload(&store);
    let json = payload_json(&payload);
    let hash1 = compute_content_hash(json.as_bytes());
    let hash2 = compute_content_hash(json.as_bytes());
    assert_eq!(hash1, hash2);
}

#[test]
fn detects_corruption() {
    let store = demo_store();
    let payload = store_to_payload(&store);
    let json = payload_json(&payload);
    let file = AnchorProjectFile {
        anchor_file_version: ANCHOR_FILE_VERSION.into(),
        schema_version: SCHEMA_VERSION.into(),
        content_hash: "0000000000000000".into(), // wrong hash
        payload,
    };

    match open_project_file(file, json.as_bytes()) {
        Err(PersistenceError::CorruptedFile { .. }) => {} // expected
        other => panic!("Expected CorruptedFile, got {:?}", other),
    }
}

#[test]
fn rejects_unsupported_file_version() {
    let store = demo_store();
    let payload = store_to_payload(&store);
    let json = payload_json(&payload);
    let file = AnchorProjectFile {
        anchor_file_version: "99.0.0".into(),
        schema_version: SCHEMA_VERSION.into(),
        content_hash: compute_content_hash(json.as_bytes()),
        payload,
    };

    match open_project_file(file, json.as_bytes()) {
        Err(PersistenceError::UnsupportedFileVersion { .. }) => {} // expected
        other => panic!("Expected UnsupportedFileVersion, got {:?}", other),
    }
}

#[test]
fn rejects_schema_mismatch() {
    let store = demo_store();
    let payload = store_to_payload(&store);
    let json = payload_json(&payload);
    let file = AnchorProjectFile {
        anchor_file_version: ANCHOR_FILE_VERSION.into(),
        schema_version: "99.0.0".into(),
        content_hash: compute_content_hash(json.as_bytes()),
        payload,
    };

    match open_project_file(file, json.as_bytes()) {
        Err(PersistenceError::SchemaMismatch { .. }) => {} // expected
        other => panic!("Expected SchemaMismatch, got {:?}", other),
    }
}

#[test]
fn payload_preserves_all_artifact_states() {
    let store = demo_store();
    let payload = store_to_payload(&store);
    let restored = payload_to_store(payload);

    for (orig, rest) in store.artifacts.iter().zip(restored.artifacts.iter()) {
        assert_eq!(orig.id, rest.id);
        assert_eq!(orig.state, rest.state);
        assert_eq!(orig.artifact_type, rest.artifact_type);
        assert_eq!(orig.title, rest.title);
    }
}

#[test]
fn content_hash_changes_on_mutation() {
    let store = demo_store();
    let payload1 = store_to_payload(&store);
    let hash1 = compute_content_hash(payload_json(&payload1).as_bytes());

    let mut payload2 = store_to_payload(&store);
    payload2.project.name = "Modified Name".into();
    let hash2 = compute_content_hash(payload_json(&payload2).as_bytes());

    assert_ne!(hash1, hash2);
}

#[test]
fn content_hash_is_sixteen_hex_digits_of_djb2() {
    assert_eq!(compute_content_hash(b""), "0000000000001505");
    assert_eq!(compute_content_hash(b"a"), "000000000002b606");
    assert_eq!(anchor::persistence::djb2_hash(b"a"), 177670);
    assert_eq!(anchor::persistence::djb2_hash(b""), 5381);
}

#[test]
fn djb2_wraps_at_two_to_the_sixty_four() {
    let long = vec![0xffu8; 64];
    let mut expected: u64 = 5381;
    for b in &long {
        expected = expected.wrapping_mul(33).wrapping_add(*b as u64);
    }
    assert_eq!(anchor::persistence::djb2_hash(&long), expected);
    assert_eq!(compute_content_hash(&long), format!("{:016x}", expected));
}

#[test]
fn corrupted_file_reports_both_hashes() {
    let store = demo_store();
    let payload = store_to_payload(&store);
    let json = payload_json(&payload);
    let actual = compute_content_hash(json.as_bytes());
    let file = AnchorProjectFile {
        anchor_file_version: ANCHOR_FILE_VERSION.into(),
        schema_version: SCHEMA_VERSION.into(),
        content_hash: "0000000000000000".into(),
        payload,
    };
    match open_project_file(file, json.as_bytes()) {
        Err(e @ PersistenceError::CorruptedFile { .. }) => {
            if let PersistenceError::CorruptedFile { expected_hash, actual_hash } = &e {
                assert_eq!(expected_hash, "0000000000000000");
                assert_eq!(actual_hash, &actual);
            }
            assert_eq!(
                e.message(),
                format!("File corrupted: expected hash 0000000000000000, got {}", actual)
            );
        }
        other => panic!("Expected CorruptedFile, got {:?}", other),
    }
}

#[test]
fn version_errors_carry_their_texts() {
    let store = demo_store();
    let payload = store_to_payload(&store);
    let json = payload_json(&payload);
    let file = AnchorProjectFile {
        anchor_file_version: "99.0.0".into(),
        schema_version: "42".into(),
        content_hash: compute_content_hash(json.as_bytes()),
        payload,
    };
    let err = open_project_file(file, json.as_bytes()).unwrap_err();
    assert_eq!(err.message(), "Unsupported file version: 99.0.0 (max supported: 1.0.0)");

    let payload = store_to_payload(&store);
    let file = AnchorProjectFile {
        anchor_file_version: ANCHOR_FILE_VERSION.into(),
        schema_version: "42".into(),
        content_hash: compute_content_hash(json.as_bytes()),
        payload,
    };
    let err = open_project_file(file, json.as_bytes()).unwrap_err();
    assert_eq!(err.message(), "Schema mismatch: file has 42, engine expects 1.0.0");
}

#[test]
fn io_and_json_errors_describe_their_cause() {
    let io = PersistenceError::Io(std::io::Error::new(std::io::ErrorKind::NotFound, "gone"));
    assert_eq!(io.message(), "I/O error: gone");
    let json_err = serde_json::from_str::<serde_json::Value>("{").unwrap_err();
    let text = json_err.to_string();
    let err = PersistenceError::SerdeJson(json_err);
    assert_eq!(err.message(), format!("JSON error: {}", text));
}

#[test]
fn sealed_file_carries_current_versions() {
    let store = demo_store();
    let payload = store_to_payload(&store);
    let file = seal_project_file(payload, b"{}");
    assert_eq!(file.anchor_file_version, "1.0.0");
    assert_eq!(file.schema_version, SCHEMA_VERSION);
    assert_eq!(file.content_hash, compute_content_hash(b"{}"));
    assert_eq!(file.payload.artifacts.len(), 8);
}

fn file_with_version(version: &str) -> (AnchorProjectFile, String) {
    let store = demo_store();
    let payload = store_to_payload(&store);
    let json = payload_json(&payload);
    let file = AnchorProjectFile {
        anchor_file_version: version.into(),
        schema_version: SCHEMA_VERSION.into(),
        content_hash: compute_content_hash(json.as_bytes()),
        payload,
    };
    (file, json)
}

#[test]
fn accepts_older_file_versions() {
    for version in ["0.9.0", "1.0", "1", "0.1.7", "1.0.0"] {
        let (file, json) = file_with_version(version);
        let loaded = open_project_file(file, json.as_bytes());
        assert!(loaded.is_ok(), "{} should load", version);
    }
}

#[test]
fn rejects_newer_or_unreadable_file_versions() {
    for version in ["1.0.1", "1.1", "2.0.0", "10", "abc", "", "1..0", "1.0.", "v1.0.0"] {
        let (file, json) = file_with_version(version);
        match open_project_file(file, json.as_bytes()) {
            Err(PersistenceError::UnsupportedFileVersion { file_version, max_supported }) => {
                assert_eq!(file_version, version);
                assert_eq!(max_supported, "1.0.0");
            }
            other => panic!("Expected UnsupportedFileVersion for {:?}, got {:?}", version, other),
        }
    }
}

#[test]
fn version_support_follows_version_order() {
    use_supported("0.9.0", true);
    use_supported("01.000", true);
    use_supported("1.0.0.0", true);
    use_supported("1.0.0.1", false);
    use_supported("99.0.0", false);
    use_supported("1.2a", false);
}

fn use_supported(version: &str, expected: bool) {
    assert_eq!(anchor::version::is_supported_version(version), expected, "{}", version);
}
