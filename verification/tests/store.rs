use content_store::store::{
    default_image_content, finish_initialization, load_decision, prepare_save, prepare_save_at,
    ContentError, LoadDecision, ReadOutcome,
};
use content_store::paths::PathConfig;
use serde_json::Value;

fn override_cfg(path: &str) -> PathConfig {
    PathConfig { override_path: Some(path.to_string()), project_root: "/repo".to_string() }
}

#[test]
fn load_and_save_roundtrip() {
    let cfg = override_cfg("/tmp/tps-images.json");

    let decision = load_decision(&cfg, ReadOutcome::Missing);
    let plan = match decision {
        LoadDecision::Materialize(plan) => plan,
        _ => panic!("should load default content"),
    };
    assert_eq!(plan.path, "/tmp/tps-images.json");
    let loaded = finish_initialization().expect("should load default content");
    assert!(loaded
        .get("hero")
        .and_then(|hero| hero.get("primary"))
        .and_then(|primary| primary.get("url"))
        .is_some());

    let mut updated = loaded.clone();
    if let Some(hero_obj) = updated
        .get_mut("hero")
        .and_then(|hero| hero.as_object_mut())
    {
        if let Some(primary) = hero_obj
            .get_mut("primary")
            .and_then(|value| value.as_object_mut())
        {
            primary.insert("label".into(), Value::String("Updated Label".to_string()));
        }
    }

    let saved = prepare_save(updated.clone(), &cfg).expect("should persist updates");
    assert_eq!(
        saved.document["hero"]["primary"]["label"],
        Value::String("Updated Label".to_string()),
        "saved payload should reflect mutations"
    );

    let persisted: Value =
        serde_json::from_str(&saved.contents).expect("persisted json should parse");
    assert_eq!(
        persisted["hero"]["primary"]["label"],
        Value::String("Updated Label".to_string())
    );
    assert!(persisted["updatedAt"].is_string());
}

#[test]
fn first_load_materializes_exactly_the_default_content() {
    let cfg = PathConfig { override_path: None, project_root: "/repo".to_string() };
    match load_decision(&cfg, ReadOutcome::Missing) {
        LoadDecision::Materialize(plan) => {
            assert_eq!(plan.path, "/repo/shared/content/images.json");
            assert_eq!(plan.parent_dir.as_deref(), Some("/repo/shared/content"));
            assert_eq!(plan.contents, default_image_content());
            let expected: Value = serde_json::from_str(default_image_content()).unwrap();
            let first = finish_initialization().unwrap();
            assert_eq!(first, expected);
        }
        _ => panic!("a missing file must be materialized"),
    }
}

#[test]
fn save_then_load_returns_document_with_fresh_timestamp() {
    let before = chrono::Utc::now();
    let doc: Value =
        serde_json::from_str("{\"hero\":{\"primary\":{\"url\":\"u\",\"label\":\"l\"}}}").unwrap();
    let cfg = override_cfg("/tmp/tps-images.json");

    let plan = prepare_save(doc.clone(), &cfg).expect("save of an object should succeed");
    let loaded = match load_decision(&cfg, ReadOutcome::Contents(plan.contents.clone())) {
        LoadDecision::Document(v) => v,
        _ => panic!("loading what save wrote should succeed"),
    };

    let ts = loaded["updatedAt"].as_str().expect("updatedAt should be a string");
    let parsed =
        chrono::DateTime::parse_from_rfc3339(ts).expect("updatedAt should be valid RFC 3339");
    assert!(parsed.timestamp_micros() >= before.timestamp_micros());

    let mut without_stamp = loaded.clone();
    without_stamp.as_object_mut().unwrap().remove("updatedAt");
    assert_eq!(without_stamp, doc);
}

#[test]
fn non_object_save_passes_through_unchanged() {
    let cfg = override_cfg("/tmp/tps-images.json");

    let list: Value = serde_json::from_str("[1,2,3]").unwrap();
    let plan = prepare_save(list.clone(), &cfg).unwrap();
    assert_eq!(plan.document, list);
    assert!(plan.document.get("updatedAt").is_none());
    assert_eq!(plan.contents, serde_json::to_string_pretty(&list).unwrap());

    let text = Value::String("plain".to_string());
    let plan = prepare_save_at(text.clone(), &cfg, "2024-01-01T00:00:00+00:00").unwrap();
    assert_eq!(plan.document, text);
    assert_eq!(plan.contents, serde_json::to_string_pretty(&text).unwrap());
}

#[test]
fn object_save_is_stamped_at_the_given_time() {
    let cfg = override_cfg("/tmp/tps-images.json");
    let doc: Value = serde_json::from_str("{\"a\":1}").unwrap();
    let plan = prepare_save_at(doc, &cfg, "2024-01-01T00:00:00+00:00").unwrap();
    assert_eq!(
        plan.document["updatedAt"],
        Value::String("2024-01-01T00:00:00+00:00".to_string())
    );
    assert_eq!(plan.document["a"], Value::Number(1.into()));
}

#[test]
fn deeply_nested_documents_still_save() {
    let cfg = override_cfg("/tmp/tps-images.json");
    let mut doc = Value::Null;
    for _ in 0..200 {
        doc = Value::Array(vec![doc]);
    }
    let plan = prepare_save_at(doc.clone(), &cfg, "2024-01-01T00:00:00+00:00")
        .expect("preparing a save succeeds for any document");
    assert_eq!(plan.document, doc);
    // the parser's recursion limit is why load-after-save is only promised
    // for documents within it
    assert!(serde_json::from_str::<Value>(&plan.contents).is_err());
}

#[test]
fn corrupt_file_surfaces_deserialization_error() {
    let cfg = override_cfg("/tmp/tps-images.json");
    match load_decision(&cfg, ReadOutcome::Contents("not json {".to_string())) {
        LoadDecision::Reject(ContentError::DeserializationError(msg)) => {
            let underlying = serde_json::from_str::<Value>("not json {").unwrap_err();
            assert_eq!(msg, underlying.to_string());
        }
        _ => panic!("invalid JSON must be rejected as a deserialization error"),
    }
}

#[test]
fn read_failure_surfaces_io_error() {
    let cfg = override_cfg("/tmp/tps-images.json");
    match load_decision(&cfg, ReadOutcome::Failed("permission denied".to_string())) {
        LoadDecision::Reject(err) => {
            assert!(matches!(err, ContentError::IoError(_)));
            assert_eq!(err.text(), "permission denied");
        }
        _ => panic!("a read failure other than not-found must surface an IO error"),
    }
}

#[test]
fn reload_without_save_returns_equal_documents() {
    let cfg = override_cfg("/tmp/tps-images.json");
    let text = default_image_content().to_string();
    let first = match load_decision(&cfg, ReadOutcome::Contents(text.clone())) {
        LoadDecision::Document(v) => v,
        _ => panic!("loading valid contents should succeed"),
    };
    let second = match load_decision(&cfg, ReadOutcome::Contents(text)) {
        LoadDecision::Document(v) => v,
        _ => panic!("loading valid contents should succeed"),
    };
    assert_eq!(first, second);
}

#[test]
fn default_content_names_a_hero_image() {
    assert_eq!(
        default_image_content(),
        "{\"hero\":{\"primary\":{\"url\":\"https://images.example.com/hero/main.jpg\",\"label\":\"Main Stage Hero\"}}}"
    );
    let parsed: Value = serde_json::from_str(default_image_content()).unwrap();
    assert!(parsed["hero"]["primary"]["url"].is_string());
    assert!(parsed["hero"]["primary"]["label"].is_string());
}
