use hako_server::keys::{current_key, current_object_body, current_revision, definition_key, object_url};
use hako_server::upload::{app_id_of, is_definition_file, is_jsonnet};

#[test]
fn object_keys() {
    assert_eq!(current_key("hako"), "hako/current");
    assert_eq!(definition_key("hako", "abc123", "web"), "hako/abc123/web.json");
    assert_eq!(object_url("bucket", "hako/current"), "s3://bucket/hako/current");
}

#[test]
fn current_object_round_trip() {
    let body = current_object_body("abc123");
    assert_eq!(body, b"abc123\n".to_vec());
    assert_eq!(current_revision(&body), Some("abc123".to_string()));
    assert_eq!(current_revision(b"abc123 \r\n"), Some("abc123".to_string()));
    assert_eq!(current_revision(&[0x61, 0xff, 0x0a]), None);
    assert_eq!(current_revision("rév\n".as_bytes()), Some("rév".to_string()));
}

#[test]
fn jsonnet_sources() {
    assert!(is_jsonnet("web.jsonnet"));
    assert!(is_jsonnet("web.batch.jsonnet"));
    assert!(!is_jsonnet(".jsonnet"));
    assert!(!is_jsonnet("web.json"));
    assert!(!is_jsonnet("web.libsonnet"));
    assert!(!is_jsonnet("jsonnet"));
    assert!(is_definition_file(false, "web.jsonnet"));
    assert!(!is_definition_file(true, "web.jsonnet"));
    assert!(!is_definition_file(false, "README.md"));
}

#[test]
fn application_of_a_definition_file() {
    assert_eq!(app_id_of("web.jsonnet"), Some("web".to_string()));
    assert_eq!(app_id_of("web.batch.jsonnet"), Some("web.batch".to_string()));
    assert_eq!(app_id_of("web.json"), None);
}

#[test]
fn every_jsonnet_source_names_an_application() {
    for name in ["a.jsonnet", "web.batch.jsonnet", "x..jsonnet", "日本.jsonnet"] {
        assert!(is_jsonnet(name));
        assert!(app_id_of(name).is_some());
    }
}

#[test]
fn revision_ending_in_white_space_reads_back_trimmed() {
    assert_eq!(current_revision(&current_object_body("rev ")), Some("rev".to_string()));
    assert_eq!(current_revision(&current_object_body("")), Some(String::new()));
}

