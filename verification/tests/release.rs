use check_spin_cli_version::error::ResolveError;
use check_spin_cli_version::release::{normalize_version, write_release_object, ReleaseInfo};
use serde::ser::SerializeStruct;

fn parsed(body: &str) -> ReleaseInfo {
    ReleaseInfo::try_from(body.as_bytes()).expect("the body is a JSON document")
}

fn record(version: &str, commit_hash: &str, published_at: &str) -> ReleaseInfo {
    ReleaseInfo {
        version: version.to_string(),
        commit_hash: commit_hash.to_string(),
        published_at: published_at.to_string(),
    }
}

#[test]
fn tag_name_with_leading_v_becomes_bare_version() {
    let body = r#"{"tag_name":"v1.2.3","target_commitish":"main","published_at":"2024-02-29T12:34:56Z"}"#;
    assert_eq!(parsed(body), record("1.2.3", "main", "2024-02-29T12:34:56Z"));
}

#[test]
fn tag_name_with_leading_v_whatever_else_the_document_holds() {
    let bodies = [
        r#"{"tag_name":"v1.2.3"}"#,
        r#"{ "id": 7, "tag_name" : "v1.2.3", "assets": [ {"name": "spin.tar.gz"} ], "draft": false }"#,
        r#"{"published_at":null,"tag_name":"v1.2.3","author":{"login":"bot","tag_name":"v9"}}"#,
    ];
    for body in bodies {
        assert_eq!(parsed(body).version, "1.2.3");
    }
}

#[test]
fn absent_tag_name_reads_unknown() {
    let body = r#"{"target_commitish":"0123abc","published_at":"2023-11-05T00:00:00Z"}"#;
    assert_eq!(parsed(body), record("unknown", "0123abc", "2023-11-05T00:00:00Z"));
}

#[test]
fn every_absent_member_reads_unknown() {
    assert_eq!(parsed("{}"), record("unknown", "unknown", "unknown"));
    assert_eq!(parsed(r#"{"tag_name":"v2.0.0"}"#), record("2.0.0", "unknown", "unknown"));
    assert_eq!(parsed(r#"{"target_commitish":"main"}"#), record("unknown", "main", "unknown"));
    assert_eq!(parsed(r#"{"published_at":"now"}"#), record("unknown", "unknown", "now"));
}

#[test]
fn member_that_is_no_string_reads_unknown() {
    let body = r#"{"tag_name":3,"target_commitish":null,"published_at":["2024"]}"#;
    assert_eq!(parsed(body), record("unknown", "unknown", "unknown"));
    let body = r#"{"tag_name":{"v":"v1"},"target_commitish":true,"published_at":1.5}"#;
    assert_eq!(parsed(body), record("unknown", "unknown", "unknown"));
}

#[test]
fn document_that_is_no_object_reads_unknown() {
    for body in ["null", "true", "17", "\"v1.2.3\"", "[]", "[{\"tag_name\":\"v1.2.3\"}]"] {
        assert_eq!(parsed(body), record("unknown", "unknown", "unknown"));
    }
}

#[test]
fn members_are_found_by_exact_key() {
    let body = r#"{"Tag_Name":"v1","tag_name ":"v2","TARGET_COMMITISH":"x","publishedAt":"y"}"#;
    assert_eq!(parsed(body), record("unknown", "unknown", "unknown"));
}

#[test]
fn repeated_key_reads_as_the_parser_keeps_it() {
    let body = r#"{"tag_name":"v1.0.0","tag_name":"v2.0.0"}"#;
    let kept: serde_json::Value = serde_json::from_str(body).unwrap();
    let expected = kept["tag_name"].as_str().unwrap().trim_start_matches('v').to_string();
    assert_eq!(parsed(body).version, expected);
}

#[test]
fn escapes_in_members_are_decoded() {
    let body = r#"{"tag_name":"v1.2.3","target_commitish":"a\"b\\c","published_at":"t\n"}"#;
    assert_eq!(parsed(body), record("1.2.3", "a\"b\\c", "t\n"));
}

#[test]
fn commit_and_timestamp_pass_through_verbatim() {
    let body = r#"{"tag_name":"canary","target_commitish":" v-main ","published_at":" 2024 "}"#;
    assert_eq!(parsed(body), record("canary", " v-main ", " 2024 "));
}

#[test]
fn empty_body_is_an_empty_body_failure() {
    assert_eq!(ReleaseInfo::try_from(&b""[..]), Err(ResolveError::EmptyBody));
}

#[test]
fn body_that_is_not_json_is_a_parse_failure() {
    for body in ["{", "not json", " ", "\n", "{\"tag_name\":}", "{\"tag_name\":\"v1\"} trailing", "{'tag_name':'v1'}"] {
        assert_eq!(ReleaseInfo::try_from(body.as_bytes()), Err(ResolveError::Parse), "{body:?}");
    }
    assert_eq!(ReleaseInfo::try_from(&[0xff, 0xfe][..]), Err(ResolveError::Parse));
    assert_eq!(ReleaseInfo::try_from(&b"\"\xff\""[..]), Err(ResolveError::Parse));
}

#[test]
fn white_space_around_a_document_is_accepted() {
    assert_eq!(parsed(" \n{\"tag_name\":\"v3.1.4\"}\t\r\n").version, "3.1.4");
}

#[test]
fn version_is_normalized() {
    assert_eq!(normalize_version("v1.2.3"), "1.2.3");
    assert_eq!(normalize_version("1.2.3"), "1.2.3");
    assert_eq!(normalize_version("v 1.2.3 "), "1.2.3");
    assert_eq!(normalize_version("v\t1.2.3\n"), "1.2.3");
    assert_eq!(normalize_version(" 1.2.3 "), "1.2.3");
    assert_eq!(normalize_version("v"), "");
    assert_eq!(normalize_version(""), "");
    assert_eq!(normalize_version("   "), "");
    assert_eq!(normalize_version("vv1"), "v1");
    assert_eq!(normalize_version("V1.0"), "V1.0");
    assert_eq!(normalize_version("canary"), "canary");
    assert_eq!(normalize_version("unknown"), "unknown");
    assert_eq!(normalize_version("v1.0 rc 1"), "1.0 rc 1");
    assert_eq!(normalize_version("v\u{3000}1.0\u{2028}\u{a0}"), "1.0");
}

#[test]
fn only_a_v_at_the_very_front_is_removed() {
    assert_eq!(normalize_version(" v1.2.3"), "v1.2.3");
    assert_eq!(normalize_version("\u{feff}v1"), "\u{feff}v1");
}

#[test]
fn from_members_fills_in_what_is_absent() {
    assert_eq!(
        ReleaseInfo::from_members(Some("v0.10.1"), Some("abc"), Some("2022")),
        record("0.10.1", "abc", "2022")
    );
    assert_eq!(ReleaseInfo::from_members(None, None, None), record("unknown", "unknown", "unknown"));
    assert_eq!(ReleaseInfo::from_members(Some(""), Some(""), Some("")), record("", "", ""));
    assert_eq!(ReleaseInfo::from_members(None, Some("v1"), None), record("unknown", "v1", "unknown"));
}

#[test]
fn json_is_one_object_of_three_members_in_order() {
    let json = record("1.2.3", "main", "2024-02-29T12:34:56Z").to_json();
    assert_eq!(
        json,
        r#"{"version":"1.2.3","commit_hash":"main","published_at":"2024-02-29T12:34:56Z"}"#
    );
}

#[test]
fn json_escapes_what_json_asks_for() {
    let json = record("a\"b", "c\\d", "e\nf\u{1}\u{7f}é").to_json();
    assert_eq!(
        json,
        "{\"version\":\"a\\\"b\",\"commit_hash\":\"c\\\\d\",\"published_at\":\"e\\nf\\u0001\u{7f}é\"}"
    );
}

#[test]
fn json_of_empty_fields() {
    assert_eq!(
        record("", "", "").to_json(),
        r#"{"version":"","commit_hash":"","published_at":""}"#
    );
}

fn read_back(json: &str) -> ReleaseInfo {
    let value: serde_json::Value = serde_json::from_str(json).expect("the record's JSON parses");
    let object = value.as_object().expect("the record's JSON is an object");
    assert_eq!(object.len(), 3);
    record(
        object["version"].as_str().unwrap(),
        object["commit_hash"].as_str().unwrap(),
        object["published_at"].as_str().unwrap(),
    )
}

#[test]
fn json_round_trip_keeps_every_field() {
    let records = [
        record("1.2.3", "main", "2024-02-29T12:34:56Z"),
        record("unknown", "unknown", "unknown"),
        record("", "", ""),
        record("\"", "\\", "/"),
        record("tab\there", "line\nbreak\r\n", "\u{0}\u{1f}\u{7f}\u{80}"),
        record("ünïcödé", "日本語", "🚀 {\"version\":\"x\"}"),
        record("  spaced  ", "\u{2028}\u{2029}", "\u{feff}"),
    ];
    for r in records {
        assert_eq!(read_back(&r.to_json()), r);
    }
}

#[test]
fn json_round_trip_of_every_short_character() {
    for code in 0u32..0x3000 {
        if let Some(c) = char::from_u32(code) {
            let r = record(&c.to_string(), &format!("x{c}y"), &format!("{c}{c}"));
            assert_eq!(read_back(&r.to_json()), r);
        }
    }
}

#[test]
fn json_has_the_members_of_the_parsed_record() {
    let body = r#"{"tag_name":"v4.5.6","target_commitish":"release","published_at":"2025-01-01T00:00:00Z"}"#;
    let json = parsed(body).to_json();
    assert_eq!(read_back(&json), record("4.5.6", "release", "2025-01-01T00:00:00Z"));
}

#[test]
fn object_is_framed_around_the_literals() {
    assert_eq!(
        write_release_object("\"1\"", "\"2\"", "\"3\""),
        r#"{"version":"1","commit_hash":"2","published_at":"3"}"#
    );
    assert_eq!(
        write_release_object("", "", ""),
        r#"{"version":,"commit_hash":,"published_at":}"#
    );
    assert_eq!(
        write_release_object("a", "b", "c"),
        r#"{"version":a,"commit_hash":b,"published_at":c}"#
    );
}

#[test]
fn record_is_reachable_from_the_crate_root() {
    let r = check_spin_cli_version::ReleaseInfo::try_from(&b"{\"tag_name\":\"v7\"}"[..]).unwrap();
    assert_eq!(r, record("7", "unknown", "unknown"));
}

#[test]
fn json_agrees_with_the_serializer_on_a_map_of_the_fields() {
    let r = record("1.2.3 \"rc\"", "ma\\in", "2024\n");
    let value: serde_json::Value = serde_json::from_str(&r.to_json()).unwrap();
    let mut expected = serde_json::Map::new();
    expected.insert("version".to_string(), serde_json::Value::String(r.version.clone()));
    expected.insert("commit_hash".to_string(), serde_json::Value::String(r.commit_hash.clone()));
    expected.insert("published_at".to_string(), serde_json::Value::String(r.published_at.clone()));
    assert_eq!(value, serde_json::Value::Object(expected));
}

struct Mirror<'a>(&'a ReleaseInfo);

impl serde::Serialize for Mirror<'_> {
    fn serialize<S: serde::Serializer>(&self, serializer: S) -> Result<S::Ok, S::Error> {
        let mut fields = serializer.serialize_struct("ReleaseInfo", 3)?;
        fields.serialize_field("version", &self.0.version)?;
        fields.serialize_field("commit_hash", &self.0.commit_hash)?;
        fields.serialize_field("published_at", &self.0.published_at)?;
        fields.end()
    }
}

#[test]
fn json_is_what_serializing_the_three_fields_as_a_struct_gives() {
    let records = [
        record("1.2.3", "main", "2024-02-29T12:34:56Z"),
        record("unknown", "unknown", "unknown"),
        record("", "", ""),
        record("a\"b", "c\\d", "e\nf\u{1}\u{7f}é"),
        record("\u{8}\u{c}\t\r", "/", "\u{2028}🚀"),
    ];
    for r in records {
        assert_eq!(r.to_json(), serde_json::to_string(&Mirror(&r)).unwrap());
    }
}
