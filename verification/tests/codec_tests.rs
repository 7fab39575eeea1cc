use fumosync::codec::{encode_configuration, parse_configuration};
use fumosync::config::Configuration;
use fumosync::error::Error;

fn config(name: &str, id: &str, whitelist: &[&str], is_public: bool) -> Configuration {
    Configuration {
        script_name: name.to_string(),
        script_id: id.to_string(),
        whitelist: whitelist.iter().map(|s| s.to_string()).collect(),
        is_public,
    }
}

#[test]
fn encode_plain_config() {
    let text = encode_configuration(&config("demo", "???", &[], false));
    assert_eq!(
        text,
        "{\"scriptName\":\"demo\",\"scriptId\":\"???\",\"whitelist\":[],\"isPublic\":false}"
    );
}

#[test]
fn encode_whitelist_and_visibility() {
    let text = encode_configuration(&config("s", "42", &["alice", "bob"], true));
    assert_eq!(
        text,
        "{\"scriptName\":\"s\",\"scriptId\":\"42\",\"whitelist\":[\"alice\",\"bob\"],\"isPublic\":true}"
    );
}

#[test]
fn encode_escapes_quotes_backslashes_and_controls() {
    let text = encode_configuration(&config("a\"b\\c", "x", &[], false));
    assert!(text.contains("\"a\\\"b\\\\c\""));
    let text = encode_configuration(&config("line\nbreak", "x", &[], false));
    assert!(text.contains("line\\u000abreak"));
}

#[test]
fn round_trip_plain() {
    let c = config("demo", "42", &["alice"], true);
    let text = encode_configuration(&c);
    let back = parse_configuration(&text).unwrap();
    assert_eq!(back, c);
}

#[test]
fn round_trip_exotic_strings() {
    let c = config(
        "na\"me\\ with \u{1} ctrl\tand\nnewline",
        "id \u{1f}",
        &["", "a,b", "\"quoted\"", "snow\u{2603}man"],
        false,
    );
    let text = encode_configuration(&c);
    let back = parse_configuration(&text).unwrap();
    assert_eq!(back, c);
}

#[test]
fn parse_accepts_whitespace_and_simple_escapes() {
    let text = " {\n  \"scriptName\" : \"a\\nb\\t\\\"\\\\\\/\" ,\n  \"scriptId\" : \"1\" ,\n  \"whitelist\" : [ \"x\" , \"y\" ] ,\n  \"isPublic\" : true\n}\n";
    let cfg = parse_configuration(text).unwrap();
    assert_eq!(cfg.script_name, "a\nb\t\"\\/");
    assert_eq!(cfg.script_id, "1");
    assert_eq!(cfg.whitelist, vec!["x".to_string(), "y".to_string()]);
    assert!(cfg.is_public);
}

#[test]
fn parse_accepts_hex_escapes_either_case() {
    let text = "{\"scriptName\":\"\\u000A\\u001f\",\"scriptId\":\"\",\"whitelist\":[],\"isPublic\":false}";
    let cfg = parse_configuration(text).unwrap();
    assert_eq!(cfg.script_name, "\n\u{1f}");
    assert_eq!(cfg.script_id, "");
}

#[test]
fn parse_rejects_malformed_text() {
    let bad = [
        "",
        "   ",
        "{}",
        "not json",
        "{\"scriptName\":\"a\",\"scriptId\":\"b\",\"whitelist\":[],\"isPublic\":false",
        "{\"scriptName\":\"a\",\"scriptId\":\"b\",\"whitelist\":[],\"isPublic\":maybe}",
        "{\"scriptName\":\"a\",\"scriptId\":\"b\",\"whitelist\":[,],\"isPublic\":false}",
        "{\"scriptName\":\"a\",\"scriptId\":\"b\",\"whitelist\":[],\"isPublic\":false}trailing",
        "{\"scriptId\":\"b\",\"scriptName\":\"a\",\"whitelist\":[],\"isPublic\":false}",
        "{\"scriptName\":\"unterminated",
        "{\"scriptName\":\"bad\\q\",\"scriptId\":\"b\",\"whitelist\":[],\"isPublic\":false}",
    ];
    for text in bad.iter() {
        assert_eq!(parse_configuration(text), Err(Error::Deserialize), "text: {}", text);
    }
}

#[test]
fn encoded_text_is_json_that_serde_reads_the_same() {
    let c = config("de\"mo\\\n\u{2} name", "id-42", &["ali\tce", "bob"], true);
    let text = encode_configuration(&c);
    let v: serde_json::Value = serde_json::from_str(&text).unwrap();
    assert_eq!(v.get("scriptName").and_then(|x| x.as_str()), Some("de\"mo\\\n\u{2} name"));
    assert_eq!(v.get("scriptId").and_then(|x| x.as_str()), Some("id-42"));
    assert_eq!(v.get("isPublic").and_then(|x| x.as_bool()), Some(true));
    let wl = v.get("whitelist").and_then(|x| x.as_array()).unwrap();
    assert_eq!(wl.len(), 2);
    assert_eq!(wl[0].as_str(), Some("ali\tce"));
    assert_eq!(wl[1].as_str(), Some("bob"));
}

#[test]
fn pretty_printed_config_reads_back() {
    let pretty = "{\n  \"scriptName\": \"pretty demo\",\n  \"scriptId\": \"7\",\n  \"whitelist\": [\n    \"alice\"\n  ],\n  \"isPublic\": false\n}";
    let cfg = parse_configuration(pretty).unwrap();
    assert_eq!(cfg.script_name, "pretty demo");
    assert_eq!(cfg.script_id, "7");
    assert_eq!(cfg.whitelist, vec!["alice".to_string()]);
    assert!(!cfg.is_public);
}

#[test]
fn parse_accepts_spaced_empty_whitelist() {
    let text = "{\"scriptName\":\"a\",\"scriptId\":\"b\",\"whitelist\":[ ],\"isPublic\":false}";
    let cfg = parse_configuration(text).unwrap();
    assert_eq!(cfg.whitelist, Vec::<String>::new());
}

#[test]
fn round_trip_empty_fields() {
    let c = config("", "", &[], false);
    let text = encode_configuration(&c);
    assert_eq!(
        text,
        "{\"scriptName\":\"\",\"scriptId\":\"\",\"whitelist\":[],\"isPublic\":false}"
    );
    assert_eq!(parse_configuration(&text).unwrap(), c);
}
