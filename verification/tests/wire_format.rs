use timelog::client::form_body;
use timelog::record::FormRecord;
use timelog::server::error_body;

fn record(name: &str, age: &str) -> FormRecord {
    FormRecord { name: name.to_string(), age: age.to_string() }
}

#[test]
fn form_body_plain() {
    let b = form_body(&record("Ada", "37"));
    assert_eq!(b, "{\"name\":\"Ada\",\"age\":\"37\"}");
}

#[test]
fn form_body_empty_fields() {
    let b = form_body(&record("", ""));
    assert_eq!(b, "{\"name\":\"\",\"age\":\"\"}");
}

#[test]
fn form_body_escapes_quotes_and_backslashes() {
    let b = form_body(&record("a\"b", "c\\d"));
    assert_eq!(b, "{\"name\":\"a\\\"b\",\"age\":\"c\\\\d\"}");
}

#[test]
fn form_body_escapes_control_characters() {
    let b = form_body(&record("a\nb\tc", "\r\u{08}\u{0c}"));
    assert_eq!(b, "{\"name\":\"a\\nb\\tc\",\"age\":\"\\r\\b\\f\"}");
}

#[test]
fn form_body_hex_escapes_other_controls() {
    let b = form_body(&record("\u{01}", "\u{1f}"));
    assert_eq!(b, "{\"name\":\"\\u0001\",\"age\":\"\\u001f\"}");
}

#[test]
fn form_body_keeps_unicode_as_is() {
    let b = form_body(&record("Grâce 愛", "∞"));
    assert_eq!(b, "{\"name\":\"Grâce 愛\",\"age\":\"∞\"}");
}

#[test]
fn form_body_parses_back() {
    let cases = [
        ("Ada", "37"),
        ("a\"b\\c", "\n\t\r"),
        ("\u{0}\u{1f}\u{7f}", "愛"),
        ("", "n/a"),
    ];
    for (name, age) in cases {
        let b = form_body(&record(name, age));
        let v: serde_json::Value = serde_json::from_str(&b).expect("body must be valid JSON");
        assert_eq!(v["name"].as_str(), Some(name));
        assert_eq!(v["age"].as_str(), Some(age));
    }
}

#[test]
fn error_body_plain() {
    assert_eq!(error_body("boom"), "{\"error\":\"boom\"}");
}

#[test]
fn error_body_escaped() {
    assert_eq!(error_body("a \"b\"\n"), "{\"error\":\"a \\\"b\\\"\\n\"}");
}

#[test]
fn error_body_parses_back() {
    let messages = ["db down", "a\"b\\c\n\u{1}", ""];
    for m in messages {
        let b = error_body(m);
        let v: serde_json::Value = serde_json::from_str(&b).expect("body must be valid JSON");
        assert_eq!(v["error"].as_str(), Some(m));
    }
}
