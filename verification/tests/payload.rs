use fripack::payload::{EmbeddedConfigData, MODE_EMBEDDED_JS};
use fripack::text::{decimal_string, digits_string};

#[test]
fn decimal_text_of_numbers() {
    assert_eq!(decimal_string(0), "0");
    assert_eq!(decimal_string(1), "1");
    assert_eq!(decimal_string(9), "9");
    assert_eq!(decimal_string(10), "10");
    assert_eq!(decimal_string(1234567890), "1234567890");
    assert_eq!(decimal_string(-1), "-1");
    assert_eq!(decimal_string(-907), "-907");
    assert_eq!(decimal_string(i32::MAX), "2147483647");
    assert_eq!(decimal_string(i32::MIN), "-2147483648");
    assert_eq!(digits_string(0), "0");
    assert_eq!(digits_string(u64::MAX), "18446744073709551615");
    assert_eq!(digits_string(100), "100");
}

#[test]
fn record_serializes_in_field_order() {
    let record = EmbeddedConfigData {
        mode: 1,
        js_filepath: Some("main.js".to_string()),
        js_content: Some("console.log(1)".to_string()),
    };
    assert_eq!(
        record.to_json().unwrap(),
        "{\"mode\":1,\"js_filepath\":\"main.js\",\"js_content\":\"console.log(1)\"}"
    );
}

#[test]
fn absent_members_are_null() {
    let record = EmbeddedConfigData { mode: -3, js_filepath: None, js_content: None };
    assert_eq!(record.to_json().unwrap(), "{\"mode\":-3,\"js_filepath\":null,\"js_content\":null}");
    let record =
        EmbeddedConfigData { mode: 2, js_filepath: None, js_content: Some(String::new()) };
    assert_eq!(record.to_json().unwrap(), "{\"mode\":2,\"js_filepath\":null,\"js_content\":\"\"}");
}

#[test]
fn texts_are_escaped() {
    let record = EmbeddedConfigData {
        mode: 1,
        js_filepath: Some("C:\\scripts\\a \"b\".js".to_string()),
        js_content: Some("line1\nline2\t\u{1}é\u{1F600}".to_string()),
    };
    let json = record.to_json().unwrap();
    assert_eq!(
        json,
        "{\"mode\":1,\"js_filepath\":\"C:\\\\scripts\\\\a \\\"b\\\".js\",\"js_content\":\"line1\\nline2\\t\\u0001é\u{1F600}\"}"
    );
    // The text is JSON that reads back as the record.
    let value: serde_json::Value = serde_json::from_str(&json).unwrap();
    assert_eq!(value["mode"], serde_json::Value::from(1));
    assert_eq!(value["js_filepath"].as_str(), Some("C:\\scripts\\a \"b\".js"));
    assert_eq!(value["js_content"].as_str(), Some("line1\nline2\t\u{1}é\u{1F600}"));
    assert_eq!(value.as_object().unwrap().len(), 3);
}

#[test]
fn embedded_js_record_reads_the_script_as_text() {
    let record = EmbeddedConfigData::embedded_js("main.js", b"console.log(1)");
    assert_eq!(record.mode, MODE_EMBEDDED_JS);
    assert_eq!(record.mode, 1);
    assert_eq!(record.js_filepath.as_deref(), Some("main.js"));
    assert_eq!(record.js_content.as_deref(), Some("console.log(1)"));
}

#[test]
fn ill_formed_bytes_become_replacement_characters() {
    let record = EmbeddedConfigData::embedded_js("a.js", b"ok\xff\xfe!");
    assert_eq!(record.js_content.as_deref(), Some("ok\u{fffd}\u{fffd}!"));
    let record = EmbeddedConfigData::embedded_js("a.js", "grüß".as_bytes());
    assert_eq!(record.js_content.as_deref(), Some("grüß"));
}

#[test]
fn uncompressed_encoding_is_the_json_in_utf8() {
    let record = EmbeddedConfigData::embedded_js("é.js", "x=\"ß\"".as_bytes());
    let stored = record.encode(false).unwrap();
    assert_eq!(stored, record.to_json().unwrap().into_bytes());
    assert_eq!(
        String::from_utf8(stored).unwrap(),
        "{\"mode\":1,\"js_filepath\":\"é.js\",\"js_content\":\"x=\\\"ß\\\"\"}"
    );
}

#[test]
fn compressed_encoding_decompresses_to_the_json() {
    let record = EmbeddedConfigData::embedded_js("main.js", &vec![b'a'; 10_000]);
    let stored = record.encode(true).unwrap();
    assert!(stored.len() < 1000);
    let mut plain = Vec::new();
    let mut decoder = xz2::read::XzDecoder::new(stored.as_slice());
    std::io::Read::read_to_end(&mut decoder, &mut plain).unwrap();
    assert_eq!(plain, record.to_json().unwrap().into_bytes());
}

#[test]
fn every_escape_of_the_table() {
    let record = EmbeddedConfigData {
        mode: 1,
        js_filepath: None,
        js_content: Some("\u{0}\u{8}\t\n\u{b}\u{c}\r\u{1f} \"/\\\u{7f}\u{80}".to_string()),
    };
    assert_eq!(
        record.to_json().unwrap(),
        "{\"mode\":1,\"js_filepath\":null,\"js_content\":\"\\u0000\\b\\t\\n\\u000b\\f\\r\\u001f \\\"/\\\\\u{7f}\u{80}\"}"
    );
}
