use naps2_poc::json::{
    find_member, missing_field_message, parse_json, read_count_field, read_flag_field,
    read_optional_text_field, read_text_field, read_text_list_field, require_member,
    wrong_type_message,
};
use naps2_poc::scan::{devices_from_json, text_list_to_json};
use naps2_poc::{JpegSaveResult, JsonField, JsonValue, OcrLanguage, ScanResult, ScannerDevice};

fn field(name: &str, value: JsonValue) -> JsonField {
    JsonField { name: name.to_string(), value }
}

fn text(s: &str) -> JsonValue {
    JsonValue::Text(s.to_string())
}

fn to_serde(json: &JsonValue) -> serde_json::Value {
    match json {
        JsonValue::Null => serde_json::Value::Null,
        JsonValue::Bool(b) => serde_json::Value::Bool(*b),
        JsonValue::Number(Some(n)) => serde_json::Value::Number(serde_json::Number::from(*n)),
        JsonValue::Number(None) => panic!("a number without a value cannot be written"),
        JsonValue::Text(s) => serde_json::Value::String(s.clone()),
        JsonValue::Array(items) => serde_json::Value::Array(items.iter().map(to_serde).collect()),
        JsonValue::Object(fields) => {
            let mut map = serde_json::Map::new();
            for f in fields {
                assert!(map.insert(f.name.clone(), to_serde(&f.value)).is_none());
            }
            serde_json::Value::Object(map)
        }
    }
}

fn written(json: &JsonValue) -> String {
    serde_json::to_string(&to_serde(json)).unwrap()
}

#[test]
fn parse_json_reads_the_plain_values() {
    assert_eq!(parse_json("null").unwrap(), JsonValue::Null);
    assert_eq!(parse_json("true").unwrap(), JsonValue::Bool(true));
    assert_eq!(parse_json("false").unwrap(), JsonValue::Bool(false));
    assert_eq!(parse_json("\"a b\"").unwrap(), text("a b"));
    assert_eq!(parse_json("\"\"").unwrap(), text(""));
    assert_eq!(parse_json(r#""é\n\"""#).unwrap(), text("\u{e9}\n\""));
}

#[test]
fn parse_json_keeps_whole_numbers_from_zero_up() {
    assert_eq!(parse_json("0").unwrap(), JsonValue::Number(Some(0)));
    assert_eq!(parse_json("12").unwrap(), JsonValue::Number(Some(12)));
    assert_eq!(
        parse_json("18446744073709551615").unwrap(),
        JsonValue::Number(Some(u64::MAX))
    );
}

#[test]
fn parse_json_drops_the_value_of_other_numbers() {
    assert_eq!(parse_json("-1").unwrap(), JsonValue::Number(None));
    assert_eq!(parse_json("1.5").unwrap(), JsonValue::Number(None));
    assert_eq!(parse_json("1e3").unwrap(), JsonValue::Number(None));
    assert_eq!(parse_json("18446744073709551616").unwrap(), JsonValue::Number(None));
}

#[test]
fn parse_json_reads_arrays_in_order() {
    assert_eq!(parse_json("[]").unwrap(), JsonValue::Array(Vec::new()));
    assert_eq!(
        parse_json(r#"[1, "two", [null], false]"#).unwrap(),
        JsonValue::Array(vec![
            JsonValue::Number(Some(1)),
            text("two"),
            JsonValue::Array(vec![JsonValue::Null]),
            JsonValue::Bool(false),
        ])
    );
}

#[test]
fn parse_json_reads_objects_with_every_member_once() {
    assert_eq!(parse_json("{}").unwrap(), JsonValue::Object(Vec::new()));
    let parsed = parse_json(r#"{"b": {"x": []}, "a": 1}"#).unwrap();
    let fields = match &parsed {
        JsonValue::Object(fields) => fields,
        other => panic!("expected an object, got {:?}", other),
    };
    assert_eq!(fields.len(), 2);
    assert_eq!(find_member(fields, "a"), Some(&JsonValue::Number(Some(1))));
    assert_eq!(
        find_member(fields, "b"),
        Some(&JsonValue::Object(vec![field("x", JsonValue::Array(Vec::new()))]))
    );
    assert_eq!(find_member(fields, "c"), None);
}

#[test]
fn parse_json_keeps_the_last_of_members_with_one_name() {
    let parsed = parse_json(r#"{"Id":"first","Id":"second"}"#).unwrap();
    assert_eq!(parsed, JsonValue::Object(vec![field("Id", text("second"))]));
}

#[test]
fn parse_json_reports_what_the_parser_reports() {
    for bad in ["", " ", "nul", "[1,", "{\"a\"}", "'a'", "[1] 2", "\"open", "01", "{,}"] {
        let expected = serde_json::from_str::<serde_json::Value>(bad).unwrap_err().to_string();
        assert_eq!(parse_json(bad), Err(expected));
    }
}

#[test]
fn parse_json_report_names_line_and_column() {
    assert_eq!(
        parse_json("[1,\n x]"),
        Err("expected value at line 2 column 2".to_string())
    );
}

#[test]
fn find_member_takes_the_first_of_a_name() {
    let fields = vec![field("a", text("1")), field("b", text("2")), field("a", text("3"))];
    assert_eq!(find_member(&fields, "a"), Some(&text("1")));
    assert_eq!(find_member(&fields, "b"), Some(&text("2")));
    assert_eq!(find_member(&fields, ""), None);
    assert_eq!(find_member(&Vec::new(), "a"), None);
}

#[test]
fn require_member_reports_the_missing_name() {
    let fields = vec![field("a", JsonValue::Null)];
    assert_eq!(require_member(&fields, "a"), Ok(&JsonValue::Null));
    assert_eq!(require_member(&fields, "Id"), Err("missing field `Id`".to_string()));
}

#[test]
fn report_texts() {
    assert_eq!(missing_field_message("Count"), "missing field `Count`");
    assert_eq!(missing_field_message(""), "missing field ``");
    assert_eq!(wrong_type_message("a string"), "invalid type: expected a string");
}

#[test]
fn values_are_read_by_their_type_only() {
    let all = [
        JsonValue::Null,
        JsonValue::Bool(true),
        JsonValue::Number(Some(3)),
        JsonValue::Number(None),
        text("t"),
        JsonValue::Array(Vec::new()),
        JsonValue::Object(Vec::new()),
    ];
    let texts: Vec<bool> = all.iter().map(|v| v.text().is_ok()).collect();
    assert_eq!(texts, vec![false, false, false, false, true, false, false]);
    let flags: Vec<bool> = all.iter().map(|v| v.flag().is_ok()).collect();
    assert_eq!(flags, vec![false, true, false, false, false, false, false]);
    let counts: Vec<bool> = all.iter().map(|v| v.count().is_ok()).collect();
    assert_eq!(counts, vec![false, false, true, false, false, false, false]);
    let optional: Vec<bool> = all.iter().map(|v| v.optional_text().is_ok()).collect();
    assert_eq!(optional, vec![true, false, false, false, true, false, false]);
    let arrays: Vec<bool> = all.iter().map(|v| v.array_items().is_ok()).collect();
    assert_eq!(arrays, vec![false, false, false, false, false, true, false]);
    let objects: Vec<bool> = all.iter().map(|v| v.object_fields().is_ok()).collect();
    assert_eq!(objects, vec![false, false, false, false, false, false, true]);
    let lists: Vec<bool> = all.iter().map(|v| v.text_list().is_ok()).collect();
    assert_eq!(lists, vec![false, false, false, false, false, true, false]);
}

#[test]
fn values_read_give_what_they_hold() {
    assert_eq!(text("abc").text(), Ok("abc".to_string()));
    assert_eq!(JsonValue::Bool(false).flag(), Ok(false));
    assert_eq!(JsonValue::Number(Some(42)).count(), Ok(42));
    assert_eq!(JsonValue::Null.optional_text(), Ok(None));
    assert_eq!(text("").optional_text(), Ok(Some(String::new())));
    assert_eq!(
        JsonValue::Array(vec![text("x"), text("y")]).text_list(),
        Ok(vec!["x".to_string(), "y".to_string()])
    );
}

#[test]
fn reports_of_values_of_another_type() {
    assert_eq!(JsonValue::Null.text(), Err("invalid type: expected a string".to_string()));
    assert_eq!(JsonValue::Null.flag(), Err("invalid type: expected a boolean".to_string()));
    assert_eq!(
        JsonValue::Number(None).count(),
        Err("invalid type: expected an unsigned integer".to_string())
    );
    assert_eq!(
        JsonValue::Bool(true).optional_text(),
        Err("invalid type: expected a string".to_string())
    );
    assert_eq!(
        JsonValue::Null.array_items(),
        Err("invalid type: expected a sequence".to_string())
    );
    assert_eq!(JsonValue::Null.object_fields(), Err("invalid type: expected a map".to_string()));
    assert_eq!(
        JsonValue::Array(vec![text("x"), JsonValue::Null, JsonValue::Bool(true)]).text_list(),
        Err("invalid type: expected a string".to_string())
    );
}

#[test]
fn fields_are_read_by_name() {
    let fields = vec![
        field("Success", JsonValue::Bool(true)),
        field("Directory", text("/d")),
        field("Files", JsonValue::Array(vec![text("f")])),
        field("Count", JsonValue::Number(Some(1))),
        field("Error", JsonValue::Null),
    ];
    assert_eq!(read_flag_field(&fields, "Success"), Ok(true));
    assert_eq!(read_text_field(&fields, "Directory"), Ok("/d".to_string()));
    assert_eq!(read_text_list_field(&fields, "Files"), Ok(vec!["f".to_string()]));
    assert_eq!(read_count_field(&fields, "Count"), Ok(1));
    assert_eq!(read_optional_text_field(&fields, "Error"), Ok(None));
    assert_eq!(read_optional_text_field(&fields, "Missing"), Ok(None));
    assert_eq!(read_text_field(&fields, "Missing"), Err("missing field `Missing`".to_string()));
    assert_eq!(
        read_text_field(&fields, "Count"),
        Err("invalid type: expected a string".to_string())
    );
    assert_eq!(
        read_optional_text_field(&fields, "Count"),
        Err("invalid type: expected a string".to_string())
    );
}

#[test]
fn a_device_is_written_under_its_member_names() {
    let device = ScannerDevice {
        id: "dev1".to_string(),
        name: "Scanner A".to_string(),
        driver: "Sane".to_string(),
    };
    assert_eq!(
        device.to_json(),
        JsonValue::Object(vec![
            field("Id", text("dev1")),
            field("Name", text("Scanner A")),
            field("Driver", text("Sane")),
        ])
    );
    assert_eq!(
        written(&device.to_json()),
        r#"{"Driver":"Sane","Id":"dev1","Name":"Scanner A"}"#
    );
}

#[test]
fn a_device_comes_back_from_its_json() {
    let devices = [
        ScannerDevice { id: "dev1".into(), name: "Scanner A".into(), driver: "Sane".into() },
        ScannerDevice { id: String::new(), name: String::new(), driver: String::new() },
        ScannerDevice { id: "\"q\"\\".into(), name: "\u{e9}\n\t".into(), driver: "{}".into() },
    ];
    for device in devices {
        assert_eq!(ScannerDevice::from_json(&device.to_json()), Ok(device.clone()));
        let reread = parse_json(&written(&device.to_json())).unwrap();
        assert_eq!(ScannerDevice::from_json(&reread), Ok(device));
    }
}

#[test]
fn a_list_of_devices_comes_back_from_its_json() {
    let devices = vec![
        ScannerDevice { id: "1".into(), name: "A".into(), driver: "Apple".into() },
        ScannerDevice { id: "2".into(), name: "B".into(), driver: "Escl".into() },
    ];
    let json = JsonValue::Array(devices.iter().map(|d| d.to_json()).collect());
    assert_eq!(devices_from_json(&json), Ok(devices.clone()));
    let reread = parse_json(&written(&json)).unwrap();
    assert_eq!(devices_from_json(&reread), Ok(devices));
}

#[test]
fn a_scan_comes_back_from_its_json() {
    let results = [
        ScanResult {
            image_paths: vec!["/t/1.png".into(), "/t/2.png".into()],
            temp_directory: "/t".into(),
        },
        ScanResult { image_paths: Vec::new(), temp_directory: String::new() },
    ];
    for result in results {
        assert_eq!(ScanResult::from_json(&result.to_json()), Ok(result.clone()));
        let text = written(&result.to_json());
        assert!(text.contains("\"ImagePaths\":["));
        assert!(text.contains("\"TempDirectory\":\""));
        let reread = parse_json(&text).unwrap();
        assert_eq!(ScanResult::from_json(&reread), Ok(result));
    }
}

#[test]
fn a_language_comes_back_from_its_json() {
    let language = OcrLanguage { code: "eng".into(), name: "English".into() };
    assert_eq!(
        language.to_json(),
        JsonValue::Object(vec![field("Code", text("eng")), field("Name", text("English"))])
    );
    assert_eq!(OcrLanguage::from_json(&language.to_json()), Ok(language.clone()));
    let reread = parse_json(&written(&language.to_json())).unwrap();
    assert_eq!(OcrLanguage::from_json(&reread), Ok(language));
}

#[test]
fn a_jpeg_report_without_error_is_written_without_the_member() {
    let report = JpegSaveResult {
        success: true,
        directory: "/out".into(),
        files: vec!["/out/1.jpg".into(), "/out/2.jpg".into()],
        count: 2,
        error: None,
    };
    let text = written(&report.to_json());
    assert_eq!(
        text,
        r#"{"Count":2,"Directory":"/out","Files":["/out/1.jpg","/out/2.jpg"],"Success":true}"#
    );
    assert!(!text.contains("Error"));
    assert!(!text.contains("null"));
    assert_eq!(JpegSaveResult::from_json(&report.to_json()), Ok(report.clone()));
    let reread = parse_json(&text).unwrap();
    let back = JpegSaveResult::from_json(&reread).unwrap();
    assert_eq!(back.error, None);
    assert_eq!(back, report);
}

#[test]
fn a_jpeg_report_with_error_comes_back_from_its_json() {
    let reports = [
        JpegSaveResult {
            success: false,
            directory: "/out".into(),
            files: Vec::new(),
            count: 0,
            error: Some("no space left".into()),
        },
        JpegSaveResult {
            success: false,
            directory: String::new(),
            files: Vec::new(),
            count: usize::MAX,
            error: Some(String::new()),
        },
    ];
    for report in reports {
        assert_eq!(JpegSaveResult::from_json(&report.to_json()), Ok(report.clone()));
        let text = written(&report.to_json());
        assert!(text.contains("\"Error\":\""));
        let reread = parse_json(&text).unwrap();
        assert_eq!(JpegSaveResult::from_json(&reread), Ok(report));
    }
}

#[test]
fn a_list_of_strings_is_written_as_an_array() {
    let list = vec!["a".to_string(), String::new(), "c".to_string()];
    let json = text_list_to_json(&list);
    assert_eq!(json, JsonValue::Array(vec![text("a"), text(""), text("c")]));
    assert_eq!(written(&json), r#"["a","","c"]"#);
    assert_eq!(json.text_list(), Ok(list));
    assert_eq!(text_list_to_json(&Vec::new()), JsonValue::Array(Vec::new()));
}
