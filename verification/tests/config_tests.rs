use gg::{parse, Config, Error, Script};

#[test]
fn test_parse_empty() {
    let s = r#"{}"#;
    let config = parse(s).unwrap();

    assert_eq!(config, Config::default());
}

#[test]
fn test_parse_version_constraint() {
    let config = parse(r#"{"gg":"1.2.3"}"#).unwrap();
    assert_eq!(config.gg, Some("1.2.3".to_string()));
    assert!(config.scripts.is_empty());
}

#[test]
fn test_parse_null_version_constraint() {
    let config = parse(r#"{"gg":null}"#).unwrap();
    assert_eq!(config.gg, None);
}

#[test]
fn test_parse_bad_version_constraint() {
    let err = parse(r#"{"gg":7}"#).unwrap_err();
    assert!(matches!(err, Error::Json { .. }));
    assert!(!err.is_not_exist());
}

#[test]
fn test_parse_unknown_fields_ignored() {
    let config = parse(r#"{"future":[1,2,{"x":null}],"other":true}"#).unwrap();
    assert_eq!(config, Config::default());
}

#[test]
fn test_parse_scalar_and_struct_scripts_equal() {
    let scalar = parse(r#"{"scripts":{"a":"echo hi"}}"#).unwrap();
    let structured = parse(r#"{"scripts":{"a":{}}}"#).unwrap();

    let a1 = scalar.get_script(&"a".to_string()).unwrap();
    let a2 = structured.get_script(&"a".to_string()).unwrap();
    assert_eq!(a1, a2);
    assert_eq!(scalar.scripts, structured.scripts);
}

#[test]
fn test_parse_scripts_map() {
    let config = parse(r#"{"scripts":{"build":"cargo build","lint":{}}}"#).unwrap();
    assert_eq!(config.scripts.len(), 2);
    assert!(config.get_script(&"build".to_string()).is_some());
    assert!(config.get_script(&"lint".to_string()).is_some());
    assert!(config.get_script(&"missing".to_string()).is_none());
}

#[test]
fn test_parse_bad_script_value() {
    let err = parse(r#"{"scripts":{"a":5}}"#).unwrap_err();
    assert!(matches!(err, Error::Json { .. }));
}

#[test]
fn test_parse_scripts_not_a_map() {
    let err = parse(r#"{"scripts":[1]}"#).unwrap_err();
    assert!(matches!(err, Error::Json { .. }));
}

#[test]
fn test_parse_top_level_not_an_object() {
    let err = parse(r#"[1,2]"#).unwrap_err();
    assert!(matches!(err, Error::Json { .. }));
}

#[test]
fn test_parse_malformed_json() {
    let err = parse(r#"{"scripts""#).unwrap_err();
    assert!(matches!(err, Error::Json { .. }));
}

#[test]
fn test_error_messages() {
    let e = Error::Json { message: "boom".to_string() };
    assert_eq!(e.message(), "json error: boom");
    let e = Error::Io { not_found: false, message: "denied".to_string() };
    assert_eq!(e.message(), "io error: denied");
    assert!(!e.is_not_exist());
    let e = Error::Io { not_found: true, message: "gone".to_string() };
    assert!(e.is_not_exist());
}

#[test]
fn test_script_default() {
    assert_eq!(Script::default(), Script {});
}
