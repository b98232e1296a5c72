use filecaster::{
    Config, ConfigFile, FromFile, NumericDefault, NumericDefaultFile, Simple, SimpleFile,
};

#[test]
fn test_simple_defaults() {
    // No file passed -> all fields fall back to defaults
    let s = Simple::from_file(None);
    assert_eq!(
        s,
        Simple {
            x: 0,
            y: "hello".to_string(),
        }
    );
}

#[test]
fn test_simple_override() {
    // Manually construct the shadow and override both fields
    let file = SimpleFile {
        x: Some(10),
        y: Some("world".to_string()),
    };
    let s = Simple::from_file(Some(file));
    assert_eq!(
        s,
        Simple {
            x: 10,
            y: "world".to_string(),
        }
    );
}

/// The shadow as an external deserializer populates it: absent keys stay
/// absent.
fn simple_file_from_json(json: &str) -> SimpleFile {
    let v: serde_json::Value = serde_json::from_str(json).unwrap();
    SimpleFile {
        x: v.get("x").and_then(|x| x.as_i64()).map(|x| x as i32),
        y: v.get("y").and_then(|y| y.as_str()).map(|s| s.to_string()),
    }
}

#[test]
fn test_simple_serde_empty() {
    // Deserialize from JSON missing both fields -> both None
    let json = "{}";
    let file = simple_file_from_json(json);
    let s = Simple::from_file(Some(file));
    assert_eq!(s.x, 0);
    assert_eq!(s.y, "hello".to_string());
}

#[test]
fn test_simple_serde_partial() {
    // Deserialize from JSON with only `x`
    let json = r#"{"x":5}"#;
    let file = simple_file_from_json(json);
    let s = Simple::from_file(Some(file));
    assert_eq!(s.x, 5);
    assert_eq!(s.y, "hello".to_string());
}

#[test]
fn test_simple_serde_full() {
    // Deserialize from JSON with both fields
    let json = r#"{"x":7,"y":"rust"}"#;
    let file = simple_file_from_json(json);
    let s = Simple::from_file(Some(file));
    assert_eq!(s.x, 7);
    assert_eq!(s.y, "rust".to_string());
}

#[test]
fn test_numeric_default() {
    // No file -> default `b = 42`
    let n = NumericDefault::from_file(None);
    assert_eq!(n, NumericDefault { a: 0, b: 42 });

    // Override both
    let file = NumericDefaultFile {
        a: Some(7),
        b: Some(99),
    };
    let n2 = NumericDefault::from_file(Some(file));
    assert_eq!(n2, NumericDefault { a: 7, b: 99 });
}

#[test]
fn test_merge_simple_file() {
    let mut f1 = SimpleFile {
        x: Some(1),
        y: None,
    };
    let f2 = SimpleFile {
        x: None,
        y: Some("foo".to_string()),
    };
    f1.merge(f2);
    assert_eq!(f1.x, Some(1));
    assert_eq!(f1.y, Some("foo".to_string()));
}

#[test]
fn test_merge_config_layers() {
    // defaults file + user file, merged left to right: left wins on
    // conflict, right fills gaps
    let mut user = ConfigFile {
        host: Some("localhost".to_string()),
        workers: None,
        auto_reload: None,
    };
    let site = ConfigFile {
        host: Some("0.0.0.0".to_string()),
        workers: Some(8),
        auto_reload: None,
    };
    user.merge(site);
    assert_eq!(user.host, Some("localhost".to_string()));
    assert_eq!(user.workers, Some(8));
    assert_eq!(user.auto_reload, None);
    let c = Config::from_file(Some(user));
    assert_eq!(c.host, "localhost".to_string());
    assert_eq!(c.workers, 8);
    assert_eq!(c.auto_reload, false);
}

#[test]
fn test_config_empty_input() {
    let c = Config::from_file(None);
    assert_eq!(c.host, "127.0.0.1".to_string());
    assert_eq!(c.workers, 4);
    assert_eq!(c.auto_reload, false);
}

#[test]
fn test_config_partial_host() {
    let file = ConfigFile {
        host: Some("localhost".to_string()),
        workers: None,
        auto_reload: None,
    };
    let c = Config::from_file(Some(file));
    assert_eq!(c.host, "localhost".to_string());
    assert_eq!(c.workers, 4);
    assert_eq!(c.auto_reload, false);
}

#[test]
fn test_round_trip_is_idempotent() {
    // Resolve once, serialize the resolved values into the shadow form,
    // resolve again: the structure does not change.
    let first = Config::from_file(None);
    let again = Config::from_file(Some(ConfigFile {
        host: Some(first.host.clone()),
        workers: Some(first.workers),
        auto_reload: Some(first.auto_reload),
    }));
    assert_eq!(again, first);
}
