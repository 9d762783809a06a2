use classroom_core::config::build_config;

#[test]
fn essentials_are_required() {
    assert!(build_config(None, None, None, None, None).is_none());
    assert!(
        build_config(None, None, Some("postgres://db/app".to_string()), None, None).is_none()
    );
    assert!(build_config(None, None, None, Some("local-signing-key".to_string()), None).is_none());
}

#[test]
fn absent_values_fall_back_to_defaults() {
    let c = build_config(
        None,
        None,
        Some("postgres://db/app".to_string()),
        Some("local-signing-key".to_string()),
        None,
    )
    .unwrap();
    assert_eq!(c.service_name, "local");
    assert_eq!(c.http_port, 8080);
    assert_eq!(c.rust_log, "info");
    assert_eq!(c.database_url, "postgres://db/app");
}

#[test]
fn given_values_are_kept() {
    let c = build_config(
        Some("teacher".to_string()),
        Some(9_090),
        Some("postgres://db/app".to_string()),
        Some("local-signing-key".to_string()),
        Some("debug".to_string()),
    )
    .unwrap();
    assert_eq!(c.service_name, "teacher");
    assert_eq!(c.http_port, 9_090);
    assert_eq!(c.rust_log, "debug");
}
