use lily_cms::cms::{logo, startup_message, Cms, CmsBuilder};
use lily_cms::env::{
    get_lily_host, get_lily_name, get_lily_port, get_lily_product_id, get_lily_version, FromEnv,
};

#[test]
fn settings_fall_back_to_environment_then_defaults() {
    let cms = Cms::new().build().settings(None, None);
    assert_eq!(cms.get_address(), "http://0.0.0.0:5173");
    let cms = CmsBuilder::new().settings(Some("127.0.0.1".to_string()), Some("8080".to_string()));
    assert_eq!(cms.get_address(), "http://127.0.0.1:8080");
    assert_eq!(cms.bind_address(), "127.0.0.1:8080");
    let cms = CmsBuilder::new().settings(None, Some("not a port".to_string()));
    assert_eq!(cms.bind_address(), "0.0.0.0:5173");
}

#[test]
fn builder_values_win_over_environment() {
    let cms = Cms::new()
        .host("example.org".to_string())
        .port(3000)
        .build()
        .settings(Some("127.0.0.1".to_string()), Some("8080".to_string()));
    assert_eq!(cms.get_address(), "http://example.org:3000");
    let cms = Cms::new().port(-1).settings(None, None);
    assert_eq!(cms.bind_address(), "0.0.0.0:-1");
}

#[test]
fn environment_settings() {
    assert_eq!(get_lily_host(None), "0.0.0.0");
    assert_eq!(get_lily_host(Some("h".to_string())), "h");
    assert_eq!(get_lily_port(None), 5173);
    assert_eq!(get_lily_port(Some("42".to_string())), 42);
    assert_eq!(get_lily_port(Some("4x2".to_string())), 5173);
    assert_eq!(get_lily_port(Some("+8080".to_string())), 8080);
    assert_eq!(get_lily_port(Some("-".to_string())), 5173);
    assert_eq!(get_lily_port(Some("".to_string())), 5173);
    assert_eq!(get_lily_port(Some("2147483647".to_string())), 2147483647);
    assert_eq!(get_lily_port(Some("2147483648".to_string())), 5173);
    assert_eq!(get_lily_port(Some("-2147483648".to_string())), -2147483648);
    assert_eq!(get_lily_name(None), "app");
    assert_eq!(get_lily_version(None), "v0.0.0");
    assert_eq!(get_lily_version(Some("1.2.3".to_string())), "v1.2.3");
    assert_eq!(get_lily_product_id(None, None), "app v0.0.0");
    assert_eq!(get_lily_product_id(Some("lily".to_string()), Some("0.1.0".to_string())), "lily v0.1.0");
    assert_eq!(String::from_env(None, "f".to_string()), "f");
    assert_eq!(i32::from_env(Some("-7".to_string()), 1), -7);
}

#[test]
fn startup_message_lines() {
    let cms = Cms::new().host("localhost".to_string()).port(80).settings(None, None);
    let msg = startup_message(&cms, "app v0.0.0");
    let expected = format!("{}\napp v0.0.0\nhttp://localhost:80", logo());
    assert_eq!(msg, expected);
    assert!(logo().contains("88  88  88"));
}
