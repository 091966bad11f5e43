use middleware_db::settings::{
    get_array, get_bool, get_int, get_string, get_usize, resolve, split_list, MissingSetting,
};

fn sample() -> config::Config {
    config::Config::builder()
        .set_override("odbc.connection", "Server=tcp:localhost,1433")
        .unwrap()
        .set_override("server.port", 9000)
        .unwrap()
        .set_override("server.verbose", true)
        .unwrap()
        .set_override("server.workers", 4)
        .unwrap()
        .set_override("cors.origins", "a.com,b.com,,c.com")
        .unwrap()
        .set_override("cors.empty", "")
        .unwrap()
        .set_override("hosts", vec!["alpha", "beta"])
        .unwrap()
        .build()
        .unwrap()
}

#[test]
fn configured_string_is_returned() {
    let s = sample();
    assert_eq!(get_string(&s, "odbc.connection", None).ok().unwrap(), "Server=tcp:localhost,1433");
    assert_eq!(get_string(&s, "odbc.connection", Some("x")).ok().unwrap(), "Server=tcp:localhost,1433");
}

#[test]
fn missing_string_takes_default_or_fails() {
    let s = sample();
    assert_eq!(get_string(&s, "ssl.key_path", Some("key.pem")).ok().unwrap(), "key.pem");
    let err = get_string(&s, "ssl.key_path", None).err().unwrap();
    assert_eq!(err.key, "ssl.key_path");
    assert_eq!(err.message(), "settings.ssl.key_path not found");
}

#[test]
fn integer_settings() {
    let s = sample();
    assert_eq!(get_int(&s, "server.port", Some(8443)).ok().unwrap(), 9000);
    assert_eq!(get_int(&s, "server.ssl_mode", Some(0)).ok().unwrap(), 0);
    assert!(get_int(&s, "server.ssl_mode", None).is_err());
    assert_eq!(get_usize(&s, "server.workers", None).ok().unwrap(), 4);
    assert_eq!(get_usize(&s, "server.queue", Some(16)).ok().unwrap(), 16);
}

#[test]
fn boolean_settings() {
    let s = sample();
    assert!(get_bool(&s, "server.verbose", Some(false)).ok().unwrap());
    assert!(!get_bool(&s, "server.quiet", Some(false)).ok().unwrap());
    assert!(get_bool(&s, "server.quiet", None).is_err());
}

#[test]
fn array_settings_split_at_commas() {
    let s = sample();
    assert_eq!(get_array(&s, "cors.origins"), vec!["a.com", "b.com", "", "c.com"]);
    assert!(get_array(&s, "cors.empty").is_empty());
    assert!(get_array(&s, "cors.none").is_empty());
}

#[test]
fn split_list_edges() {
    assert!(split_list("").is_empty());
    assert_eq!(split_list("one"), vec!["one"]);
    assert_eq!(split_list(","), vec!["", ""]);
    assert_eq!(split_list("a, b"), vec!["a", " b"]);
    assert_eq!(split_list("é,ü"), vec!["é", "ü"]);
}

#[test]
fn resolve_prefers_configured_value() {
    assert_eq!(resolve(Some(1), Some(2)), Some(1));
    assert_eq!(resolve(None, Some(2)), Some(2));
    assert_eq!(resolve::<i32>(None, None), None);
}

#[test]
fn missing_setting_message() {
    let m = MissingSetting { key: String::from("a.b") };
    assert_eq!(m.message(), "settings.a.b not found");
}

#[test]
fn subscripted_keys_are_read() {
    let s = sample();
    assert_eq!(get_string(&s, "hosts[0]", None).ok().unwrap(), "alpha");
    assert_eq!(get_string(&s, "hosts[1]", Some("x")).ok().unwrap(), "beta");
    assert_eq!(get_string(&s, "hosts[7]", Some("none")).ok().unwrap(), "none");
}

#[test]
fn unconvertible_value_takes_the_default() {
    let s = sample();
    assert_eq!(get_int(&s, "odbc.connection", Some(8443)).ok().unwrap(), 8443);
    assert!(get_int(&s, "odbc.connection", None).is_err());
}

#[test]
fn array_keeps_empty_and_untrimmed_pieces() {
    let c = config::Config::builder().set_override("list", "a,,b ").unwrap().build().unwrap();
    assert_eq!(get_array(&c, "list"), vec!["a", "", "b "]);
}
