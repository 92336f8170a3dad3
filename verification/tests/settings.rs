use event_service::failure::StartupError;
use event_service::settings::{
    dbname_key, find, host_key, listen_key, max_size_key, names_agree, password_key, port_key,
    separator, user_key, PoolSettings, Settings,
};

fn vars(pairs: &[(&str, &str)]) -> Vec<(String, String)> {
    pairs.iter().map(|(name, value)| (name.to_string(), value.to_string())).collect()
}

fn stored(pairs: &[(&str, &str)]) -> config::Config {
    let mut builder = config::Config::builder();
    for (key, value) in pairs {
        builder = builder.set_override(*key, *value).unwrap();
    }
    builder.build().unwrap()
}

fn text(value: &str) -> Option<String> {
    Some(value.to_string())
}

#[test]
fn separator_and_keys_are_fixed() {
    assert_eq!(separator(), "__");
    assert_eq!(listen_key(), "listen");
    assert_eq!(host_key(), "pg.host");
    assert_eq!(port_key(), "pg.port");
    assert_eq!(user_key(), "pg.user");
    assert_eq!(password_key(), "pg.password");
    assert_eq!(dbname_key(), "pg.dbname");
    assert_eq!(max_size_key(), "pg.pool.max_size");
}

#[test]
fn settings_are_read_from_the_variables() {
    let settings = Settings::from_env(vars(&[
        ("LISTEN", "127.0.0.1:8080"),
        ("PG__HOST", "db.internal"),
        ("PG__PORT", "5432"),
        ("PG__USER", "events"),
        ("PG__DBNAME", "eventdb"),
        ("PG__POOL__MAX_SIZE", "8"),
    ]))
    .unwrap();
    assert_eq!(settings.listen, "127.0.0.1:8080");
    assert_eq!(
        settings.pg,
        PoolSettings {
            host: text("db.internal"),
            port: text("5432"),
            user: text("events"),
            password: None,
            dbname: text("eventdb"),
            max_size: text("8"),
        }
    );
}

#[test]
fn single_underscore_names_no_pool_setting() {
    let settings = Settings::from_env(vars(&[
        ("LISTEN", "0.0.0.0:8080"),
        ("PG__DBNAME", "events"),
        ("PG_HOST", "x"),
    ]))
    .unwrap();
    assert_eq!(settings.listen, "0.0.0.0:8080");
    assert_eq!(settings.pg.dbname, text("events"));
    assert_eq!(settings.pg.host, None);
}

#[test]
fn address_is_not_taken_from_another_variable() {
    let settings = Settings::from_env(vars(&[
        ("PG__PASSWORD", "hunter"),
        ("LISTEN", "a:1"),
        ("PG__USER", "u"),
    ]))
    .unwrap();
    assert_eq!(settings.listen, "a:1");
    assert_eq!(settings.pg.password, text("hunter"));
    assert_eq!(settings.pg.user, text("u"));
}

#[test]
fn other_variables_are_not_read() {
    let settings = Settings::from_env(vars(&[
        ("HOME", "/home/events"),
        ("LISTEN", "0.0.0.0:80"),
        ("PG__HOST", "localhost"),
        ("PG__SSLMODE", "x"),
        ("LANG", "C"),
    ]))
    .unwrap();
    assert_eq!(settings.listen, "0.0.0.0:80");
    assert_eq!(settings.pg.host, text("localhost"));
    assert_eq!(settings.pg.port, None);
    assert_eq!(settings.pg.max_size, None);
}

#[test]
fn names_are_read_without_regard_to_case() {
    let settings = Settings::from_env(vars(&[("listen", "[::1]:8000"), ("pg__dbname", "e")])).unwrap();
    assert_eq!(settings.listen, "[::1]:8000");
    assert_eq!(settings.pg.dbname, text("e"));
}

#[test]
fn single_underscore_does_not_nest() {
    let res = Settings::from_env(vars(&[("LISTEN", "a:1"), ("PG_HOST", "db")]));
    assert_eq!(res, Err(StartupError::Settings));
}

#[test]
fn missing_listen_address_fails() {
    let res = Settings::from_env(vars(&[("PG__HOST", "db")]));
    assert_eq!(res, Err(StartupError::Settings));
}

#[test]
fn missing_pool_settings_fail() {
    let res = Settings::from_env(vars(&[("LISTEN", "127.0.0.1:8080")]));
    assert_eq!(res, Err(StartupError::Settings));
}

#[test]
fn empty_environment_fails() {
    assert_eq!(Settings::from_env(Vec::new()), Err(StartupError::Settings));
}

#[test]
fn values_are_kept_as_the_text_given() {
    let settings = Settings::from_env(vars(&[
        ("LISTEN", "  Host:80  "),
        ("PG__HOST", "true"),
        ("PG__USER", ""),
        ("PG__PORT", "0080"),
    ]))
    .unwrap();
    assert_eq!(settings.listen, "  Host:80  ");
    assert_eq!(settings.pg.host, text("true"));
    assert_eq!(settings.pg.user, text(""));
    assert_eq!(settings.pg.port, text("0080"));
    assert_eq!(settings.pg.port_number(), Ok(Some(80)));
}

#[test]
fn port_that_is_no_number_fails() {
    for port in ["abc", "", "+80", "-1", "80 ", "8o", "65536", "99999999999999999999999"] {
        let res = Settings::from_env(vars(&[("LISTEN", "a:1"), ("PG__PORT", port)]));
        assert_eq!(res, Err(StartupError::Settings));
    }
}

#[test]
fn pool_size_that_is_no_number_fails() {
    for size in ["many", "4294967296", "1.5", ""] {
        let res = Settings::from_env(vars(&[
            ("LISTEN", "a:1"),
            ("PG__HOST", "db"),
            ("PG__POOL__MAX_SIZE", size),
        ]));
        assert_eq!(res, Err(StartupError::Settings));
    }
}

#[test]
fn port_and_pool_size_are_read_as_numbers() {
    let settings = Settings::from_env(vars(&[
        ("LISTEN", "a:1"),
        ("PG__PORT", "65535"),
        ("PG__POOL__MAX_SIZE", "4294967295"),
    ]))
    .unwrap();
    assert_eq!(settings.pg.port_number(), Ok(Some(65535)));
    assert_eq!(settings.pg.max_size_number(), Ok(Some(4294967295)));
    let least = Settings::from_env(vars(&[("LISTEN", "a:1"), ("PG__PORT", "0")])).unwrap();
    assert_eq!(least.pg.port_number(), Ok(Some(0)));
    assert_eq!(least.pg.max_size_number(), Ok(None));
}

#[test]
fn numbers_are_checked_on_settings_put_together_by_hand() {
    let mut pg = PoolSettings {
        host: None,
        port: text("5432"),
        user: None,
        password: None,
        dbname: None,
        max_size: text("16"),
    };
    assert_eq!(pg.port_number(), Ok(Some(5432)));
    assert_eq!(pg.max_size_number(), Ok(Some(16)));
    pg.port = text("70000");
    pg.max_size = text("x");
    assert_eq!(pg.port_number(), Err(StartupError::Settings));
    assert_eq!(pg.max_size_number(), Err(StartupError::Settings));
    pg.port = None;
    assert_eq!(pg.port_number(), Ok(None));
}

#[test]
fn two_names_that_differ_only_in_case_are_refused() {
    let res = Settings::from_env(vars(&[("LISTEN", "a:1"), ("listen", "b:2"), ("PG__HOST", "db")]));
    assert_eq!(res, Err(StartupError::Settings));
    let twice = Settings::from_env(vars(&[("LISTEN", "a:1"), ("PG__HOST", "x"), ("PG__HOST", "x")]));
    assert_eq!(twice, Err(StartupError::Settings));
}

#[test]
fn names_that_are_not_read_do_no_harm() {
    let settings = Settings::from_env(vars(&[
        ("A[9223372036854775807]", "x"),
        ("PG", "flat"),
        ("PG.HOST", "dotted"),
        ("LISTEN", "a:1"),
        ("PG__HOST", "db"),
        ("B[-9223372036854775808]", "y"),
        ("X", "1"),
        ("x", "2"),
    ]))
    .unwrap();
    assert_eq!(settings.listen, "a:1");
    assert_eq!(settings.pg.host, text("db"));
}

#[test]
fn names_are_compared_without_regard_to_ascii_case() {
    assert!(names_agree("Pg__HoSt", "pg__host"));
    assert!(names_agree("", ""));
    assert!(!names_agree("pg__host", "pg__hos"));
    assert!(!names_agree("pg_host", "pg__host"));
    assert!(!names_agree("@", "`"));
    assert!(!names_agree("[", "{"));
    assert!(!names_agree("L\u{130}STEN", "listen"));
    assert!(!names_agree("\u{212a}", "k"));
}

#[test]
fn variable_is_found_by_its_name() {
    let given = vars(&[("A", "1"), ("b", "2"), ("B", "3")]);
    assert_eq!(find(&given, "a"), Ok(text("1")));
    assert_eq!(find(&given, "c"), Ok(None));
    assert_eq!(find(&given, "b"), Err(StartupError::Settings));
    assert_eq!(find(&Vec::new(), "a"), Ok(None));
}

#[test]
fn nested_address_is_no_address() {
    let res = Settings::from_env(vars(&[("LISTEN__HOST", "a"), ("PG__HOST", "db")]));
    assert_eq!(res, Err(StartupError::Settings));
}

#[test]
fn reading_the_same_variables_twice_gives_the_same_settings() {
    let given = vars(&[("LISTEN", "h:1"), ("PG__HOST", "db"), ("PG__PORT", "1"), ("X", "y")]);
    assert_eq!(Settings::from_env(given.clone()), Settings::from_env(given));
}

#[test]
fn settings_are_taken_from_under_their_keys() {
    let held = stored(&[
        ("listen", "h:1"),
        ("pg.host", "db"),
        ("pg.port", "5432"),
        ("pg.user", "u"),
        ("pg.password", "p"),
        ("pg.dbname", "d"),
        ("pg.pool.max_size", "3"),
        ("pg.pool.other", "9"),
        ("elsewhere", "z"),
    ]);
    let settings = Settings::from_settings(&held).unwrap();
    assert_eq!(settings.listen, "h:1");
    assert_eq!(
        settings.pg,
        PoolSettings {
            host: text("db"),
            port: text("5432"),
            user: text("u"),
            password: text("p"),
            dbname: text("d"),
            max_size: text("3"),
        }
    );
}

#[test]
fn address_and_a_pool_setting_are_needed() {
    assert_eq!(Settings::from_settings(&stored(&[])), Err(StartupError::Settings));
    assert_eq!(
        Settings::from_settings(&stored(&[("listen", "h:1")])),
        Err(StartupError::Settings)
    );
    assert_eq!(
        Settings::from_settings(&stored(&[("pg.host", "db")])),
        Err(StartupError::Settings)
    );
    assert_eq!(
        Settings::from_settings(&stored(&[("listen", "h:1"), ("pg.other", "x")])),
        Err(StartupError::Settings)
    );
    assert_eq!(
        Settings::from_settings(&stored(&[("listen", "h:1"), ("pg.port", "http")])),
        Err(StartupError::Settings)
    );
    assert_eq!(
        Settings::from_settings(&stored(&[("listen", "h:1"), ("pg.pool.max_size", "-3")])),
        Err(StartupError::Settings)
    );
    let least = Settings::from_settings(&stored(&[("listen", "h:1"), ("pg.dbname", "d")])).unwrap();
    assert_eq!(least.pg.dbname, text("d"));
    assert!(least.pg.any());
}

#[test]
fn pool_settings_without_any_value_say_so() {
    let none = PoolSettings {
        host: None,
        port: None,
        user: None,
        password: None,
        dbname: None,
        max_size: None,
    };
    assert!(!none.any());
    let mut one = none.clone();
    one.max_size = text("1");
    assert!(one.any());
}
