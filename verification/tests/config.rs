use task_api::config::{Config, ConfigError, Environment, JWTConfig};

fn environment() -> Environment {
    Environment {
        database_url: Some("postgres://localhost/tasks".to_string()),
        app_host: None,
        app_port: None,
        secret: None,
        expiration: None,
    }
}

fn text(value: &str) -> Option<String> {
    Some(value.to_string())
}

#[test]
fn defaults_apply_where_nothing_is_set() {
    let config = Config::default(environment()).unwrap();
    assert_eq!(config.database.url, "postgres://localhost/tasks");
    assert_eq!(config.database.max_connections, 5);
    assert_eq!(config.database.min_connections, 1);
    assert_eq!(config.database.connection_timeout, 200);
    assert_eq!(config.database.idle_timeout, 300);
    assert_eq!(config.server.host, "0.0.0.0");
    assert_eq!(config.server.port, "8000");
    assert_eq!(config.jwt_config.secret, "very_long_but_unsafe_secret_in_the_air");
    assert_eq!(config.jwt_config.expiration, 3600);
}

#[test]
fn settings_replace_the_defaults() {
    let config = Config::default(Environment {
        database_url: text("postgres://db/prod"),
        app_host: text("127.0.0.1"),
        app_port: text("9000"),
        secret: text("a better secret"),
        expiration: text("7200"),
    })
    .unwrap();
    assert_eq!(config.database.url, "postgres://db/prod");
    assert_eq!(config.server.host, "127.0.0.1");
    assert_eq!(config.server.port, "9000");
    assert_eq!(config.jwt_config.secret, "a better secret");
    assert_eq!(config.jwt_config.expiration, 7200);
}

#[test]
fn missing_database_url_is_an_error() {
    let mut env = environment();
    env.database_url = None;
    match Config::default(env) {
        Err(ConfigError::MissingEnv(name)) => assert_eq!(name, "DATABASE_URL"),
        Ok(_) => panic!("a configuration without a database"),
    }
}

#[test]
fn expiration_that_is_no_number_falls_back_to_an_hour() {
    for value in [
        "",
        "abc",
        "1h",
        "3600s",
        " 60",
        "60 ",
        "1.5",
        "9223372036854775808",
        "-9223372036854775809",
        "--1",
        "+-1",
        "+",
        "-",
        "1_000",
        "١٢٣",
        "0x10",
    ] {
        let mut env = environment();
        env.expiration = text(value);
        assert_eq!(Config::default(env).unwrap().jwt_config.expiration, 3600, "{:?}", value);
    }
}

#[test]
fn expiration_is_read_as_a_signed_number() {
    for (value, seconds) in [
        ("60", 60),
        ("120", 120),
        ("0", 0),
        ("-0", 0),
        ("+0", 0),
        ("000000000000000000000000042", 42),
        ("-5", -5),
        ("+15", 15),
        ("007", 7),
        ("9223372036854775807", i64::MAX),
        ("-9223372036854775808", i64::MIN),
    ] {
        let mut env = environment();
        env.expiration = text(value);
        assert_eq!(Config::default(env).unwrap().jwt_config.expiration, seconds, "{:?}", value);
    }
}

#[test]
fn default_secret_is_recognised() {
    let config = Config::default(environment()).unwrap();
    assert!(config.jwt_config.uses_default_secret());
    let own = JWTConfig { secret: "mine".to_string(), expiration: 1 };
    assert!(!own.uses_default_secret());
    let empty = JWTConfig { secret: String::new(), expiration: 1 };
    assert!(!empty.uses_default_secret());
}
