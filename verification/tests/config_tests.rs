use config::{Config, File, FileFormat};
use hr_admin::common::settings::{bool_or, is_plain, read_bool, read_string, string_or};
use hr_admin::common::logger::{LogConfig, LogLevel, LogSink};
use hr_admin::infrastructure::persistence::database::{dsn, PoolSettings};
use hr_admin::infrastructure::security::identity::{get_secret, AuthError, Codec};

fn yaml(text: &str) -> Config {
    Config::builder().add_source(File::from_str(text, FileFormat::Yaml)).build().unwrap()
}

#[test]
fn test_log_config() {
    let cfg = yaml(
        r#"
            app:
              debug: true
              env: "dev"
            log:
              path: "test_logs"
              filename: "test.log"
              json: true
            "#,
    );

    let log_config = LogConfig::from_config(&cfg);
    assert_eq!(log_config.level, LogLevel::Debug);
    assert_eq!(log_config.path, "test_logs");
    assert_eq!(log_config.filename, "test.log");
    assert!(log_config.is_dev);
    assert!(log_config.use_json);
}

#[test]
fn the_log_falls_back_where_the_configuration_is_silent() {
    let log_config = LogConfig::from_config(&Config::default());
    assert_eq!(log_config.level, LogLevel::Info);
    assert_eq!(log_config.path, "logs");
    assert_eq!(log_config.filename, "tracing.log");
    assert!(log_config.is_dev);
    assert!(log_config.use_json);
    assert_eq!(log_config.sink(), LogSink::Stdout);

    let production = LogConfig::from_config(&yaml(
        "app:\n  env: prod\n  debug: false\nlog:\n  json: false\n  path: /var/log/hr\n",
    ));
    assert_eq!(production.level, LogLevel::Info);
    assert_eq!(production.path, "/var/log/hr");
    assert_eq!(production.filename, "tracing.log");
    assert!(!production.is_dev);
    assert!(!production.use_json);
    assert_eq!(production.sink(), LogSink::DailyFile);

    let default = LogConfig::default();
    assert_eq!(default.level, LogLevel::Debug);
    assert_eq!(default.path, "logs");
    assert_eq!(default.filename, "tracing.log");
    assert!(default.is_dev);
    assert!(default.use_json);
}

#[test]
fn settings_are_read_as_text_and_as_switches() {
    let cfg = yaml("a:\n  text: hello\n  number: 12\n  on: true\n  word: \"yes\"\n  table:\n    x: 1\n");
    assert_eq!(string_or(&cfg, "a.text", "fallback"), "hello");
    assert_eq!(string_or(&cfg, "a.number", "fallback"), "12");
    assert_eq!(string_or(&cfg, "a.on", "fallback"), "true");
    assert_eq!(string_or(&cfg, "a.missing", "fallback"), "fallback");
    assert_eq!(string_or(&cfg, "a.table", "fallback"), "fallback");
    assert!(bool_or(&cfg, "a.on", false));
    assert!(bool_or(&cfg, "a.word", false));
    assert!(bool_or(&cfg, "a.number", false));
    assert!(bool_or(&cfg, "a.missing", true));
    assert!(!bool_or(&cfg, "a.missing", false));
    assert!(!bool_or(&cfg, "a.text", false));
}

#[test]
fn the_codec_signs_with_the_configured_secret() {
    let cfg = yaml("app:\n  secret: \"test_secret\"\n  name: \"test_app\"\n  env: \"test\"\n");
    assert_eq!(get_secret(&cfg).unwrap(), "test_secret");
    let codec = Codec::from_config(&cfg).unwrap();
    let token = codec.issue_at(42, 1_700_000_000, "n").unwrap();
    let same = Codec::new("test_secret", "your_app_name").issue_at(42, 1_700_000_000, "n").unwrap();
    assert_eq!(token, same);
    assert_eq!(codec.verify_at(&token, 1_700_000_000).unwrap().iss, "your_app_name");

    match get_secret(&Config::default()) {
        Err(AuthError::ConfigError(m)) => assert_eq!(m, "Failed to get JWT secret from config"),
        other => panic!("{:?}", other),
    }
    assert!(matches!(Codec::from_config(&Config::default()), Err(AuthError::ConfigError(_))));
}

#[test]
fn the_pool_is_laid_out_with_its_defaults() {
    let quiet = Config::default();
    let settings = PoolSettings::resolve(&quiet, None, None, None, None, None);
    assert_eq!(
        settings,
        PoolSettings {
            min_connections: 10,
            max_connections: 20,
            connect_timeout: 10,
            idle_timeout: 300,
            max_lifetime: 600,
            sqlx_logging: false,
        }
    );
    let debug = yaml("app:\n  debug: true\ndb:\n  dsn: \"mysql://u:p@localhost/hr\"\n");
    let settings = PoolSettings::resolve(&debug, Some(1), Some(2), Some(3), Some(4), Some(5));
    assert_eq!(
        settings,
        PoolSettings {
            min_connections: 1,
            max_connections: 2,
            connect_timeout: 3,
            idle_timeout: 4,
            max_lifetime: 5,
            sqlx_logging: true,
        }
    );
    assert_eq!(dsn(&debug).unwrap(), "mysql://u:p@localhost/hr");
    assert!(dsn(&quiet).is_none());
}

#[test]
fn the_issuer_is_read_from_the_configuration() {
    let named = yaml("app:\n  secret: \"s\"\n  issuer: \"hr.example\"\n");
    let codec = Codec::from_config(&named).unwrap();
    let token = codec.issue_at(7, 100, "n").unwrap();
    assert_eq!(codec.verify_at(&token, 100).unwrap().iss, "hr.example");
    assert_eq!(token, Codec::new("s", "hr.example").issue_at(7, 100, "n").unwrap());

    let silent = yaml("app:\n  secret: \"s\"\n");
    let codec = Codec::from_config(&silent).unwrap();
    let token = codec.issue_at(7, 100, "n").unwrap();
    assert_eq!(codec.verify_at(&token, 100).unwrap().iss, "your_app_name");
}

#[test]
fn a_key_with_a_subscript_names_no_setting() {
    let cfg = yaml("a:\n  list:\n    - one\n    - two\n  flags:\n    - true\n  text: hello\n");
    assert!(is_plain("a.text"));
    assert!(is_plain(""));
    assert!(is_plain("a.list.0"));
    assert!(!is_plain("a.list[0]"));
    assert!(!is_plain("a.list[-3]"));
    assert!(!is_plain("["));
    assert_eq!(read_string(&cfg, "a.text").unwrap(), "hello");
    assert!(read_string(&cfg, "a.list[0]").is_none());
    assert!(read_string(&cfg, "a.list[-1]").is_none());
    assert!(read_string(&cfg, "a.list[-3]").is_none());
    assert!(read_string(&cfg, "a.list[-9223372036854775808]").is_none());
    assert!(read_bool(&cfg, "a.flags[-2]").is_none());
    assert!(read_bool(&cfg, "a.flags[0]").is_none());
    assert_eq!(read_bool(&cfg, "a.text"), None);
    assert_eq!(string_or(&cfg, "a.list[-3]", "fallback"), "fallback");
    assert!(bool_or(&cfg, "a.flags[-2]", true));
    assert!(!bool_or(&cfg, "a.flags[-2]", false));
    assert!(read_string(&cfg, "a.list").is_none());
}
