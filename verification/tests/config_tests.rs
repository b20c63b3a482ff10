use disconic::Client;
use disconic::Config;
use disconic::LogLevel;

#[test]
fn client_keeps_its_settings() {
    let c = Client::new(
        "https://music.example".to_string(),
        "listener".to_string(),
        "pw".to_string(),
        "tok".to_string(),
    );
    assert_eq!(c.ss_url, "https://music.example");
    assert_eq!(c.ss_user, "listener");
}

#[test]
fn config_keeps_its_settings() {
    let c = Config::new(
        "https://music.example".to_string(),
        "listener".to_string(),
        "pw".to_string(),
        "tok".to_string(),
        LogLevel::Info,
    );
    assert_eq!(c.subsonic_url, "https://music.example");
    assert_eq!(c.subsonic_user, "listener");
    assert_eq!(c.log_level, LogLevel::Info);
}

#[test]
fn log_level_defaults_to_warn() {
    assert_eq!(LogLevel::default(), LogLevel::Warn);
}

#[test]
fn log_level_names_match_their_settings_spelling() {
    assert_eq!(LogLevel::Off.name(), "off");
    assert_eq!(LogLevel::Error.name(), "error");
    assert_eq!(LogLevel::Warn.name(), "warn");
    assert_eq!(LogLevel::Info.name(), "info");
    assert_eq!(LogLevel::Debug.name(), "debug");
    assert_eq!(LogLevel::Trace.name(), "trace");
}
