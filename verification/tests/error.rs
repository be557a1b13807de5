use ddns_notify::error::{diagnostic, Error, Stage};

#[test]
fn detail_of_each_error() {
    assert_eq!(Error::ConfigError(String::from("no such file")).detail(), "no such file");
    assert_eq!(Error::NetworkError(String::from("timed out")).detail(), "timed out");
    assert_eq!(Error::EmptyResponseError.detail(), "empty response body");
    assert_eq!(Error::LogIOError(String::from("read-only")).detail(), "read-only");
}

#[test]
fn diagnostic_of_a_configuration_failure() {
    assert_eq!(
        diagnostic(Stage::LoadConfig, &Error::ConfigError(String::from("no such file"))),
        "[ ERROR ] Could not get configuration. no such file"
    );
}

#[test]
fn diagnostic_of_a_discovery_failure() {
    assert_eq!(
        diagnostic(Stage::DiscoverIp, &Error::NetworkError(String::from("timed out"))),
        "[ ERROR ] Could not discover ip. timed out"
    );
    assert_eq!(
        diagnostic(Stage::DiscoverIp, &Error::EmptyResponseError),
        "[ ERROR ] Could not discover ip. empty response body"
    );
}

#[test]
fn diagnostic_of_a_log_failure() {
    assert_eq!(
        diagnostic(Stage::ReadLog, &Error::LogIOError(String::from("denied"))),
        "[ ERROR ] Could not read previous ip from log. denied"
    );
    assert_eq!(
        diagnostic(Stage::AppendLog, &Error::LogIOError(String::from("disk full"))),
        "[ ERROR ] Could not write new ip to log. disk full"
    );
}

#[test]
fn diagnostic_of_a_notification_failure() {
    assert_eq!(
        diagnostic(Stage::Notify, &Error::NetworkError(String::from("refused"))),
        "[ ERROR ] Could not tell the google service. refused"
    );
}

#[test]
fn error_clone_is_equal() {
    let errors = [
        Error::ConfigError(String::from("a")),
        Error::NetworkError(String::from("b")),
        Error::EmptyResponseError,
        Error::LogIOError(String::from("c")),
    ];
    for error in errors {
        assert_eq!(error.clone(), error);
    }
}
