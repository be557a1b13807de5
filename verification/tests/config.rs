use ddns_notify::config::{config_path, Config, CONFIG_VARIABLE, DEFAULT_CONFIG_PATH};
use ddns_notify::provider::{GoogleConfig, Service};

#[test]
fn configuration_is_looked_for_under_the_default_name() {
    assert_eq!(CONFIG_VARIABLE, "CONFIG");
    assert_eq!(DEFAULT_CONFIG_PATH, ".env.toml");
    assert_eq!(config_path(None), ".env.toml");
}

#[test]
fn environment_overrides_the_default_path() {
    assert_eq!(config_path(Some(String::from("/etc/ddns.toml"))), "/etc/ddns.toml");
    assert_eq!(config_path(Some(String::new())), "");
}

#[test]
fn configuration_keeps_the_order_of_its_targets() {
    let first = GoogleConfig {
        username: String::from("a"),
        password: String::from("b"),
        hostname: String::from("@"),
    };
    let second = GoogleConfig {
        username: String::from("c"),
        password: String::from("d"),
        hostname: String::from("www"),
    };
    let config = Config {
        targets: vec![
            Service::GoogleDomainsDNS(first.clone()),
            Service::GoogleDomainsDNS(second.clone()),
        ],
    };
    assert_eq!(config.targets[0], Service::GoogleDomainsDNS(first));
    assert_eq!(config.targets[1], Service::GoogleDomainsDNS(second));
}
