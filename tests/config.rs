use pihole_api::config::{
    default_address, default_log_level, default_port, Config, ConfigError, Files, General,
    LogLevel, PiholeFile,
};

#[test]
fn valid_config() {
    let config = Config::default();
    assert!(config.is_valid());
}

#[test]
fn valid_files() {
    let files = Files::default();
    assert!(files.is_valid());
}

#[test]
fn valid_general() {
    let general = General::default();
    assert!(general.is_valid());
}

#[test]
fn invalid_file() {
    let files = Files {
        setup_vars: "!asd?f".to_owned(),
        ..Files::default()
    };
    assert!(!files.is_valid());
}

#[test]
fn invalid_general_address() {
    let general = General {
        address: "hello_world".to_owned(),
        ..General::default()
    };
    assert!(!general.is_valid());
}

#[test]
fn invalid_general_port() {
    let general = General {
        port: 65536,
        ..General::default()
    };
    assert!(!general.is_valid());
}

#[test]
fn invalid_general_log_level() {
    let general = General {
        log_level: "hello_world".to_owned(),
        ..General::default()
    };
    assert!(!general.is_valid());
}

fn general_with_address(address: &str) -> General {
    General {
        address: address.to_owned(),
        ..General::default()
    }
}

#[test]
fn addresses_accepted() {
    for address in ["0.0.0.0", "127.0.0.1", "255.255.255.255", "10.0.100.9"] {
        assert!(general_with_address(address).is_valid(), "{}", address);
    }
}

#[test]
fn addresses_rejected() {
    for address in [
        "", "1.2.3", "1.2.3.4.5", "256.0.0.1", "01.2.3.4", "1..2.3", "1.2.3.4 ", "1.2.3.a",
        "1000.1.1.1", "-1.2.3.4",
    ] {
        assert!(!general_with_address(address).is_valid(), "{}", address);
    }
}

#[test]
fn port_edges() {
    let general = General {
        port: 65535,
        ..General::default()
    };
    assert!(general.is_valid());
    let general = General {
        port: 0,
        ..General::default()
    };
    assert!(general.is_valid());
}

#[test]
fn log_levels() {
    let mut config = Config::default();
    assert_eq!(config.log_level(), LogLevel::Critical);
    config.general.log_level = "normal".to_owned();
    assert_eq!(config.log_level(), LogLevel::Normal);
    assert!(config.is_valid());
    config.general.log_level = "debug".to_owned();
    assert_eq!(config.log_level(), LogLevel::Debug);
    assert!(config.is_valid());
    config.general.log_level = "verbose".to_owned();
    assert_eq!(config.log_level(), LogLevel::Critical);
    assert!(!config.is_valid());
}

#[test]
fn defaults() {
    assert_eq!(default_address(), "0.0.0.0");
    assert_eq!(default_port(), 80);
    assert_eq!(default_log_level(), "critical");
    let config = Config::default();
    assert_eq!(config.address(), "0.0.0.0");
    assert_eq!(config.port(), 80);
}

#[test]
fn file_locations() {
    let mut config = Config::default();
    assert_eq!(config.file_location(PiholeFile::Whitelist), "/etc/pihole/whitelist.txt");
    assert_eq!(config.file_location(PiholeFile::Regexlist), "/etc/pihole/regex.list");
    assert_eq!(
        config.file_location(PiholeFile::DnsmasqConfig),
        "/etc/dnsmasq.d/01-pihole.conf"
    );
    config.file_locations.local_versions = "/tmp/versions".to_owned();
    assert_eq!(config.file_location(PiholeFile::LocalVersions), "/tmp/versions");
    assert_eq!(
        config.file_location(PiholeFile::LocalBranches),
        PiholeFile::LocalBranches.default_location()
    );
}

#[test]
fn relative_location_is_invalid() {
    let mut config = Config::default();
    config.file_locations.ftl_config = "etc/pihole/pihole-FTL.conf".to_owned();
    assert!(!config.is_valid());
    config.file_locations.ftl_config = String::new();
    assert!(!config.is_valid());
}

#[test]
fn validate_results() {
    assert!(Config::default().validate().is_ok());
    let mut config = Config::default();
    config.general.port = 70000;
    assert_eq!(config.validate().err(), Some(ConfigError::ConfigParsing));
}
