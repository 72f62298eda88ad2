use i2a::config::{
    is_absolute_url, loopback_url_text, proxy_or_error, BridgeConfig, ConfigError,
};
use i2a::text::port_text;

#[test]
fn standard_configuration() {
    let config = BridgeConfig::standard();
    assert_eq!(config.target_base_url, "http://i2p-projekt.i2p");
    assert_eq!(config.local_port, 8790);
    assert_eq!(config.upstream_proxy_port, 4444);
    assert!(config.is_well_formed());
}

#[test]
fn proxy_and_local_urls() {
    let config = BridgeConfig::standard();
    assert_eq!(config.proxy_url(), "http://127.0.0.1:4444");
    assert_eq!(config.local_url(), "http://127.0.0.1:8790");
    assert_eq!(loopback_url_text(0), "http://127.0.0.1:0");
    assert_eq!(loopback_url_text(65535), "http://127.0.0.1:65535");
}

#[test]
fn ports_are_written_in_decimal() {
    assert_eq!(port_text(0), "0");
    assert_eq!(port_text(7), "7");
    assert_eq!(port_text(9), "9");
    assert_eq!(port_text(10), "10");
    assert_eq!(port_text(99), "99");
    assert_eq!(port_text(100), "100");
    assert_eq!(port_text(1005), "1005");
    assert_eq!(port_text(4444), "4444");
    assert_eq!(port_text(8790), "8790");
    assert_eq!(port_text(65535), "65535");
}

#[test]
fn every_port_is_written_as_std_writes_it() {
    for port in 0..=u16::MAX {
        assert_eq!(port_text(port), port.to_string());
    }
}

#[test]
fn well_formed_configurations() {
    let with = |local_port: u16, upstream_proxy_port: u16| BridgeConfig {
        target_base_url: "http://example.i2p".to_string(),
        local_port,
        upstream_proxy_port,
    };
    assert!(with(8790, 4444).is_well_formed());
    assert!(with(1, 65535).is_well_formed());
    assert!(!with(0, 4444).is_well_formed());
    assert!(!with(8790, 0).is_well_formed());
    assert!(!with(4444, 4444).is_well_formed());
    assert!(!with(0, 0).is_well_formed());
}

#[test]
fn upstream_proxy_is_built_for_any_port() {
    for port in [1u16, 80, 4444, 8790, 65535] {
        let config = BridgeConfig {
            target_base_url: "http://example.i2p".to_string(),
            local_port: 8790,
            upstream_proxy_port: port,
        };
        assert!(config.upstream_proxy().is_ok());
    }
}

#[test]
fn accepted_proxy_is_kept() {
    let answer = reqwest::Proxy::http("http://127.0.0.1:4444");
    assert!(answer.is_ok());
    assert!(proxy_or_error(answer, "http://127.0.0.1:4444".to_string()).is_ok());
}

#[test]
fn refused_proxy_url_is_a_configuration_error() {
    let answer = reqwest::Proxy::http("http://");
    assert!(answer.is_err());
    match proxy_or_error(answer, "http://".to_string()) {
        Err(ConfigError::MalformedProxyUrl { url }) => assert_eq!(url, "http://"),
        Ok(_) => panic!("a refused URL gave a proxy"),
    }
}

#[test]
fn absolute_urls_have_a_scheme_and_a_host() {
    assert!(is_absolute_url("http://example.i2p"));
    assert!(is_absolute_url("http://i2p-projekt.i2p"));
    assert!(is_absolute_url("https://example.i2p:8080/base?x=1"));
    assert!(is_absolute_url("a://b"));
    assert!(is_absolute_url("http://\u{e9}.i2p"));
    assert!(!is_absolute_url(""));
    assert!(!is_absolute_url("example.i2p"));
    assert!(!is_absolute_url("/status"));
    assert!(!is_absolute_url("://example.i2p"));
    assert!(!is_absolute_url("http:/example.i2p"));
    assert!(!is_absolute_url("http:example.i2p"));
    assert!(!is_absolute_url("http://"));
    assert!(!is_absolute_url("http:///path"));
    assert!(!is_absolute_url("http://?x=1"));
    assert!(!is_absolute_url("http://#top"));
    assert!(!is_absolute_url("x:y://z"));
    assert!(!is_absolute_url("http:"));
}

#[test]
fn destination_without_scheme_is_not_well_formed() {
    let config = BridgeConfig {
        target_base_url: "example.i2p".to_string(),
        local_port: 8790,
        upstream_proxy_port: 4444,
    };
    assert!(!config.is_well_formed());
}
