use dns_bridge::config::{Config, EngineOptions};

#[test]
fn default_configuration_has_the_documented_values() {
    let cfg = Config::new();
    assert_eq!(cfg.query_timeout_ms, 500);
    assert_eq!(cfg.max_query_retry, 3);
    assert_eq!(cfg.process_timeout_ms, 500);
    assert_eq!(cfg.max_sockets, 256);
    assert!(cfg.is_valid());
}

#[test]
fn default_trait_agrees_with_new() {
    assert_eq!(Config::default(), Config::new());
}

#[test]
fn zero_query_timeout_is_invalid() {
    let cfg = Config { query_timeout_ms: 0, ..Config::new() };
    assert!(!cfg.is_valid());
}

#[test]
fn zero_retry_budget_is_invalid() {
    let cfg = Config { max_query_retry: 0, ..Config::new() };
    assert!(!cfg.is_valid());
}

#[test]
fn zero_process_timeout_is_invalid() {
    let cfg = Config { process_timeout_ms: 0, ..Config::new() };
    assert!(!cfg.is_valid());
}

#[test]
fn zero_socket_bound_is_invalid() {
    let cfg = Config { max_sockets: 0, ..Config::new() };
    assert!(!cfg.is_valid());
}

#[test]
fn smallest_positive_configuration_is_valid() {
    let cfg = Config { query_timeout_ms: 1, max_query_retry: 1, process_timeout_ms: 1, max_sockets: 1 };
    assert!(cfg.is_valid());
}

#[test]
fn engine_options_follow_the_configuration() {
    let cfg = Config { query_timeout_ms: 750, max_query_retry: 5, process_timeout_ms: 20, max_sockets: 8 };
    assert_eq!(
        cfg.engine_options(),
        EngineOptions { stay_open: true, edns: true, timeout_ms: 750, tries: 5 }
    );
}

#[test]
fn default_engine_options() {
    assert_eq!(
        Config::new().engine_options(),
        EngineOptions { stay_open: true, edns: true, timeout_ms: 500, tries: 3 }
    );
}
