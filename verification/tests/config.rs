use monitoring_agent::config::{
    AuthenticationConfig, Config, ConfigError, WebConfig, WebhooksConfig, WebhooksHookConfig,
    WebhooksHookConfigIntervalMetrics,
};

fn assert_documented_defaults(c: &Config) {
    assert_eq!(c.cache_for, 1);
    assert_eq!(c.timeout, 4);
    let w = c.web.as_ref().expect("web block present by default");
    assert_eq!(w.host, "127.0.0.1");
    assert_eq!(w.port, 9090);
    assert!(!w.using_proxy);
    assert!(w.certificate.is_none());
    assert!(!w.authentication.check_ip);
    assert!(!w.authentication.check_key);
    assert!(w.authentication.allowed_ip.is_empty());
    assert!(w.authentication.allowed_keys.is_empty());
    let h = c.webhooks.as_ref().expect("webhooks block present by default");
    assert!(h.on_start.is_empty());
    assert!(h.interval_pings.is_empty());
    assert!(h.interval_metrics.is_empty());
    assert_eq!(c.id.len(), 36);
}

#[test]
fn missing_file_falls_back_to_documented_defaults() {
    let c = Config::load_or_default(Err(ConfigError::ReadError));
    assert_documented_defaults(&c);
}

#[test]
fn malformed_file_falls_back_to_documented_defaults() {
    let c = Config::load_or_default(Err(ConfigError::ParseError));
    assert_documented_defaults(&c);
}

#[test]
fn successful_load_passes_the_config_through() {
    let loaded = Config {
        id: "agent-7".to_string(),
        cache_for: 30,
        timeout: 9,
        web: None,
        webhooks: Some(WebhooksConfig {
            on_start: vec![WebhooksHookConfig {
                url: "https://example.test/start".to_string(),
                secret: None,
            }],
            interval_pings: Vec::new(),
            interval_metrics: Vec::new(),
        }),
    };
    let c = Config::load_or_default(Ok(loaded));
    assert_eq!(c.id, "agent-7");
    assert_eq!(c.cache_for, 30);
    assert_eq!(c.timeout, 9);
    assert!(c.web.is_none());
    let h = c.webhooks.expect("webhooks kept");
    assert_eq!(h.on_start.len(), 1);
    assert_eq!(h.on_start[0].url, "https://example.test/start");
}

#[test]
fn default_blocks_stand_alone_too() {
    let a = AuthenticationConfig::default();
    assert!(!a.check_ip && !a.check_key);
    assert!(a.allowed_ip.is_empty() && a.allowed_keys.is_empty());
    let w = WebConfig::default();
    assert_eq!(w.host, "127.0.0.1");
    assert_eq!(w.port, 9090);
    let h = WebhooksConfig::default();
    assert!(h.on_start.is_empty() && h.interval_pings.is_empty() && h.interval_metrics.is_empty());
}

#[test]
fn into_base_drops_only_the_schedule() {
    let e = WebhooksHookConfigIntervalMetrics {
        url: "https://example.test/hook".to_string(),
        secret: Some("s3".to_string()),
        interval: 15,
    };
    let b: WebhooksHookConfig = e.into_base();
    assert_eq!(b.url, "https://example.test/hook");
    assert_eq!(b.secret.as_deref(), Some("s3"));
    let plain = WebhooksHookConfigIntervalMetrics {
        url: "https://example.test/other".to_string(),
        secret: None,
        interval: 1,
    };
    assert!(plain.into_base().secret.is_none());
}
