use monitoring_agent::config::{
    WebhooksConfig, WebhooksHookConfig, WebhooksHookConfigIntervalMetrics,
};
use monitoring_agent::metrics::{
    CapturedMetrics, CpuLoadMetric, CpuMetrics, MemoryDetailedMetrics, MemoryMetrics, Metrics,
};
use monitoring_agent::encode::dec_u64_string;
use monitoring_agent::rfc3339::rfc3339_millis;
use monitoring_agent::webhooks::{
    prepare_to_client, prepare_to_clients, sign_body, BaseBody, HookTypes, MetricsBody,
    WebhookManager,
};

fn fixed_metrics() -> Metrics {
    Metrics {
        cpu: CpuMetrics {
            load: Some(CpuLoadMetric {
                average: 1250,
                per_core: Some(vec![1000, 1500]),
            }),
        },
        memory: MemoryMetrics {
            perc_used: 4725,
            detailed: Some(MemoryDetailedMetrics {
                total: 1000,
                available: 600,
                used: 400,
                free: 200,
            }),
        },
    }
}

fn manager_for(hooks: WebhooksConfig) -> WebhookManager {
    WebhookManager::new(hooks, "agent-1".to_string(), 4)
}

#[test]
fn rfc3339_renders_known_timestamps() {
    assert_eq!(rfc3339_millis(0), "1970-01-01T00:00:00Z");
    assert_eq!(rfc3339_millis(1000), "1970-01-01T00:00:01Z");
    assert_eq!(rfc3339_millis(86_400_000), "1970-01-02T00:00:00Z");
    assert_eq!(rfc3339_millis(951_782_400_000), "2000-02-29T00:00:00Z");
    assert_eq!(rfc3339_millis(1_078_012_800_000), "2004-02-29T00:00:00Z");
    assert_eq!(rfc3339_millis(1_700_000_000_000), "2023-11-14T22:13:20Z");
    assert_eq!(rfc3339_millis(4_102_444_800_000), "2100-01-01T00:00:00Z");
    assert_eq!(rfc3339_millis(253_402_300_799_999), "9999-12-31T23:59:59Z");
}

#[test]
fn hook_kinds_have_their_wire_names() {
    assert_eq!(HookTypes::OnStart.wire_str(), "on_start");
    assert_eq!(HookTypes::Ping.wire_str(), "ping");
    assert_eq!(HookTypes::Metrics.wire_str(), "metrics");
}

#[test]
fn base_body_serializes_to_exact_bytes() {
    let body = BaseBody {
        agent_id: "a".to_string(),
        sent_at: 0,
        hook_type: HookTypes::Ping,
    };
    assert_eq!(
        body.to_json(),
        "{\"agent_id\":\"a\",\"sent_at\":\"1970-01-01T00:00:00Z\",\"hook_type\":\"ping\"}"
    );
}

#[test]
fn metrics_body_serializes_to_exact_bytes() {
    let body = MetricsBody {
        agent_id: "agent-1".to_string(),
        sent_at: 1_700_000_000_000,
        hook_type: HookTypes::Metrics,
        metrics: fixed_metrics(),
    };
    let expected = "{\"agent_id\":\"agent-1\",\"sent_at\":\"2023-11-14T22:13:20Z\",\"hook_type\":\"metrics\",\"metrics\":{\"cpu\":{\"load\":{\"average\":12.50,\"per_core\":[10.00,15.00]}},\"memory\":{\"perc_used\":47.25,\"detailed\":{\"total\":1000,\"available\":600,\"used\":400,\"free\":200}}}}";
    assert_eq!(body.to_json(), expected);
}

#[test]
fn absent_parts_serialize_as_null() {
    let body = MetricsBody {
        agent_id: "x".to_string(),
        sent_at: 0,
        hook_type: HookTypes::Metrics,
        metrics: Metrics {
            cpu: CpuMetrics { load: None },
            memory: MemoryMetrics {
                perc_used: 9,
                detailed: None,
            },
        },
    };
    let expected = "{\"agent_id\":\"x\",\"sent_at\":\"1970-01-01T00:00:00Z\",\"hook_type\":\"metrics\",\"metrics\":{\"cpu\":{\"load\":null},\"memory\":{\"perc_used\":0.09,\"detailed\":null}}}";
    assert_eq!(body.to_json(), expected);
}

#[test]
fn per_core_absent_serializes_as_null() {
    let body = MetricsBody {
        agent_id: "x".to_string(),
        sent_at: 0,
        hook_type: HookTypes::Metrics,
        metrics: Metrics {
            cpu: CpuMetrics {
                load: Some(CpuLoadMetric {
                    average: 0,
                    per_core: None,
                }),
            },
            memory: MemoryMetrics {
                perc_used: 10000,
                detailed: None,
            },
        },
    };
    let json = body.to_json();
    assert!(json.contains("\"load\":{\"average\":0.00,\"per_core\":null}"));
    assert!(json.contains("\"perc_used\":100.00"));
}

#[test]
fn bodies_are_valid_json_with_the_wire_fields() {
    let body = MetricsBody {
        agent_id: "agent-1".to_string(),
        sent_at: 1_700_000_000_000,
        hook_type: HookTypes::Metrics,
        metrics: fixed_metrics(),
    };
    let v: serde_json::Value = serde_json::from_str(&body.to_json()).expect("valid JSON");
    assert_eq!(v["agent_id"], "agent-1");
    assert_eq!(v["sent_at"], "2023-11-14T22:13:20Z");
    assert_eq!(v["hook_type"], "metrics");
    assert_eq!(v["metrics"]["cpu"]["load"]["average"], 12.50);
    assert_eq!(v["metrics"]["cpu"]["load"]["per_core"][1], 15.00);
    assert_eq!(v["metrics"]["memory"]["perc_used"], 47.25);
    assert_eq!(v["metrics"]["memory"]["detailed"]["free"], 200);
}

#[test]
fn agent_id_is_escaped_as_json_demands() {
    let tricky = "a\"b\\c\nd\te\u{1}f";
    let body = BaseBody {
        agent_id: tricky.to_string(),
        sent_at: 0,
        hook_type: HookTypes::OnStart,
    };
    let json = body.to_json();
    // the escaped id reads back as the original string
    let v: serde_json::Value = serde_json::from_str(&json).expect("valid JSON despite escapes");
    assert_eq!(v["agent_id"], tricky);
    // and the escaped form matches the reference serializer's, byte for byte
    let reference = serde_json::to_string(tricky).unwrap();
    let expected_fragment = format!("{{\"agent_id\":{reference},");
    assert!(json.starts_with(&expected_fragment));
}

#[test]
fn signature_matches_reference_hmac_sha256() {
    // an independently computed HMAC-SHA256 of "hello" under key "secret"
    assert_eq!(
        sign_body(&"hello".to_string(), "secret".to_string()),
        "88aab3ede8d3adf94d26ab90d3bafd4a2083070c3bcce9c014ee04a443847c0b"
    );
}

#[test]
fn signature_of_fixed_body_under_known_secret() {
    let body = BaseBody {
        agent_id: "a".to_string(),
        sent_at: 0,
        hook_type: HookTypes::Ping,
    };
    let raw = body.to_json();
    // an independently computed HMAC-SHA256 of that exact body under key "s"
    assert_eq!(
        sign_body(&raw, "s".to_string()),
        "bba7e6e730d7d6d90c1fd7a9e94ef7b01689851b6064902b434806ae20f5bb8d"
    );
}

#[test]
fn prepared_request_signs_exactly_when_a_secret_exists() {
    let raw = "payload".to_string();
    let with_secret = WebhooksHookConfig {
        url: "https://example.test/hook".to_string(),
        secret: Some("secret".to_string()),
    };
    let r = prepare_to_client(&raw, &with_secret);
    assert_eq!(r.url, "https://example.test/hook");
    assert_eq!(r.body, "payload");
    assert_eq!(
        r.signature.as_deref(),
        Some(sign_body(&raw, "secret".to_string()).as_str())
    );
    let without_secret = WebhooksHookConfig {
        url: "https://example.test/other".to_string(),
        secret: None,
    };
    let r2 = prepare_to_client(&raw, &without_secret);
    assert!(r2.signature.is_none());
}

#[test]
fn on_start_fans_out_to_every_endpoint_with_one_body() {
    let hooks = WebhooksConfig {
        on_start: vec![
            WebhooksHookConfig {
                url: "https://example.test/one".to_string(),
                secret: None,
            },
            WebhooksHookConfig {
                url: "https://example.test/two".to_string(),
                secret: Some("s2".to_string()),
            },
        ],
        interval_pings: Vec::new(),
        interval_metrics: Vec::new(),
    };
    let m = manager_for(hooks);
    let reqs = m.on_start_requests(0);
    assert_eq!(reqs.len(), 2);
    assert_eq!(reqs[0].url, "https://example.test/one");
    assert_eq!(reqs[1].url, "https://example.test/two");
    let expected_body =
        "{\"agent_id\":\"agent-1\",\"sent_at\":\"1970-01-01T00:00:00Z\",\"hook_type\":\"on_start\"}";
    assert_eq!(reqs[0].body, expected_body);
    assert_eq!(reqs[1].body, expected_body);
    assert!(reqs[0].signature.is_none());
    assert!(reqs[1].signature.is_some());
}

#[test]
fn no_endpoints_means_no_requests() {
    let m = manager_for(WebhooksConfig {
        on_start: Vec::new(),
        interval_pings: Vec::new(),
        interval_metrics: Vec::new(),
    });
    assert!(m.on_start_requests(123).is_empty());
}

#[test]
fn ping_request_carries_the_ping_body() {
    let m = manager_for(WebhooksConfig {
        on_start: Vec::new(),
        interval_pings: Vec::new(),
        interval_metrics: Vec::new(),
    });
    let e = WebhooksHookConfigIntervalMetrics {
        url: "https://example.test/ping".to_string(),
        secret: None,
        interval: 30,
    };
    let r = m.ping_request(&e, 1000);
    assert_eq!(r.url, "https://example.test/ping");
    assert_eq!(
        r.body,
        "{\"agent_id\":\"agent-1\",\"sent_at\":\"1970-01-01T00:00:01Z\",\"hook_type\":\"ping\"}"
    );
}

#[test]
fn metrics_request_embeds_the_snapshot_it_was_given() {
    let m = manager_for(WebhooksConfig {
        on_start: Vec::new(),
        interval_pings: Vec::new(),
        interval_metrics: Vec::new(),
    });
    let e = WebhooksHookConfigIntervalMetrics {
        url: "https://example.test/metrics".to_string(),
        secret: Some("s".to_string()),
        interval: 30,
    };
    let captured = CapturedMetrics::new_from_now(fixed_metrics(), 500);
    let r = m.metrics_request(&e, 1_700_000_000_000, &captured);
    let v: serde_json::Value = serde_json::from_str(&r.body).unwrap();
    assert_eq!(v["hook_type"], "metrics");
    assert_eq!(v["sent_at"], "2023-11-14T22:13:20Z");
    assert_eq!(v["metrics"]["cpu"]["load"]["average"], 12.50);
    assert_eq!(
        r.signature.as_deref(),
        Some(sign_body(&r.body, "s".to_string()).as_str())
    );
}

#[test]
fn broadcast_prepares_in_configured_order() {
    let raw = "b".to_string();
    let clients = vec![
        WebhooksHookConfig {
            url: "https://example.test/1".to_string(),
            secret: None,
        },
        WebhooksHookConfig {
            url: "https://example.test/2".to_string(),
            secret: None,
        },
        WebhooksHookConfig {
            url: "https://example.test/3".to_string(),
            secret: Some("z".to_string()),
        },
    ];
    let reqs = prepare_to_clients(&raw, &clients);
    assert_eq!(reqs.len(), 3);
    for (i, r) in reqs.iter().enumerate() {
        assert_eq!(r.url, clients[i].url);
        assert_eq!(r.body, "b");
        assert_eq!(r.signature.is_some(), clients[i].secret.is_some());
    }
}

#[test]
fn decimal_rendering_covers_the_extremes() {
    assert_eq!(dec_u64_string(0), "0");
    assert_eq!(dec_u64_string(7), "7");
    assert_eq!(dec_u64_string(10), "10");
    assert_eq!(dec_u64_string(18_446_744_073_709_551_615), "18446744073709551615");
}

#[test]
fn byte_counts_render_as_plain_integers() {
    let body = MetricsBody {
        agent_id: "x".to_string(),
        sent_at: 0,
        hook_type: HookTypes::Metrics,
        metrics: Metrics {
            cpu: CpuMetrics { load: None },
            memory: MemoryMetrics {
                perc_used: 1,
                detailed: Some(MemoryDetailedMetrics {
                    total: u64::MAX,
                    available: 0,
                    used: 1,
                    free: 10,
                }),
            },
        },
    };
    let json = body.to_json();
    assert!(json.contains("\"total\":18446744073709551615"));
    assert!(json.contains("\"available\":0,\"used\":1,\"free\":10"));
    assert!(json.contains("\"perc_used\":0.01"));
}
