use monitoring_agent::auth::{auth_value_allowed, check_client, ip_allowed, Client};
use monitoring_agent::config::AuthenticationConfig;

fn rules(check_ip: bool, check_key: bool) -> AuthenticationConfig {
    AuthenticationConfig {
        check_ip,
        check_key,
        allowed_ip: vec!["10.0.0.1".to_string(), "192.168.0.2".to_string()],
        allowed_keys: vec!["k1".to_string(), "topsecret".to_string()],
    }
}

#[test]
fn matrix_both_checks_disabled_always_passes_unauthenticated() {
    let a = rules(false, false);
    let good_ip = "10.0.0.1".to_string();
    let bad_ip = "8.8.8.8".to_string();
    let cases: Vec<(Option<&String>, Option<&str>)> = vec![
        (None, None),
        (Some(&good_ip), Some("Bearer k1")),
        (Some(&bad_ip), Some("Bearer nope")),
        (None, Some("garbage")),
    ];
    for (ip, header) in cases {
        assert_eq!(
            check_client(ip, header, &a),
            Some(Client { authenticated: false })
        );
    }
}

#[test]
fn matrix_key_only() {
    let a = rules(false, true);
    let bad_ip = "8.8.8.8".to_string();
    // the key decides; the address is ignored entirely
    assert_eq!(
        check_client(Some(&bad_ip), Some("Bearer k1"), &a),
        Some(Client { authenticated: true })
    );
    assert_eq!(
        check_client(None, Some("Bearer topsecret"), &a),
        Some(Client { authenticated: true })
    );
    assert_eq!(check_client(None, Some("Bearer nope"), &a), None);
    assert_eq!(check_client(None, None, &a), None);
}

#[test]
fn matrix_ip_only() {
    let a = rules(true, false);
    let good_ip = "192.168.0.2".to_string();
    let bad_ip = "8.8.8.8".to_string();
    // the address decides; the header is ignored entirely
    assert_eq!(
        check_client(Some(&good_ip), None, &a),
        Some(Client { authenticated: true })
    );
    assert_eq!(
        check_client(Some(&good_ip), Some("Bearer nope"), &a),
        Some(Client { authenticated: true })
    );
    assert_eq!(check_client(Some(&bad_ip), Some("Bearer k1"), &a), None);
    // unresolved address fails closed
    assert_eq!(check_client(None, Some("Bearer k1"), &a), None);
}

#[test]
fn matrix_both_checks_demand_both() {
    let a = rules(true, true);
    let good_ip = "10.0.0.1".to_string();
    let bad_ip = "8.8.8.8".to_string();
    assert_eq!(
        check_client(Some(&good_ip), Some("Bearer k1"), &a),
        Some(Client { authenticated: true })
    );
    // valid key but address not in the list: rejected
    assert_eq!(check_client(Some(&bad_ip), Some("Bearer k1"), &a), None);
    // listed address but bad key: rejected
    assert_eq!(check_client(Some(&good_ip), Some("Bearer nope"), &a), None);
    assert_eq!(check_client(Some(&good_ip), None, &a), None);
    assert_eq!(check_client(None, Some("Bearer k1"), &a), None);
    assert_eq!(check_client(None, None, &a), None);
}

#[test]
fn ip_allowed_is_exact_membership() {
    let list = vec!["10.0.0.1".to_string(), "192.168.0.2".to_string()];
    assert!(ip_allowed(&"10.0.0.1".to_string(), &list));
    assert!(ip_allowed(&"192.168.0.2".to_string(), &list));
    assert!(!ip_allowed(&"10.0.0.10".to_string(), &list));
    assert!(!ip_allowed(&"10.0.0.1 ".to_string(), &list));
    assert!(!ip_allowed(&"".to_string(), &list));
    assert!(!ip_allowed(&"10.0.0.1".to_string(), &Vec::new()));
}

#[test]
fn bearer_prefix_is_case_sensitive() {
    let keys = vec!["k1".to_string()];
    assert!(auth_value_allowed(Some("Bearer k1"), &keys).is_some());
    assert!(auth_value_allowed(Some("bearer k1"), &keys).is_none());
    assert!(auth_value_allowed(Some("BEARER k1"), &keys).is_none());
    assert!(auth_value_allowed(Some("Basic k1"), &keys).is_none());
    assert!(auth_value_allowed(Some("k1"), &keys).is_none());
    assert!(auth_value_allowed(None, &keys).is_none());
}

#[test]
fn bearer_token_is_trimmed() {
    let keys = vec!["k1".to_string()];
    assert!(auth_value_allowed(Some("Bearer   k1   "), &keys).is_some());
    assert!(auth_value_allowed(Some("Bearer\tk1"), &keys).is_some());
    // the prefix is stripped without demanding a space after it
    assert!(auth_value_allowed(Some("Bearerk1"), &keys).is_some());
    // whitespace inside the token is not removed
    assert!(auth_value_allowed(Some("Bearer k 1"), &keys).is_none());
}

#[test]
fn empty_or_short_header_rejects() {
    let keys = vec!["k1".to_string()];
    assert!(auth_value_allowed(Some(""), &keys).is_none());
    assert!(auth_value_allowed(Some("Bear"), &keys).is_none());
    // a bare prefix leaves an empty token, which matches no listed key
    assert!(auth_value_allowed(Some("Bearer"), &keys).is_none());
    assert!(auth_value_allowed(Some("Bearer "), &keys).is_none());
    // unless the empty key itself is listed
    let with_empty = vec!["".to_string()];
    assert!(auth_value_allowed(Some("Bearer "), &with_empty).is_some());
}

#[test]
fn matrix_is_exhaustive_over_every_combination() {
    let good_ip = "10.0.0.1".to_string();
    let bad_ip = "8.8.8.8".to_string();
    // every (check_ip, check_key) row against every address and key state
    for check_ip in [false, true] {
        for check_key in [false, true] {
            let a = rules(check_ip, check_key);
            for ip in [None, Some(&good_ip), Some(&bad_ip)] {
                for header in [None, Some("Bearer k1"), Some("Bearer nope")] {
                    let ip_ok = ip == Some(&good_ip);
                    let key_ok = header == Some("Bearer k1");
                    let expected = match (check_ip, check_key) {
                        (false, false) => Some(Client { authenticated: false }),
                        (false, true) => key_ok.then_some(Client { authenticated: true }),
                        (true, false) => ip_ok.then_some(Client { authenticated: true }),
                        (true, true) => {
                            (ip_ok && key_ok).then_some(Client { authenticated: true })
                        }
                    };
                    assert_eq!(check_client(ip, header, &a), expected);
                }
            }
        }
    }
}
