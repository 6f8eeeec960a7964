use tv_tauri::health::{flag_accepts, health_body_ok, health_url, healthy_bases};

#[test]
fn health_endpoint() {
    assert_eq!(health_url("http://192.168.1.5:3000"), "http://192.168.1.5:3000/api/health");
}

#[test]
fn only_ok_true_is_healthy() {
    assert!(health_body_ok("{\"ok\": true}"));
    assert!(health_body_ok("{\"version\":\"1\",\"ok\":true}"));
    assert!(!health_body_ok("{\"ok\": false}"));
    assert!(!health_body_ok("{\"ok\": \"true\"}"));
    assert!(!health_body_ok("{\"ok\": 1}"));
    assert!(!health_body_ok("[true]"));
    assert!(!health_body_ok("true"));
    assert!(!health_body_ok("not json"));
    assert!(!health_body_ok(""));
}

#[test]
fn flag_acceptance() {
    assert!(flag_accepts(Some(true)));
    assert!(!flag_accepts(Some(false)));
    assert!(!flag_accepts(None));
}

#[test]
fn healthy_bases_keep_order() {
    let bases: Vec<String> = vec!["http://a", "http://b", "http://c", "http://d"]
        .into_iter()
        .map(String::from)
        .collect();
    let bodies = vec![
        Some("{\"ok\":true}".to_string()),
        None,
        Some("{\"ok\":false}".to_string()),
        Some("{\"ok\":true}".to_string()),
    ];
    assert_eq!(healthy_bases(&bases, &bodies), vec!["http://a", "http://d"]);
    assert_eq!(healthy_bases(&vec![], &vec![]), Vec::<String>::new());
}
