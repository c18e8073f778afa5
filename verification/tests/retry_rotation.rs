use probe_client::config::Configure;
use probe_client::config::Identification;
use probe_client::config::RemoteServer;
use probe_client::config::Statistics;
use probe_client::endpoint::ServerAddress;
use probe_client::platform::ensure_identification;
use probe_client::retry::RetryDecision;
use probe_client::retry::RetryPolicy;
use probe_client::session::Session;
use probe_client::MAX_RETRY_TIMES;

fn config(primary: &str, backups: Option<Vec<&str>>, interval: Option<u32>) -> Configure {
    Configure {
        server: RemoteServer {
            server_address: String::from(primary),
            token: String::from("token-1"),
            backup_servers: backups.map(|v| v.into_iter().map(String::from).collect()),
            interval,
            check_server_version: None,
        },
        statistics: Statistics { enabled: false },
        identification: Some(Identification { token: String::from("id-0") }),
    }
}

#[test]
fn escalates_after_threshold_plus_one() {
    assert_eq!(MAX_RETRY_TIMES, 3);
    let mut p = RetryPolicy::new();
    for k in 1..=MAX_RETRY_TIMES {
        assert!(matches!(p.on_retryable_failure(), RetryDecision::Continue), "call {k}");
    }
    assert!(matches!(p.on_retryable_failure(), RetryDecision::Escalate));
}

#[test]
fn success_resets_the_run() {
    let mut p = RetryPolicy::new();
    p.on_retryable_failure();
    p.on_retryable_failure();
    p.on_success();
    assert_eq!(p.consecutive_failures, 0);
    for _ in 0..MAX_RETRY_TIMES {
        assert!(matches!(p.on_retryable_failure(), RetryDecision::Continue));
    }
    assert!(matches!(p.on_retryable_failure(), RetryDecision::Escalate));
}

#[test]
fn rotation_visits_each_address_once_in_order() {
    let cfg = config("http://primary", Some(vec!["http://b1", "http://b2"]), None);
    let mut sa = ServerAddress::new(&cfg);
    assert_eq!(sa.len(), 3);
    assert!(sa.get().is_none());
    assert_eq!(sa.next().map(String::as_str), Some("http://primary"));
    assert_eq!(sa.next().map(String::as_str), Some("http://b1"));
    assert_eq!(sa.next().map(String::as_str), Some("http://b2"));
    assert!(sa.next().is_none());
    assert!(sa.get().is_none());
}

#[test]
fn rotation_of_single_address() {
    let cfg = config("http://only", None, None);
    let mut sa = ServerAddress::new(&cfg);
    assert_eq!(sa.len(), 1);
    assert_eq!(sa.next().map(String::as_str), Some("http://only"));
    assert_eq!(sa.get().map(String::as_str), Some("http://only"));
    assert_eq!(sa.get_unwrap(), "http://only");
    assert!(sa.next().is_none());
}

#[test]
fn interval_defaults_to_180() {
    let s = Session::new(config("http://a", None, None));
    assert_eq!(s.get_interval(), 180);
}

#[test]
fn interval_reads_configuration() {
    let s = Session::new(config("http://a", None, Some(7)));
    assert_eq!(s.get_interval(), 7);
}

#[test]
fn identity_kept_when_present() {
    let mut cfg = config("http://a", None, None);
    let generated = ensure_identification(&mut cfg);
    assert!(!generated);
    assert_eq!(cfg.identification.unwrap().token, "id-0");
}

#[test]
fn identity_generated_when_absent() {
    let mut cfg = config("http://a", None, None);
    cfg.identification = None;
    let generated = ensure_identification(&mut cfg);
    assert!(generated);
    let token = cfg.identification.unwrap().token;
    assert_eq!(token.len(), 36);
    assert_eq!(token.chars().filter(|c| *c == '-').count(), 4);
}

#[test]
fn generated_identities_differ() {
    let mut a = config("http://a", None, None);
    let mut b = config("http://a", None, None);
    a.identification = None;
    b.identification = None;
    ensure_identification(&mut a);
    ensure_identification(&mut b);
    assert_ne!(a.identification.unwrap().token, b.identification.unwrap().token);
}

#[test]
fn request_data_fields_in_order() {
    let s = Session::new(config("http://a", None, None));
    let data = s.build_request_data("register", Some(String::from("{\"x\":1}")));
    assert_eq!(data.len(), 4);
    assert_eq!(data[0], (String::from("version"), String::from("0.1.0")));
    assert_eq!(data[1], (String::from("action"), String::from("register")));
    assert_eq!(data[2], (String::from("uuid"), String::from("id-0")));
    assert_eq!(data[3], (String::from("body"), String::from("{\"x\":1}")));
}

#[test]
fn request_data_without_body() {
    let s = Session::new(config("http://a", None, None));
    let data = s.build_request_data("heartbeat", None);
    assert_eq!(data.len(), 3);
    assert_eq!(data[1].1, "heartbeat");
}
