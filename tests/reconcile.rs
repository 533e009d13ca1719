use dyndns_bridge::handler::{authorize, handle_request, prepare, Config, RequestParams};
use dyndns_bridge::reconcile::{action_label, response, Op, ProviderCall, Reconciler};
use dyndns_bridge::records::{ClientAddr, Record, RecordType};

/// A provider double: it logs each call and fails the call numbered `fail_at`.
struct MockProvider {
    domain: String,
    calls: Vec<String>,
    fail_at: Option<usize>,
}

impl MockProvider {
    fn new(domain: &str) -> Self {
        MockProvider { domain: domain.to_string(), calls: vec![], fail_at: None }
    }

    fn call(&mut self, c: &ProviderCall) -> Result<String, String> {
        let name = match c.op {
            Op::Delete => "delete_record",
            Op::Create => "create_record",
        };
        let n = self.calls.len();
        self.calls.push(format!("{} {} {}", name, c.record_type.as_str(), c.content));
        if self.fail_at == Some(n) {
            return Err("provider refused".to_string());
        }
        Ok(format!("{}: {}.{}", name, c.subdomain, self.domain))
    }
}

fn run(rec: &mut Reconciler, p: &mut MockProvider) {
    while let Some(c) = rec.next_call() {
        match p.call(&c) {
            Ok(s) => rec.record_success(s),
            Err(_) => rec.record_failure(),
        }
    }
}

fn three_records() -> Vec<Record> {
    vec![
        Record::new(RecordType::A, "1.2.3.4".to_string()),
        Record::new(RecordType::Aaaa, "::1".to_string()),
        Record::new(RecordType::Txt, "hi".to_string()),
    ]
}

fn params(token: &str, subdomain: Option<&str>) -> RequestParams {
    RequestParams {
        token: token.to_string(),
        subdomain: subdomain.map(|s| s.to_string()),
        a: Some("1.2.3.4".to_string()),
        aaaa: None,
        txt: None,
        clear: None,
    }
}

#[test]
fn test_handle_record() {
    let mut porkbun = MockProvider::new("domain.com");
    let mut rec = Reconciler::new(
        "subdomain".to_string(),
        "subdomain.domain.com".to_string(),
        vec![Record::new(RecordType::A, "test".to_string())],
        false,
    );
    run(&mut rec, &mut porkbun);
    let responses = rec.confirmations();
    assert_eq!(responses.len(), 2);
    assert_eq!(responses[0], "delete_record: subdomain.domain.com");
    assert_eq!(responses[1], "create_record: subdomain.domain.com");

    let mut rec = Reconciler::new(
        "subdomain".to_string(),
        "subdomain.domain.com".to_string(),
        vec![Record::new(RecordType::A, "test".to_string())],
        true,
    );
    run(&mut rec, &mut porkbun);
    let responses = rec.confirmations();
    assert_eq!(responses.len(), 1);
    assert_eq!(responses[0], "delete_record: subdomain.domain.com");
}

#[test]
fn update_of_three_records_makes_six_calls() {
    let mut p = MockProvider::new("example.com");
    let mut rec = Reconciler::new("h".to_string(), "h.example.com".to_string(), three_records(), false);
    run(&mut rec, &mut p);
    assert_eq!(
        p.calls,
        vec![
            "delete_record A 1.2.3.4",
            "create_record A 1.2.3.4",
            "delete_record AAAA ::1",
            "create_record AAAA ::1",
            "delete_record TXT hi",
            "create_record TXT hi",
        ]
    );
    let r = rec.finish();
    assert_eq!(r.status, 200);
    assert_eq!(r.message, "OK");
    assert_eq!(r.domain, "h.example.com");
    assert!(!r.clear);
    assert_eq!(r.records.len(), 3);
    assert_eq!(r.records[2].content, "hi");
}

#[test]
fn clear_makes_one_delete_per_record() {
    let mut p = MockProvider::new("example.com");
    let mut rec = Reconciler::new("h".to_string(), "h.example.com".to_string(), three_records(), true);
    run(&mut rec, &mut p);
    assert_eq!(
        p.calls,
        vec!["delete_record A 1.2.3.4", "delete_record AAAA ::1", "delete_record TXT hi"]
    );
    let r = rec.finish();
    assert_eq!(r.status, 200);
    assert!(r.clear);
    assert_eq!(r.records.len(), 3);
}

#[test]
fn failure_on_second_record_stops_there() {
    let mut p = MockProvider::new("example.com");
    // Calls 0 and 1 apply the first record; call 2 is the second record's delete.
    p.fail_at = Some(2);
    let mut rec = Reconciler::new("h".to_string(), "h.example.com".to_string(), three_records(), false);
    run(&mut rec, &mut p);
    assert_eq!(
        p.calls,
        vec!["delete_record A 1.2.3.4", "create_record A 1.2.3.4", "delete_record AAAA ::1"]
    );
    assert_eq!(rec.confirmations().len(), 2);
    let r = rec.finish();
    assert_eq!(r.status, 500);
    assert_eq!(r.message, "Internal Server Error");
    assert_eq!(r.records.len(), 2);
    assert_eq!(r.records[1].record_type, RecordType::Aaaa);
}

#[test]
fn failed_create_is_not_rolled_back() {
    let mut p = MockProvider::new("example.com");
    p.fail_at = Some(3);
    let mut rec = Reconciler::new("h".to_string(), "h.example.com".to_string(), three_records(), false);
    run(&mut rec, &mut p);
    assert_eq!(p.calls.len(), 4);
    assert_eq!(p.calls[3], "create_record AAAA ::1");
    assert!(rec.finished());
    assert!(rec.next_call().is_none());
    assert_eq!(rec.finish().status, 500);
}

#[test]
fn empty_record_set_finishes_at_once() {
    let rec = Reconciler::new("h".to_string(), "h.example.com".to_string(), vec![], false);
    assert!(rec.next_call().is_none());
    let r = rec.finish();
    assert_eq!(r.status, 200);
    assert!(r.records.is_empty());
}

#[test]
fn wrong_token_gives_401_and_no_reconciliation() {
    let config = Config::new("example.com", Some("s3cret".to_string())).unwrap();
    let client = ClientAddr::V4("10.0.0.1".to_string());
    let r = handle_request(&config, &params("guess", Some("home")), &client);
    let resp = r.unwrap_err();
    assert_eq!(resp.status, 401);
    assert_eq!(resp.message, "Unauthorized: Invalid token");
    assert_eq!(resp.domain, "");
    assert!(resp.records.is_empty());
}

#[test]
fn right_token_or_none_configured_passes() {
    let client = ClientAddr::V4("10.0.0.1".to_string());
    let config = Config::new("example.com", Some("s3cret".to_string())).unwrap();
    assert!(handle_request(&config, &params("s3cret", Some("home")), &client).is_ok());
    let open = Config::new("example.com", None).unwrap();
    assert!(handle_request(&open, &params("", Some("home")), &client).is_ok());
    assert!(authorize(&None, &"anything".to_string()));
    assert!(!authorize(&Some("a".to_string()), &"b".to_string()));
}

#[test]
fn prepared_request_targets_full_name() {
    let config = Config::new("dyn.example.com", None).unwrap();
    let client = ClientAddr::V6("2001:db8::5".to_string());
    let mut p = params("", None);
    p.a = None;
    p.clear = Some(true);
    let rec = prepare(&config, &p, &client, "home").unwrap();
    assert_eq!(rec.subdomain, "home.dyn");
    assert_eq!(rec.domain, "home.dyn.example.com");
    assert!(rec.clear);
    assert_eq!(rec.records.len(), 1);
    assert_eq!(rec.records[0].record_type, RecordType::Aaaa);
    assert_eq!(rec.records[0].content, "2001:db8::5");
}

#[test]
fn generated_label_names_the_target() {
    let config = Config::new("example.com", None).unwrap();
    let client = ClientAddr::V4("10.0.0.1".to_string());
    let rec = handle_request(&config, &params("", None), &client).unwrap();
    assert_eq!(rec.subdomain.chars().count(), 7);
    assert_eq!(rec.domain, format!("{}.example.com", rec.subdomain));
}

#[test]
fn response_and_action_label() {
    let r = response(200, "OK", "a.b.c", vec![Record::new(RecordType::Txt, "x".to_string())], true);
    assert_eq!(r.status, 200);
    assert_eq!(r.domain, "a.b.c");
    assert!(r.clear);
    assert_eq!(r.records.len(), 1);
    assert_eq!(action_label(true), "deleted");
    assert_eq!(action_label(false), "updated");
}
