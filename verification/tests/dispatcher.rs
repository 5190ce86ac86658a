use ddns_client::api_client::{APIClient, RawTarget, Request};
use ddns_client::dispatcher::{Dispatcher, Outcome};
use ddns_client::logging::{LogEntry, LogLevel};
use ddns_client::protocol::{Method, Record};

fn client(server: &str, methods: &[&str], records: &[&str]) -> APIClient {
    APIClient::from_raw(RawTarget {
        username: Some("user".to_string()),
        password: Some("secret".to_string()),
        server: Some(server.to_string()),
        domain: Some("example.com".to_string()),
        methods: Some(methods.iter().map(|w| Some(w.to_string())).collect()),
        records: Some(records.iter().map(|w| Some(w.to_string())).collect()),
    })
    .unwrap()
}

fn copy(request: &Request) -> Request {
    Request { method: request.method, record: request.record, url: request.url.clone() }
}

#[test]
fn every_request_is_sent_whatever_becomes_of_the_others() {
    let job = client("dns.example.org", &["post", "delete"], &["a", "aaaa"]);
    let plan = job.requests();
    let mut dispatcher = Dispatcher::new(job.requests());
    let mut sent = Vec::new();
    while let Some(request) = dispatcher.next() {
        sent.push(copy(request));
        let outcome = if sent.len() % 2 == 1 {
            Outcome::Failed(format!("connection refused ({})", sent.len()))
        } else {
            Outcome::Updated(format!("updated ({})", sent.len()))
        };
        dispatcher = dispatcher.record(outcome);
    }
    assert_eq!(sent, plan);
    assert_eq!(sent.len(), 4);
    assert!(dispatcher.finished());
    assert_eq!(
        dispatcher.outcomes(),
        &vec![
            Outcome::Failed("connection refused (1)".to_string()),
            Outcome::Updated("updated (2)".to_string()),
            Outcome::Failed("connection refused (3)".to_string()),
            Outcome::Updated("updated (4)".to_string()),
        ]
    );
}

#[test]
fn an_empty_plan_is_finished_at_once() {
    let dispatcher = Dispatcher::new(Vec::new());
    assert!(dispatcher.finished());
    assert_eq!(dispatcher.next(), None);
    let dispatcher = dispatcher.record(Outcome::Updated("late".to_string()));
    assert!(dispatcher.finished());
    assert_eq!(dispatcher.outcomes().len(), 0);
}

#[test]
fn an_outcome_without_a_request_is_dropped() {
    let job = client("domains.google.com", &["put"], &["a"]);
    let dispatcher = Dispatcher::new(job.requests());
    assert!(!dispatcher.finished());
    assert_eq!(dispatcher.plan(), &job.requests());
    let dispatcher = dispatcher.record(Outcome::Updated("good 203.0.113.7".to_string()));
    assert!(dispatcher.finished());
    let dispatcher = dispatcher.record(Outcome::Failed("again".to_string()));
    assert_eq!(dispatcher.outcomes(), &vec![Outcome::Updated("good 203.0.113.7".to_string())]);
    assert_eq!(dispatcher.next(), None);
}

#[test]
fn an_unreachable_provider_does_not_stop_the_other_target() {
    let unreachable = client("down.example.org", &["put", "post"], &["a"]);
    let reachable = client("dns.example.org", &["put", "post"], &["a"]);
    let mut first = Dispatcher::new(unreachable.requests());
    let mut second = Dispatcher::new(reachable.requests());
    let mut entries = Vec::new();
    while !(first.finished() && second.finished()) {
        if first.next().is_some() {
            first = first.record(Outcome::Failed("no route to host".to_string()));
        }
        if second.next().is_some() {
            second = second.record(Outcome::Updated("OK\n".to_string()));
        }
    }
    for (request, outcome) in first.plan().iter().zip(first.outcomes()) {
        entries.push(unreachable.manage_request(request, outcome));
    }
    for (request, outcome) in second.plan().iter().zip(second.outcomes()) {
        entries.push(reachable.manage_request(request, outcome));
    }
    let failed = |method: &str| LogEntry {
        level: LogLevel::ERROR,
        message: format!("example.com A {} no route to host", method),
    };
    let updated = |method: &str| LogEntry {
        level: LogLevel::INFO,
        message: format!("example.com A {} OK\n", method),
    };
    assert_eq!(entries, vec![failed("PUT"), failed("POST"), updated("PUT"), updated("POST")]);
}

#[test]
fn an_outcome_is_reported_with_domain_record_and_method() {
    let job = client("dns.example.org", &["delete"], &["aaaa"]);
    let request = Request {
        method: Method::DELETE,
        record: Record::AAAA,
        url: "https://dns.example.org/admin/dns/custom/example.com/AAAA".to_string(),
    };
    assert_eq!(
        job.manage_request(&request, &Outcome::Updated("updated DNS: example.com".to_string())),
        LogEntry {
            level: LogLevel::INFO,
            message: "example.com AAAA DELETE updated DNS: example.com".to_string(),
        }
    );
    assert_eq!(
        job.manage_request(&request, &Outcome::Failed(String::new())),
        LogEntry { level: LogLevel::ERROR, message: "example.com AAAA DELETE ".to_string() }
    );
}
