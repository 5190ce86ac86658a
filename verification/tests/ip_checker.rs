use ddns_client::error::Error;
use ddns_client::ip_checker::{trim_newline, trimmed_str, IP, V4_URL};
use ddns_client::ipv4::Ipv4Addr;
use ddns_client::logging::{LogEntry, LogLevel};

fn resolved(answer: &str) -> IP {
    let mut ip = IP::new();
    ip.set_actual(answer).unwrap();
    ip
}

#[test]
fn the_echo_service_is_fixed() {
    assert_eq!(V4_URL, "https://api4.ipify.org");
}

#[test]
fn one_line_break_is_trimmed() {
    assert_eq!(trimmed_str("1.2.3.4\n"), "1.2.3.4");
    assert_eq!(trimmed_str("1.2.3.4\r\n"), "1.2.3.4");
    assert_eq!(trimmed_str("1.2.3.4"), "1.2.3.4");
    assert_eq!(trimmed_str("1.2.3.4\n\n"), "1.2.3.4\n");
    assert_eq!(trimmed_str("1.2.3.4\r"), "1.2.3.4\r");
    assert_eq!(trimmed_str("1.2.3.4\r\r\n"), "1.2.3.4\r");
    assert_eq!(trimmed_str("\n"), "");
    assert_eq!(trimmed_str("\r\n"), "");
    assert_eq!(trimmed_str(""), "");
    assert_eq!(trimmed_str("\n1.2.3.4"), "\n1.2.3.4");
    assert_eq!(trimmed_str("h\u{e9}\n"), "h\u{e9}");
}

#[test]
fn trim_newline_changes_the_string_in_place() {
    let mut text = "203.0.113.7\r\n".to_string();
    trim_newline(&mut text);
    assert_eq!(text, "203.0.113.7");
    trim_newline(&mut text);
    assert_eq!(text, "203.0.113.7");
    let mut empty = String::new();
    trim_newline(&mut empty);
    assert_eq!(empty, "");
}

#[test]
fn the_lookup_asks_dig_for_the_short_answer() {
    assert_eq!(IP::lookup_command("example.com"), "dig +short example.com");
    assert_eq!(IP::lookup_command(""), "dig +short ");
}

#[test]
fn the_published_record_is_read_from_the_output() {
    assert_eq!(IP::get_previous_ip("1.2.3.4\n"), Ok(Some(Ipv4Addr::new(1, 2, 3, 4))));
    assert_eq!(IP::get_previous_ip("1.2.3.4"), Ok(Some(Ipv4Addr::new(1, 2, 3, 4))));
    assert_eq!(IP::get_previous_ip(""), Ok(None));
    assert_eq!(IP::get_previous_ip("\n"), Ok(None));
    assert_eq!(IP::get_previous_ip("\r\n"), Ok(None));
}

#[test]
fn output_that_is_no_address_is_a_parse_error() {
    assert_eq!(
        IP::get_previous_ip("1.2.3.4\n5.6.7.8\n"),
        Err(Error::Parse("1.2.3.4\n5.6.7.8".to_string()))
    );
    assert_eq!(IP::get_previous_ip("host.example.\n"), Err(Error::Parse("host.example.".to_string())));
    assert_eq!(IP::get_previous_ip(" \n"), Err(Error::Parse(" ".to_string())));
}

#[test]
fn a_missing_record_is_a_change_whatever_the_address() {
    assert!(IP::changed(Ipv4Addr::new(0, 0, 0, 0), None));
    assert!(IP::changed(Ipv4Addr::new(1, 2, 3, 4), None));
    assert!(IP::changed(Ipv4Addr::new(255, 255, 255, 255), None));
}

#[test]
fn a_record_is_a_change_exactly_if_it_differs() {
    let host = Ipv4Addr::new(203, 0, 113, 7);
    assert!(!IP::changed(host, Some(Ipv4Addr::new(203, 0, 113, 7))));
    assert!(IP::changed(host, Some(Ipv4Addr::new(203, 0, 113, 8))));
    assert!(IP::changed(host, Some(Ipv4Addr::new(7, 113, 0, 203))));
}

#[test]
fn empty_lookup_means_changed_regardless_of_the_actual_address() {
    for answer in ["0.0.0.0", "1.2.3.4", "255.255.255.255"] {
        let ip = resolved(answer);
        assert_eq!(ip.compare(""), Ok(true));
        assert_eq!(ip.compare("\n"), Ok(true));
    }
}

#[test]
fn compare_tells_whether_the_record_differs() {
    let ip = resolved("203.0.113.7");
    assert_eq!(ip.compare("203.0.113.7\n"), Ok(false));
    assert_eq!(ip.compare("203.0.113.7"), Ok(false));
    assert_eq!(ip.compare("203.0.113.8\n"), Ok(true));
    assert_eq!(ip.compare("garbage\n"), Err(Error::Parse("garbage".to_string())));
}

#[test]
fn compare_needs_a_resolved_address() {
    let ip = IP::new();
    assert_eq!(ip.actual(), None);
    assert_eq!(ip.compare("1.2.3.4\n"), Err(Error::Unresolved));
    assert_eq!(ip.compare(""), Err(Error::Unresolved));
}

#[test]
fn the_address_is_resolved_once() {
    let mut ip = IP::new();
    assert_eq!(ip.set_actual("203.0.113.7"), Ok(()));
    assert_eq!(ip.actual(), Some(Ipv4Addr::new(203, 0, 113, 7)));
    assert_eq!(ip.set_actual("198.51.100.1"), Ok(()));
    assert_eq!(ip.actual(), Some(Ipv4Addr::new(203, 0, 113, 7)));
    assert_eq!(ip.set_actual("not an address"), Ok(()));
    assert_eq!(ip.actual(), Some(Ipv4Addr::new(203, 0, 113, 7)));
}

#[test]
fn an_answer_that_is_no_address_resolves_nothing() {
    let mut ip = IP::new();
    assert_eq!(ip.set_actual("<html>"), Err(Error::Parse("<html>".to_string())));
    assert_eq!(ip.actual(), None);
    assert_eq!(ip.set_actual("203.0.113.7\n"), Err(Error::Parse("203.0.113.7\n".to_string())));
    assert_eq!(ip.actual(), None);
    assert_eq!(ip.set_actual("203.0.113.7"), Ok(()));
    assert_eq!(ip.actual(), Some(Ipv4Addr::new(203, 0, 113, 7)));
}

#[test]
fn the_steps_of_a_comparison_are_reported() {
    assert_eq!(
        IP::lookup_report("1.2.3.4\n", "example.com"),
        LogEntry {
            level: LogLevel::DEBUG,
            message: "dig returned IP address: '1.2.3.4' for domain: 'example.com'".to_string(),
        }
    );
    assert_eq!(
        IP::resolved_report(Ipv4Addr::new(203, 0, 113, 7)),
        LogEntry {
            level: LogLevel::DEBUG,
            message: "ipify returned IP address: '203.0.113.7'".to_string(),
        }
    );
    assert_eq!(
        IP::change_report(Ipv4Addr::new(203, 0, 113, 7), true),
        LogEntry {
            level: LogLevel::INFO,
            message: "IP address changed: New IP: 203.0.113.7".to_string(),
        }
    );
    assert_eq!(
        IP::change_report(Ipv4Addr::new(203, 0, 113, 7), false),
        LogEntry { level: LogLevel::DEBUG, message: "IP address did not change".to_string() }
    );
}

#[test]
fn errors_are_reported_in_one_line() {
    assert_eq!(Error::Network("timed out".to_string()).message(), "network error: timed out");
    assert_eq!(
        Error::Parse("x.y".to_string()).message(),
        "invalid IPv4 address syntax: 'x.y'"
    );
    assert_eq!(
        Error::Execution("exit 9".to_string()).message(),
        "dig command failed with output: exit 9"
    );
    assert_eq!(Error::Unresolved.message(), "the public IP address is not resolved");
}
