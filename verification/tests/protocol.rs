use ddns_client::error::{ConfigError, Field};
use ddns_client::protocol::{AddressFamily, Credentials, Method, Protocol, Record};

#[test]
fn method_words_are_read_without_regard_to_case() {
    assert_eq!(Method::from_str("post"), Ok(Method::POST));
    assert_eq!(Method::from_str("PoSt"), Ok(Method::POST));
    assert_eq!(Method::from_str("put"), Ok(Method::PUT));
    assert_eq!(Method::from_str("PUT"), Ok(Method::PUT));
    assert_eq!(Method::from_str("delete"), Ok(Method::DELETE));
    assert_eq!(Method::from_str("Delete"), Ok(Method::DELETE));
}

#[test]
fn unknown_method_words_are_refused() {
    assert_eq!(Method::from_str("patch"), Err(()));
    assert_eq!(Method::from_str("get"), Err(()));
    assert_eq!(Method::from_str(""), Err(()));
    assert_eq!(Method::from_str(" post"), Err(()));
    assert_eq!(Method::from_str("posts"), Err(()));
}

#[test]
fn lowered_method_words_are_read_exactly() {
    assert_eq!(Method::from_lowered("post"), Some(Method::POST));
    assert_eq!(Method::from_lowered("put"), Some(Method::PUT));
    assert_eq!(Method::from_lowered("delete"), Some(Method::DELETE));
    assert_eq!(Method::from_lowered("POST"), None);
    assert_eq!(Method::from_lowered("a"), None);
}

#[test]
fn methods_are_written_in_capitals() {
    assert_eq!(Method::POST.to_string(), "POST");
    assert_eq!(Method::PUT.to_string(), "PUT");
    assert_eq!(Method::DELETE.to_string(), "DELETE");
    assert_eq!(Method::POST.as_str(), "POST");
    assert_eq!(Method::PUT.as_str(), "PUT");
    assert_eq!(Method::DELETE.as_str(), "DELETE");
}

#[test]
fn record_words_are_read_without_regard_to_case() {
    assert_eq!(Record::from_str("a"), Ok(Record::A));
    assert_eq!(Record::from_str("A"), Ok(Record::A));
    assert_eq!(Record::from_str("aaaa"), Ok(Record::AAAA));
    assert_eq!(Record::from_str("AAAA"), Ok(Record::AAAA));
    assert_eq!(Record::from_str("AaAa"), Ok(Record::AAAA));
}

#[test]
fn unknown_record_words_are_refused() {
    assert_eq!(Record::from_str("aa"), Err(()));
    assert_eq!(Record::from_str("aaa"), Err(()));
    assert_eq!(Record::from_str("cname"), Err(()));
    assert_eq!(Record::from_str(""), Err(()));
    assert_eq!(Record::from_lowered("A"), None);
    assert_eq!(Record::from_lowered("a"), Some(Record::A));
    assert_eq!(Record::from_lowered("aaaa"), Some(Record::AAAA));
}

#[test]
fn records_are_written_in_capitals() {
    assert_eq!(Record::A.to_string(), "A");
    assert_eq!(Record::AAAA.to_string(), "AAAA");
    assert_eq!(Record::A.as_str(), "A");
    assert_eq!(Record::AAAA.as_str(), "AAAA");
}

#[test]
fn each_record_type_goes_out_over_its_own_family() {
    assert_eq!(Record::A.family(), AddressFamily::V4);
    assert_eq!(Record::AAAA.family(), AddressFamily::V6);
}

#[test]
fn only_the_known_host_selects_the_hostname_update_protocol() {
    assert_eq!(Protocol::from_server("domains.google.com"), Protocol::GoogleDomains);
    assert_eq!(Protocol::from_server("dns.example.org"), Protocol::MailInABox);
    assert_eq!(Protocol::from_server("Domains.Google.com"), Protocol::MailInABox);
    assert_eq!(Protocol::from_server("domains.google.com."), Protocol::MailInABox);
    assert_eq!(Protocol::from_server("www.domains.google.com"), Protocol::MailInABox);
    assert_eq!(Protocol::from_server(""), Protocol::MailInABox);
}

#[test]
fn hostname_update_url_does_not_depend_on_the_record_type() {
    let expected = "https://domains.google.com/nic/update?hostname=example.com";
    let protocol = Protocol::GoogleDomains;
    assert_eq!(protocol.build_url("domains.google.com", "example.com", "A"), expected);
    assert_eq!(protocol.build_url("domains.google.com", "example.com", "AAAA"), expected);
    assert_eq!(protocol.build_url("domains.google.com", "example.com", ""), expected);
}

#[test]
fn generic_url_names_domain_and_record_type() {
    let protocol = Protocol::MailInABox;
    assert_eq!(
        protocol.build_url("dns.example.org", "example.com", "A"),
        "https://dns.example.org/admin/dns/custom/example.com/A"
    );
    assert_eq!(
        protocol.build_url("dns.example.org", "example.com", "AAAA"),
        "https://dns.example.org/admin/dns/custom/example.com/AAAA"
    );
    assert_eq!(protocol.build_url("", "", ""), "https:///admin/dns/custom//");
}

#[test]
fn credentials_keep_both_parts() {
    let credentials = Credentials::new("user".to_string(), "secret".to_string()).unwrap();
    assert_eq!(credentials.username(), "user");
    assert_eq!(credentials.password(), "secret");
}

#[test]
fn empty_credentials_are_refused() {
    assert_eq!(
        Credentials::new(String::new(), "secret".to_string()),
        Err(ConfigError::EmptyField(Field::Username))
    );
    assert_eq!(
        Credentials::new("user".to_string(), String::new()),
        Err(ConfigError::EmptyField(Field::Password))
    );
    assert_eq!(
        Credentials::new(String::new(), String::new()),
        Err(ConfigError::EmptyField(Field::Username))
    );
}
