//! Provider protocols, HTTP methods and DNS record types.

use vstd::prelude::*;
use vstd::string::*;
use crate::error::{ConfigError, ConfigErrorView, Field};
use crate::text::{lowercase, str_eq};

verus! {

/// HTTP verb used to update a record.
#[derive(Debug, Clone, Copy, PartialEq, Eq, Structural)]
pub enum Method {
    POST,
    PUT,
    DELETE,
}

impl Method {
    /// The verb as it is written in a request and in a log line.
    pub open spec fn text(self) -> Seq<char> {
        match self {
            Method::POST => "POST"@,
            Method::PUT => "PUT"@,
            Method::DELETE => "DELETE"@,
        }
    }

    /// The method that a lowercase word names, if any.
    pub open spec fn of_lowered(lowered: Seq<char>) -> Option<Method> {
        if lowered == "post"@ {
            Some(Method::POST)
        } else if lowered == "put"@ {
            Some(Method::PUT)
        } else if lowered == "delete"@ {
            Some(Method::DELETE)
        } else {
            None
        }
    }

    /// The method that a configured word names, whatever its case.
    pub open spec fn parse(input: Seq<char>) -> Option<Method> {
        Self::of_lowered(lowercase(input))
    }

    /// The verb in capitals.
    pub fn as_str(&self) -> (s: &'static str)
        ensures
            s@ == self.text(),
    {
        match self {
            Method::POST => "POST",
            Method::PUT => "PUT",
            Method::DELETE => "DELETE",
        }
    }

    /// The verb in capitals, as a new string.
    pub fn to_string(&self) -> (s: String)
        ensures
            s@ == self.text(),
    {
        String::from_str(self.as_str())
    }

    /// Reads a word that is already in lowercase.
    pub fn from_lowered(lowered: &str) -> (method: Option<Method>)
        ensures
            method == Self::of_lowered(lowered@),
    {
        if str_eq(lowered, "post") {
            Some(Method::POST)
        } else if str_eq(lowered, "put") {
            Some(Method::PUT)
        } else if str_eq(lowered, "delete") {
            Some(Method::DELETE)
        } else {
            None
        }
    }

    /// Words that differ only in case name the same method.
    pub proof fn lemma_parse_ignores_case(first: Seq<char>, second: Seq<char>)
        requires
            lowercase(first) == lowercase(second),
        ensures
            Self::parse(first) == Self::parse(second),
    {
    }

    /// Reads a configured word without regard to case.
    pub fn from_str(input: &str) -> (method: Result<Method, ()>)
        ensures
            method == match Self::parse(input@) {
                Some(m) => Ok::<Method, ()>(m),
                None => Err(()),
            },
    {
        let lowered = input.to_lowercase();
        match Self::from_lowered(lowered.as_str()) {
            Some(m) => Ok(m),
            None => Err(()),
        }
    }
}

/// The IP family that a request goes out over. A request is sent from the
/// all-zeros address of its family, which leaves the choice of the adapter
/// to the system and fixes only the family.
#[derive(Debug, Clone, Copy, PartialEq, Eq, Structural)]
pub enum AddressFamily {
    V4,
    V6,
}

/// DNS record kind to update.
#[derive(Debug, Clone, Copy, PartialEq, Eq, Structural)]
pub enum Record {
    A,
    AAAA,
}

impl Record {
    /// The record type as it is written in a URL and in a log line.
    pub open spec fn text(self) -> Seq<char> {
        match self {
            Record::A => "A"@,
            Record::AAAA => "AAAA"@,
        }
    }

    /// The family over which the record type is updated: IPv4 for an A
    /// record, IPv6 for an AAAA record.
    pub open spec fn address_family(self) -> AddressFamily {
        match self {
            Record::A => AddressFamily::V4,
            Record::AAAA => AddressFamily::V6,
        }
    }

    /// The family over which the record type is updated.
    pub fn family(&self) -> (family: AddressFamily)
        ensures
            family == self.address_family(),
    {
        match self {
            Record::A => AddressFamily::V4,
            Record::AAAA => AddressFamily::V6,
        }
    }

    /// The record type that a lowercase word names, if any.
    pub open spec fn of_lowered(lowered: Seq<char>) -> Option<Record> {
        if lowered == "a"@ {
            Some(Record::A)
        } else if lowered == "aaaa"@ {
            Some(Record::AAAA)
        } else {
            None
        }
    }

    /// The record type that a configured word names, whatever its case.
    pub open spec fn parse(input: Seq<char>) -> Option<Record> {
        Self::of_lowered(lowercase(input))
    }

    /// The record type in capitals.
    pub fn as_str(&self) -> (s: &'static str)
        ensures
            s@ == self.text(),
    {
        match self {
            Record::A => "A",
            Record::AAAA => "AAAA",
        }
    }

    /// The record type in capitals, as a new string.
    pub fn to_string(&self) -> (s: String)
        ensures
            s@ == self.text(),
    {
        String::from_str(self.as_str())
    }

    /// Reads a word that is already in lowercase.
    pub fn from_lowered(lowered: &str) -> (record: Option<Record>)
        ensures
            record == Self::of_lowered(lowered@),
    {
        if str_eq(lowered, "a") {
            Some(Record::A)
        } else if str_eq(lowered, "aaaa") {
            Some(Record::AAAA)
        } else {
            None
        }
    }

    /// Words that differ only in case name the same record type.
    pub proof fn lemma_parse_ignores_case(first: Seq<char>, second: Seq<char>)
        requires
            lowercase(first) == lowercase(second),
        ensures
            Self::parse(first) == Self::parse(second),
    {
    }

    /// Reads a configured word without regard to case.
    pub fn from_str(input: &str) -> (record: Result<Record, ()>)
        ensures
            record == match Self::parse(input@) {
                Some(r) => Ok::<Record, ()>(r),
                None => Err(()),
            },
    {
        let lowered = input.to_lowercase();
        match Self::from_lowered(lowered.as_str()) {
            Some(r) => Ok(r),
            None => Err(()),
        }
    }
}

/// Provider-specific way of building the update URL.
#[derive(Debug, Clone, Copy, PartialEq, Eq, Structural)]
pub enum Protocol {
    /// The hostname-update style of `domains.google.com`.
    GoogleDomains,
    /// The generic style, used for every other server.
    MailInABox,
}

impl Protocol {
    /// The protocol that a server is spoken to with: the hostname-update
    /// style for exactly `domains.google.com`, the generic one otherwise.
    pub open spec fn select(server: Seq<char>) -> Protocol {
        if server == "domains.google.com"@ {
            Protocol::GoogleDomains
        } else {
            Protocol::MailInABox
        }
    }

    /// The update URL for a record of `domain` at `server`.
    pub open spec fn url(self, server: Seq<char>, domain: Seq<char>, record: Seq<char>) -> Seq<
        char,
    > {
        match self {
            Protocol::GoogleDomains => "https://"@ + server + "/nic/update?hostname="@ + domain,
            Protocol::MailInABox => "https://"@ + server + "/admin/dns/custom/"@ + domain + "/"@
                + record,
        }
    }

    /// Builds the update URL for a record of `domain` at `server`.
    pub fn build_url(&self, server: &str, domain: &str, record: &str) -> (url: String)
        ensures
            url@ == self.url(server@, domain@, record@),
    {
        let mut url = String::from_str("https://");
        url.append(server);
        match self {
            Protocol::GoogleDomains => {
                url.append("/nic/update?hostname=");
                url.append(domain);
            },
            Protocol::MailInABox => {
                url.append("/admin/dns/custom/");
                url.append(domain);
                url.append("/");
                url.append(record);
            },
        }
        url
    }

    /// Selects the protocol that a server is spoken to with.
    pub fn from_server(server: &str) -> (protocol: Protocol)
        ensures
            protocol == Self::select(server@),
    {
        if str_eq(server, "domains.google.com") {
            Protocol::GoogleDomains
        } else {
            Protocol::MailInABox
        }
    }

    /// The hostname-update URL is the same for every record type.
    pub proof fn lemma_hostname_update_ignores_record(
        server: Seq<char>,
        domain: Seq<char>,
        first: Seq<char>,
        second: Seq<char>,
    )
        ensures
            Protocol::GoogleDomains.url(server, domain, first) == Protocol::GoogleDomains.url(
                server,
                domain,
                second,
            ),
            Protocol::GoogleDomains.url(server, domain, first) == "https://"@ + server
                + "/nic/update?hostname="@ + domain,
    {
    }

    /// Only `domains.google.com` is spoken to in the hostname-update style.
    pub proof fn lemma_select_is_exact(server: Seq<char>)
        ensures
            Self::select("domains.google.com"@) == Protocol::GoogleDomains,
            server != "domains.google.com"@ ==> Self::select(server) == Protocol::MailInABox,
    {
    }
}

/// Basic-auth pair for a provider. Neither part is empty.
#[derive(Debug, PartialEq, Eq)]
pub struct Credentials {
    username: String,
    password: String,
}

impl Credentials {
    /// The username of the pair.
    pub closed spec fn spec_username(&self) -> Seq<char> {
        self.username@
    }

    /// The password of the pair.
    pub closed spec fn spec_password(&self) -> Seq<char> {
        self.password@
    }

    /// Holds of every value of the type.
    #[verifier::type_invariant]
    pub open spec fn non_empty(self) -> bool {
        self.spec_username().len() > 0 && self.spec_password().len() > 0
    }

    /// Which part of a pair is empty, looking at the username first.
    pub open spec fn empty_part(username: Seq<char>, password: Seq<char>) -> Option<Field> {
        if username.len() == 0 {
            Some(Field::Username)
        } else if password.len() == 0 {
            Some(Field::Password)
        } else {
            None
        }
    }

    /// Makes the pair, unless one of its parts is empty.
    pub fn new(username: String, password: String) -> (made: Result<Credentials, ConfigError>)
        ensures
            match made {
                Ok(c) => {
                    &&& Self::empty_part(username@, password@) is None
                    &&& c.spec_username() == username@
                    &&& c.spec_password() == password@
                },
                Err(e) => {
                    &&& Self::empty_part(username@, password@) matches Some(part)
                    &&& e@ == ConfigErrorView::EmptyField(part)
                },
            },
    {
        if username.as_str().unicode_len() == 0 {
            Err(ConfigError::EmptyField(Field::Username))
        } else if password.as_str().unicode_len() == 0 {
            Err(ConfigError::EmptyField(Field::Password))
        } else {
            Ok(Credentials { username, password })
        }
    }

    /// The username; it is not empty.
    pub fn username(&self) -> (name: &str)
        ensures
            name@ == self.spec_username(),
            name@.len() > 0,
    {
        proof {
            use_type_invariant(self);
        }
        self.username.as_str()
    }

    /// The password; it is not empty.
    pub fn password(&self) -> (word: &str)
        ensures
            word@ == self.spec_password(),
            word@.len() > 0,
    {
        proof {
            use_type_invariant(self);
        }
        self.password.as_str()
    }
}

} // verus!
