//! One domain's update job: its configuration, and the requests that bring
//! the published records up to date.

use vstd::prelude::*;
use vstd::string::*;
use yaml_rust::Yaml;
use crate::collect::{lemma_try_map, lemma_try_map_prefix, lemma_try_map_step, try_map};
use crate::error::{ConfigError, ConfigErrorView, Error, ErrorView, Field};
use crate::ip_checker::{compared, IP};
use crate::protocol::{Credentials, Method, Protocol, Record};
use crate::yaml::{
    admitted,
    brackets_before,
    has_asterisk,
    has_long_line,
    has_many_brackets,
    line_length_at,
    list_field,
    load_from_str,
    string_field,
    yaml_documents,
    yaml_lists,
    yaml_stream,
    yaml_strings,
    MAX_BRACKETS,
    MAX_LINE_LENGTH,
};

verus! {

/// The mathematical value of an [`APIClient`].
pub struct TargetView {
    pub server: Seq<char>,
    pub domain: Seq<char>,
    pub protocol: Protocol,
    pub methods: Seq<Method>,
    pub records: Seq<Record>,
    pub username: Seq<char>,
    pub password: Seq<char>,
}

/// The user agent that every update request names.
pub const USER_AGENT: &'static str = "Rust Reqwest";

/// The content length that every update request states: its body is empty.
pub const CONTENT_LENGTH: &'static str = "0";

/// One update request: the verb, the record type it updates, and the URL.
/// It goes out over the family of its record type, with the credentials of
/// the job it belongs to and an empty body.
#[derive(Debug, PartialEq, Eq)]
pub struct Request {
    pub method: Method,
    pub record: Record,
    pub url: String,
}

/// The mathematical value of a [`Request`].
pub struct RequestView {
    pub method: Method,
    pub record: Record,
    pub url: Seq<char>,
}

impl View for Request {
    type V = RequestView;

    open spec fn view(&self) -> RequestView {
        RequestView { method: self.method, record: self.record, url: self.url@ }
    }
}

/// The value of each request of a list.
pub open spec fn request_views(requests: Seq<Request>) -> Seq<RequestView> {
    requests.map_values(|r: Request| r@)
}

/// Reads one configured method; the error is the word itself.
pub open spec fn read_method() -> spec_fn(Seq<char>) -> Result<Method, Seq<char>> {
    |word: Seq<char>|
        match Method::parse(word) {
            Some(m) => Ok(m),
            None => Err(word),
        }
}

/// Reads one configured record type; the error is the word itself.
pub open spec fn read_record() -> spec_fn(Seq<char>) -> Result<Record, Seq<char>> {
    |word: Seq<char>|
        match Record::parse(word) {
            Some(r) => Ok(r),
            None => Err(word),
        }
}

/// The characters of each word.
pub open spec fn words(list: Seq<&str>) -> Seq<Seq<char>> {
    list.map_values(|w: &str| w@)
}

impl TargetView {
    /// Whether a target can stand: it has a method and a record type, full
    /// credentials, and the protocol of its server.
    pub open spec fn wf(self) -> bool {
        &&& self.methods.len() > 0
        &&& self.records.len() > 0
        &&& self.username.len() > 0
        &&& self.password.len() > 0
        &&& self.protocol == Protocol::select(self.server)
    }

    /// The request that updates one record type with one method.
    pub open spec fn request(self, record: Record, method: Method) -> RequestView {
        RequestView {
            method,
            record,
            url: self.protocol.url(self.server, self.domain, record.text()),
        }
    }

    /// The requests that bring the target up to date: one for each record
    /// type and method, the record types in their order and, for each, the
    /// methods in theirs.
    pub open spec fn plan(self) -> Seq<RequestView> {
        Seq::new(
            self.records.len() * self.methods.len(),
            |k: int|
                self.request(
                    self.records[k / self.methods.len() as int],
                    self.methods[k % self.methods.len() as int],
                ),
        )
    }

    /// What is sent for a target after the lookup of its domain: nothing
    /// where the record is up to date, the whole plan where it is not, and
    /// the error where that cannot be told.
    pub open spec fn requests_after(self, actual: Option<crate::ipv4::Ipv4Addr>, output: Seq<char>)
        -> Result<Seq<RequestView>, ErrorView> {
        match compared(actual, output) {
            Ok(true) => Ok(self.plan()),
            Ok(false) => Ok(Seq::empty()),
            Err(e) => Err(e),
        }
    }

    /// The target that the given words configure. Both lists must be
    /// non-empty; the methods are read before the record types, and the
    /// first word that names none is the error.
    pub open spec fn build(
        server: Seq<char>,
        domain: Seq<char>,
        methods: Seq<Seq<char>>,
        records: Seq<Seq<char>>,
        username: Seq<char>,
        password: Seq<char>,
    ) -> Result<TargetView, ConfigErrorView> {
        if methods.len() == 0 {
            Err(ConfigErrorView::EmptyField(Field::Methods))
        } else {
            match try_map(methods, read_method()) {
                Err(word) => Err(ConfigErrorView::UnknownMethod(word)),
                Ok(ms) => if records.len() == 0 {
                    Err(ConfigErrorView::EmptyField(Field::Records))
                } else {
                    match try_map(records, read_record()) {
                        Err(word) => Err(ConfigErrorView::UnknownRecord(word)),
                        Ok(rs) => Ok(
                            TargetView {
                                server,
                                domain,
                                protocol: Protocol::select(server),
                                methods: ms,
                                records: rs,
                                username,
                                password,
                            },
                        ),
                    }
                },
            }
        }
    }
}

impl TargetView {
    /// A target is made exactly where both lists are non-empty and every
    /// word in them is known; it then holds what the words name, in their
    /// order. A word that names nothing is an error, so no request is ever
    /// built for it.
    pub proof fn lemma_build(
        server: Seq<char>,
        domain: Seq<char>,
        methods: Seq<Seq<char>>,
        records: Seq<Seq<char>>,
        username: Seq<char>,
        password: Seq<char>,
    )
        ensures
            Self::build(server, domain, methods, records, username, password) is Ok <==> {
                &&& methods.len() > 0
                &&& records.len() > 0
                &&& forall|i: int| 0 <= i < methods.len() ==> Method::parse(#[trigger] methods[i]) is Some
                &&& forall|j: int| 0 <= j < records.len() ==> Record::parse(#[trigger] records[j]) is Some
            },
            Self::build(server, domain, methods, records, username, password) matches Ok(target) ==> {
                &&& target.server == server
                &&& target.domain == domain
                &&& target.username == username
                &&& target.password == password
                &&& target.protocol == Protocol::select(server)
                &&& target.methods.len() == methods.len()
                &&& target.records.len() == records.len()
                &&& forall|i: int|
                    0 <= i < methods.len() ==> Method::parse(#[trigger] methods[i]) == Some(
                        target.methods[i],
                    )
                &&& forall|j: int|
                    0 <= j < records.len() ==> Record::parse(#[trigger] records[j]) == Some(
                        target.records[j],
                    )
            },
    {
        lemma_try_map(methods, read_method());
        lemma_try_map(records, read_record());
        assert forall|i: int| 0 <= i < methods.len() implies (read_method()(#[trigger] methods[i])
            is Ok <==> Method::parse(methods[i]) is Some) by {}
        assert forall|j: int| 0 <= j < records.len() implies (read_record()(#[trigger] records[j])
            is Ok <==> Record::parse(records[j]) is Some) by {}
    }

    /// The plan holds one request for each record type and method: the
    /// request for the `i`-th record type and the `j`-th method stands at
    /// `i * methods + j`.
    pub proof fn lemma_plan(self, i: int, j: int)
        requires
            0 <= i < self.records.len(),
            0 <= j < self.methods.len(),
        ensures
            self.plan().len() == self.records.len() * self.methods.len(),
            0 <= i * self.methods.len() + j < self.plan().len(),
            self.plan()[i * self.methods.len() + j] == self.request(
                self.records[i],
                self.methods[j],
            ),
    {
        lemma_plan_index(i, j, self.methods.len() as int, self.records.len() as int);
    }
}

impl RawTargetView {
    /// A configuration that gives no record types is the configuration
    /// that gives the one record type `a`.
    pub proof fn lemma_omitted_records_mean_a(self)
        requires
            self.records is None,
        ensures
            self.target() == (RawTargetView { records: Some(seq![Some("a"@)]), ..self }).target(),
    {
        let list: Seq<Option<Seq<char>>> = seq![Some("a"@)];
        assert(texts(list) is Some);
        assert(texts(list)->0 =~= default_records());
    }
}

/// One target as a configuration holds it, before any check. A field that
/// is absent, or is not of the kind it must be, is `None`; so is a list
/// entry that is not a string.
#[derive(Debug, PartialEq, Eq)]
pub struct RawTarget {
    pub username: Option<String>,
    pub password: Option<String>,
    pub server: Option<String>,
    pub domain: Option<String>,
    pub methods: Option<Vec<Option<String>>>,
    pub records: Option<Vec<Option<String>>>,
}

/// The mathematical value of a [`RawTarget`].
pub struct RawTargetView {
    pub username: Option<Seq<char>>,
    pub password: Option<Seq<char>>,
    pub server: Option<Seq<char>>,
    pub domain: Option<Seq<char>>,
    pub methods: Option<Seq<Option<Seq<char>>>>,
    pub records: Option<Seq<Option<Seq<char>>>>,
}

impl View for RawTarget {
    type V = RawTargetView;

    open spec fn view(&self) -> RawTargetView {
        RawTargetView {
            username: self.username.deep_view(),
            password: self.password.deep_view(),
            server: self.server.deep_view(),
            domain: self.domain.deep_view(),
            methods: self.methods.deep_view(),
            records: self.records.deep_view(),
        }
    }
}

/// The value under a key, if the map has the key.
pub open spec fn lookup<V>(fields: Map<Seq<char>, V>, key: Seq<char>) -> Option<V> {
    if fields.contains_key(key) {
        Some(fields[key])
    } else {
        None
    }
}

/// The texts of a list whose entries are all strings; `None` for any other
/// list.
pub open spec fn texts(list: Seq<Option<Seq<char>>>) -> Option<Seq<Seq<char>>> {
    if forall|i: int| 0 <= i < list.len() ==> (#[trigger] list[i]) is Some {
        Some(Seq::new(list.len(), |i: int| list[i]->0))
    } else {
        None
    }
}

/// The record types of a target that configures none.
pub open spec fn default_records() -> Seq<Seq<char>> {
    seq!["a"@]
}

impl RawTargetView {
    /// The target that a document's fields describe.
    pub open spec fn of_fields(
        strings: Map<Seq<char>, Seq<char>>,
        lists: Map<Seq<char>, Seq<Option<Seq<char>>>>,
    ) -> RawTargetView {
        RawTargetView {
            username: lookup(strings, Field::Username.key()),
            password: lookup(strings, Field::Password.key()),
            server: lookup(strings, Field::Server.key()),
            domain: lookup(strings, Field::Domain.key()),
            methods: lookup(lists, Field::Methods.key()),
            records: lookup(lists, Field::Records.key()),
        }
    }

    /// The checked target, or what is wrong with the configuration.
    ///
    /// Username, password, server and domain must be there, in that order
    /// of report, and the credentials must not be empty. The methods must
    /// be a list of strings. The record types, where they are given, must
    /// be a list of strings; where they are not, the target updates its A
    /// record.
    pub open spec fn target(self) -> Result<TargetView, ConfigErrorView> {
        if self.username is None {
            Err(ConfigErrorView::MissingField(Field::Username))
        } else if self.password is None {
            Err(ConfigErrorView::MissingField(Field::Password))
        } else if self.server is None {
            Err(ConfigErrorView::MissingField(Field::Server))
        } else if self.domain is None {
            Err(ConfigErrorView::MissingField(Field::Domain))
        } else if Credentials::empty_part(self.username->0, self.password->0) is Some {
            Err(
                ConfigErrorView::EmptyField(
                    Credentials::empty_part(self.username->0, self.password->0)->0,
                ),
            )
        } else if self.methods is None {
            Err(ConfigErrorView::MissingField(Field::Methods))
        } else if texts(self.methods->0) is None {
            Err(ConfigErrorView::MalformedList(Field::Methods))
        } else if self.records is Some && texts(self.records->0) is None {
            Err(ConfigErrorView::MalformedList(Field::Records))
        } else {
            TargetView::build(
                self.server->0,
                self.domain->0,
                texts(self.methods->0)->0,
                match self.records {
                    Some(list) => texts(list)->0,
                    None => default_records(),
                },
                self.username->0,
                self.password->0,
            )
        }
    }
}

/// Reads the target of one document from its fields.
pub open spec fn read_target() -> spec_fn(
    (Map<Seq<char>, Seq<char>>, Map<Seq<char>, Seq<Option<Seq<char>>>>),
) -> Result<TargetView, ConfigErrorView> {
    |fields: (Map<Seq<char>, Seq<char>>, Map<Seq<char>, Seq<Option<Seq<char>>>>)|
        RawTargetView::of_fields(fields.0, fields.1).target()
}

/// Why a text is not loaded, if it is not: an asterisk is reported before
/// a long line, and a long line before too many brackets.
pub open spec fn refusal(bytes: Seq<u8>) -> Option<ConfigErrorView> {
    if has_asterisk(bytes) {
        Some(ConfigErrorView::Alias)
    } else if has_long_line(bytes) {
        Some(ConfigErrorView::LineTooLong)
    } else if has_many_brackets(bytes) {
        Some(ConfigErrorView::TooManyBrackets)
    } else {
        None
    }
}

/// The targets that a text configures, given its bytes and the documents
/// that the loader finds in it: all of them, or what is wrong with the
/// first document that is not in order. A text that is not loaded, or is
/// no YAML, configures nothing.
pub open spec fn configured(
    bytes: Seq<u8>,
    stream: Option<Seq<(Map<Seq<char>, Seq<char>>, Map<Seq<char>, Seq<Option<Seq<char>>>>)>>,
) -> Result<Seq<TargetView>, ConfigErrorView> {
    match refusal(bytes) {
        Some(e) => Err(e),
        None => match stream {
            Some(docs) => try_map(docs, read_target()),
            None => Err(ConfigErrorView::Syntax),
        },
    }
}

/// One domain's update job. It is made once from a checked configuration
/// and does not change afterwards.
#[derive(Debug)]
pub struct APIClient {
    domain: String,
    methods: Vec<Method>,
    records: Vec<Record>,
    credentials: Credentials,
    server: String,
    protocol: Protocol,
}

impl View for APIClient {
    type V = TargetView;

    closed spec fn view(&self) -> TargetView {
        TargetView {
            server: self.server@,
            domain: self.domain@,
            protocol: self.protocol,
            methods: self.methods@,
            records: self.records@,
            username: self.credentials.spec_username(),
            password: self.credentials.spec_password(),
        }
    }
}

/// The value of what a constructor returns.
pub open spec fn made_view(made: Result<APIClient, ConfigError>) -> Result<
    TargetView,
    ConfigErrorView,
> {
    match made {
        Ok(client) => Ok(client@),
        Err(e) => Err(e@),
    }
}

/// The value of each job of a list.
pub open spec fn views(clients: Seq<APIClient>) -> Seq<TargetView> {
    clients.map_values(|c: APIClient| c@)
}

/// The value of what loading a configuration returns.
pub open spec fn loaded_view(loaded: Result<Vec<APIClient>, ConfigError>) -> Result<
    Seq<TargetView>,
    ConfigErrorView,
> {
    match loaded {
        Ok(clients) => Ok(views(clients@)),
        Err(e) => Err(e@),
    }
}

impl APIClient {
    /// Holds of every value of the type.
    #[verifier::type_invariant]
    pub open spec fn valid(self) -> bool {
        self@.wf()
    }

    /// Reads the configured methods.
    fn read_methods(list: &Vec<&str>) -> (read: Result<Vec<Method>, ConfigError>)
        ensures
            match read {
                Ok(ms) => try_map(words(list@), read_method()) == Ok::<Seq<Method>, Seq<char>>(
                    ms@,
                ),
                Err(e) => e is UnknownMethod && try_map(words(list@), read_method()) == Err::<
                    Seq<Method>,
                    Seq<char>,
                >(e->UnknownMethod_0@),
            },
    {
        let mut methods: Vec<Method> = Vec::new();
        for i in 0..list.len()
            invariant
                try_map(words(list@).take(i as int), read_method()) == Ok::<
                    Seq<Method>,
                    Seq<char>,
                >(methods@),
        {
            proof {
                lemma_try_map_step(words(list@), read_method(), i as int);
            }
            match Method::from_str(list[i]) {
                Ok(m) => methods.push(m),
                Err(_) => {
                    proof {
                        lemma_try_map_prefix(words(list@), read_method(), i as int + 1);
                    }
                    return Err(ConfigError::UnknownMethod(String::from_str(list[i])));
                },
            }
        }
        assert(words(list@).take(list.len() as int) == words(list@));
        Ok(methods)
    }

    /// Reads the configured record types.
    fn read_records(list: &Vec<&str>) -> (read: Result<Vec<Record>, ConfigError>)
        ensures
            match read {
                Ok(rs) => try_map(words(list@), read_record()) == Ok::<Seq<Record>, Seq<char>>(
                    rs@,
                ),
                Err(e) => e is UnknownRecord && try_map(words(list@), read_record()) == Err::<
                    Seq<Record>,
                    Seq<char>,
                >(e->UnknownRecord_0@),
            },
    {
        let mut records: Vec<Record> = Vec::new();
        for i in 0..list.len()
            invariant
                try_map(words(list@).take(i as int), read_record()) == Ok::<
                    Seq<Record>,
                    Seq<char>,
                >(records@),
        {
            proof {
                lemma_try_map_step(words(list@), read_record(), i as int);
            }
            match Record::from_str(list[i]) {
                Ok(r) => records.push(r),
                Err(_) => {
                    proof {
                        lemma_try_map_prefix(words(list@), read_record(), i as int + 1);
                    }
                    return Err(ConfigError::UnknownRecord(String::from_str(list[i])));
                },
            }
        }
        assert(words(list@).take(list.len() as int) == words(list@));
        Ok(records)
    }

    /// Makes the job for `domain` at `server` from the configured words.
    ///
    /// Each method is one of post, put and delete, each record type one of
    /// a and aaaa, in any case. Neither list may be empty.
    pub fn new(
        server: &str,
        domain: &str,
        methods: Vec<&str>,
        records: Vec<&str>,
        credentials: Credentials,
    ) -> (made: Result<APIClient, ConfigError>)
        ensures
            made_view(made) == TargetView::build(
                server@,
                domain@,
                words(methods@),
                words(records@),
                credentials.spec_username(),
                credentials.spec_password(),
            ),
            made matches Ok(client) ==> client@.wf(),
    {
        if methods.len() == 0 {
            return Err(ConfigError::EmptyField(Field::Methods));
        }
        let ms = match Self::read_methods(&methods) {
            Ok(ms) => ms,
            Err(e) => {
                return Err(e);
            },
        };
        if records.len() == 0 {
            return Err(ConfigError::EmptyField(Field::Records));
        }
        let rs = match Self::read_records(&records) {
            Ok(rs) => rs,
            Err(e) => {
                return Err(e);
            },
        };
        proof {
            lemma_try_map(words(methods@), read_method());
            lemma_try_map(words(records@), read_record());
            use_type_invariant(&credentials);
        }
        let protocol = Protocol::from_server(server);
        Ok(
            APIClient {
                domain: String::from_str(domain),
                server: String::from_str(server),
                methods: ms,
                records: rs,
                credentials,
                protocol,
            },
        )
    }

    /// The provider host that the job speaks to.
    pub fn server(&self) -> (server: &str)
        ensures
            server@ == self@.server,
    {
        self.server.as_str()
    }

    /// The DNS name that the job updates.
    pub fn domain(&self) -> (domain: &str)
        ensures
            domain@ == self@.domain,
    {
        self.domain.as_str()
    }

    /// The protocol of the job's server.
    pub fn protocol(&self) -> (protocol: Protocol)
        ensures
            protocol == self@.protocol,
            protocol == Protocol::select(self@.server),
    {
        proof {
            use_type_invariant(self);
        }
        self.protocol
    }

    /// The methods of the job, in the configured order; at least one.
    pub fn methods(&self) -> (methods: &Vec<Method>)
        ensures
            methods@ == self@.methods,
            methods@.len() > 0,
    {
        proof {
            use_type_invariant(self);
        }
        &self.methods
    }

    /// The record types of the job, in the configured order; at least
    /// one.
    pub fn records(&self) -> (records: &Vec<Record>)
        ensures
            records@ == self@.records,
            records@.len() > 0,
    {
        proof {
            use_type_invariant(self);
        }
        &self.records
    }

    /// The credentials that every request of the job is sent with.
    pub fn credentials(&self) -> (credentials: &Credentials)
        ensures
            credentials.spec_username() == self@.username,
            credentials.spec_password() == self@.password,
    {
        &self.credentials
    }

    /// The words of a list, where all its entries are strings.
    fn list_words<'a>(list: &'a Vec<Option<String>>) -> (found: Option<Vec<&'a str>>)
        ensures
            match found {
                Some(ws) => texts(list.deep_view()) == Some(words(ws@)),
                None => texts(list.deep_view()) is None,
            },
    {
        let mut ws: Vec<&'a str> = Vec::new();
        for i in 0..list.len()
            invariant
                ws@.len() == i,
                forall|j: int|
                    0 <= j < i ==> (#[trigger] list.deep_view()[j]) == Some(ws@[j]@),
        {
            match &list[i] {
                Some(word) => ws.push(word.as_str()),
                None => {
                    assert(list.deep_view()[i as int] is None);
                    return None;
                },
            }
        }
        assert(texts(list.deep_view())->0 =~= words(ws@));
        Some(ws)
    }

    /// Checks one configured target and makes its job.
    pub fn from_raw(raw: RawTarget) -> (made: Result<APIClient, ConfigError>)
        ensures
            made_view(made) == raw@.target(),
            made matches Ok(client) ==> client@.wf(),
    {
        let RawTarget { username, password, server, domain, methods, records } = raw;
        let username = match username {
            Some(text) => text,
            None => {
                return Err(ConfigError::MissingField(Field::Username));
            },
        };
        let password = match password {
            Some(text) => text,
            None => {
                return Err(ConfigError::MissingField(Field::Password));
            },
        };
        let server = match server {
            Some(text) => text,
            None => {
                return Err(ConfigError::MissingField(Field::Server));
            },
        };
        let domain = match domain {
            Some(text) => text,
            None => {
                return Err(ConfigError::MissingField(Field::Domain));
            },
        };
        let credentials = match Credentials::new(username, password) {
            Ok(pair) => pair,
            Err(e) => {
                return Err(e);
            },
        };
        let methods = match methods {
            Some(list) => list,
            None => {
                return Err(ConfigError::MissingField(Field::Methods));
            },
        };
        let method_words = match Self::list_words(&methods) {
            Some(ws) => ws,
            None => {
                return Err(ConfigError::MalformedList(Field::Methods));
            },
        };
        let record_words = match &records {
            Some(list) => match Self::list_words(list) {
                Some(ws) => ws,
                None => {
                    return Err(ConfigError::MalformedList(Field::Records));
                },
            },
            None => {
                let ws = vec!["a"];
                assert(words(ws@) =~= default_records());
                ws
            },
        };
        APIClient::new(server.as_str(), domain.as_str(), method_words, record_words, credentials)
    }

    /// Reads the fields of one target from a document.
    fn read_raw(doc: &Yaml) -> (raw: RawTarget)
        ensures
            raw@ == RawTargetView::of_fields(yaml_strings(*doc), yaml_lists(*doc)),
    {
        RawTarget {
            username: string_field(doc, Field::Username.as_str()),
            password: string_field(doc, Field::Password.as_str()),
            server: string_field(doc, Field::Server.as_str()),
            domain: string_field(doc, Field::Domain.as_str()),
            methods: list_field(doc, Field::Methods.as_str()),
            records: list_field(doc, Field::Records.as_str()),
        }
    }

    /// Makes the jobs that a stream of documents configures, one for each
    /// document, in order. The first document that is not in order ends
    /// the reading with its error.
    pub fn parse_yaml(docs: &Vec<Yaml>) -> (loaded: Result<Vec<APIClient>, ConfigError>)
        ensures
            loaded_view(loaded) == try_map(yaml_documents(docs@), read_target()),
    {
        let mut config: Vec<APIClient> = Vec::new();
        assert(views(config@) =~= Seq::empty());
        for i in 0..docs.len()
            invariant
                try_map(yaml_documents(docs@).take(i as int), read_target()) == Ok::<
                    Seq<TargetView>,
                    ConfigErrorView,
                >(views(config@)),
        {
            proof {
                lemma_try_map_step(yaml_documents(docs@), read_target(), i as int);
            }
            let ghost before = views(config@);
            let raw = Self::read_raw(&docs[i]);
            match Self::from_raw(raw) {
                Ok(api) => {
                    config.push(api);
                    assert(views(config@) =~= before.push(api@));
                },
                Err(e) => {
                    proof {
                        lemma_try_map_prefix(yaml_documents(docs@), read_target(), i as int + 1);
                    }
                    return Err(e);
                },
            }
        }
        assert(yaml_documents(docs@).take(docs.len() as int) == yaml_documents(docs@));
        Ok(config)
    }

    /// Tells whether a text is loaded, and why if it is not. A text is
    /// loaded where it holds no asterisk, no line longer than
    /// `MAX_LINE_LENGTH` bytes and no more than `MAX_BRACKETS` opening
    /// brackets, which bounds how deep it nests.
    pub fn check_text(contents: &str) -> (refused: Option<ConfigError>)
        ensures
            match refused {
                Some(e) => refusal(contents.spec_bytes()) == Some(e@),
                None => refusal(contents.spec_bytes()) is None,
            },
            refused is None <==> admitted(contents.spec_bytes()),
    {
        let bytes = contents.as_bytes();
        let mut asterisk = false;
        let mut long_line = false;
        let mut run: usize = 0;
        let mut brackets: usize = 0;
        for i in 0..bytes.len()
            invariant
                bytes@ == contents.spec_bytes(),
                run == line_length_at(bytes@, i as int),
                run <= i,
                brackets == brackets_before(bytes@, i as int),
                brackets <= i,
                asterisk <==> exists|j: int| 0 <= j < i && #[trigger] bytes@[j] == 42,
                long_line <==> exists|at: int|
                    0 <= at <= i && #[trigger] line_length_at(bytes@, at) > MAX_LINE_LENGTH,
        {
            let byte = bytes[i];
            if byte == 42 {
                asterisk = true;
            }
            if byte == 10 {
                run = 0;
            } else {
                run = run + 1;
            }
            if byte == 91 || byte == 123 {
                brackets = brackets + 1;
            }
            assert(run == line_length_at(bytes@, i + 1));
            if run > MAX_LINE_LENGTH {
                long_line = true;
            }
            assert(long_line <==> exists|at: int|
                0 <= at <= i + 1 && #[trigger] line_length_at(bytes@, at) > MAX_LINE_LENGTH) by {
                if !long_line {
                    assert forall|at: int| 0 <= at <= i + 1 implies !(#[trigger] line_length_at(
                        bytes@,
                        at,
                    ) > MAX_LINE_LENGTH) by {
                        if at <= i {
                        }
                    }
                }
            }
        }
        if asterisk {
            Some(ConfigError::Alias)
        } else if long_line {
            Some(ConfigError::LineTooLong)
        } else if brackets > MAX_BRACKETS {
            Some(ConfigError::TooManyBrackets)
        } else {
            None
        }
    }

    /// Parses the text of a configuration file into its documents. A text
    /// that holds an asterisk, too long a line or too many opening brackets
    /// is not parsed.
    pub fn load_file(contents: &str) -> (loaded: Result<Vec<Yaml>, ConfigError>)
        ensures
            match loaded {
                Ok(docs) => {
                    &&& admitted(contents.spec_bytes())
                    &&& yaml_stream(contents@) == Some(yaml_documents(docs@))
                },
                Err(e) => match refusal(contents.spec_bytes()) {
                    Some(reason) => e@ == reason,
                    None => yaml_stream(contents@) is None && e@ == ConfigErrorView::Syntax,
                },
            },
    {
        if let Some(reason) = Self::check_text(contents) {
            return Err(reason);
        }
        match load_from_str(contents) {
            Ok(docs) => Ok(docs),
            Err(_) => Err(ConfigError::Syntax),
        }
    }

    /// Makes the jobs that the text of a configuration file configures. A
    /// text that is not loaded (see `check_text`) configures nothing.
    pub fn from_config_file(contents: &str) -> (loaded: Result<Vec<APIClient>, ConfigError>)
        ensures
            loaded_view(loaded) == configured(contents.spec_bytes(), yaml_stream(contents@)),
    {
        match Self::load_file(contents) {
            Ok(docs) => Self::parse_yaml(&docs),
            Err(e) => Err(e),
        }
    }

    /// Builds every request of the job, in the order in which they are
    /// sent: record type by record type, and for each its methods.
    pub fn requests(&self) -> (plan: Vec<Request>)
        ensures
            request_views(plan@) == self@.plan(),
            plan@.len() == self@.records.len() * self@.methods.len(),
    {
        proof {
            use_type_invariant(self);
        }
        let mut plan: Vec<Request> = Vec::new();
        let m = self.methods.len();
        assert(plan@.len() == 0 * m) by {
            vstd::arithmetic::mul::lemma_mul_basics(m as int);
        }
        for i in 0..self.records.len()
            invariant
                m == self.methods@.len(),
                m > 0,
                plan@.len() == i * m,
                forall|k: int| 0 <= k < plan@.len() ==> (#[trigger] plan@[k])@ == self@.plan()[k],
        {
            let record = self.records[i];
            let url = self.protocol.build_url(
                self.server.as_str(),
                self.domain.as_str(),
                record.as_str(),
            );
            for j in 0..m
                invariant
                    m == self.methods@.len(),
                    0 <= i < self.records@.len(),
                    record == self.records@[i as int],
                    url@ == self@.protocol.url(self@.server, self@.domain, record.text()),
                    plan@.len() == i * m + j,
                    forall|k: int|
                        0 <= k < plan@.len() ==> (#[trigger] plan@[k])@ == self@.plan()[k],
            {
                proof {
                    lemma_plan_index(i as int, j as int, m as int, self.records@.len() as int);
                }
                plan.push(Request { method: self.methods[j], record, url: url.clone() });
            }
            assert(i * m + m == (i + 1) * m) by (nonlinear_arith);
        }
        assert(request_views(plan@) =~= self@.plan());
        plan
    }

    /// Decides what is sent for the job, given what the lookup utility
    /// printed for its domain: every request where the record must be
    /// updated, none where it is up to date.
    pub fn make_request(&self, host: &IP, output: &str) -> (sent: Result<Vec<Request>, Error>)
        ensures
            match sent {
                Ok(plan) => Ok::<Seq<RequestView>, ErrorView>(request_views(plan@))
                    == self@.requests_after(host@, output@),
                Err(e) => Err::<Seq<RequestView>, ErrorView>(e@) == self@.requests_after(
                    host@,
                    output@,
                ),
            },
    {
        match host.compare(output) {
            Ok(true) => Ok(self.requests()),
            Ok(false) => {
                let plan: Vec<Request> = Vec::new();
                assert(request_views(plan@) =~= Seq::empty());
                Ok(plan)
            },
            Err(e) => Err(e),
        }
    }
}

/// The place of a request in the plan: the `j`-th method of the `i`-th
/// record type stands at `i * m + j`.
proof fn lemma_plan_index(i: int, j: int, m: int, n: int)
    requires
        0 <= i < n,
        0 <= j < m,
    ensures
        0 <= i * m + j < n * m,
        (i * m + j) / m == i,
        (i * m + j) % m == j,
{
    assert(0 <= i * m + j < n * m) by (nonlinear_arith)
        requires
            0 <= i < n,
            0 <= j < m,
    ;
    vstd::arithmetic::div_mod::lemma_fundamental_div_mod_converse(i * m + j, m, i, j);
}

} // verus!
