//! Change detection: the host's public address against the address that a
//! domain's DNS record publishes.

use vstd::prelude::*;
use vstd::string::*;
use crate::error::{Error, ErrorView};
use crate::ipv4::Ipv4Addr;
use crate::logging::{LogEntry, LogLevel};

verus! {

/// The echo service that answers with the caller's public IPv4 address.
pub const V4_URL: &'static str = "https://api4.ipify.org";

/// A text without the line break at its end: one line feed is taken away,
/// and a carriage return before it.
pub open spec fn trimmed(s: Seq<char>) -> Seq<char> {
    if s.len() > 0 && s.last() == '\n' {
        let rest = s.drop_last();
        if rest.len() > 0 && rest.last() == '\r' {
            rest.drop_last()
        } else {
            rest
        }
    } else {
        s
    }
}

/// The part of `s` before the line break at its end.
pub fn trimmed_str(s: &str) -> (rest: &str)
    ensures
        rest@ == trimmed(s@),
{
    let n = s.unicode_len();
    if n > 0 && s.get_char(n - 1) == '\n' {
        assert(s@.subrange(0, n - 1) =~= s@.drop_last());
        if n > 1 && s.get_char(n - 2) == '\r' {
            assert(s@.subrange(0, n - 2) =~= s@.drop_last().drop_last());
            s.substring_char(0, n - 2)
        } else {
            s.substring_char(0, n - 1)
        }
    } else {
        s
    }
}

/// Takes the line break at the end of `s` away.
pub fn trim_newline(s: &mut String)
    ensures
        final(s)@ == trimmed(old(s)@),
{
    let rest = String::from_str(trimmed_str(s.as_str()));
    *s = rest;
}

/// The command that asks the DNS for the address of `domain`.
pub open spec fn lookup_command_text(domain: Seq<char>) -> Seq<char> {
    "dig +short "@ + domain
}

/// The address that the lookup utility reports: none where it prints
/// nothing, else the address that its output, without the line break at
/// its end, denotes. Output that denotes no address is an error.
pub open spec fn published_record(output: Seq<char>) -> Result<Option<Ipv4Addr>, ErrorView> {
    let text = trimmed(output);
    if text.len() == 0 {
        Ok(None)
    } else {
        match Ipv4Addr::parse(text) {
            Some(ip) => Ok(Some(ip)),
            None => Err(ErrorView::Parse(text)),
        }
    }
}

/// Whether the record of a domain must be updated: it must where none is
/// published, and where the published address is not the host's.
pub open spec fn needs_update(actual: Ipv4Addr, published: Option<Ipv4Addr>) -> bool {
    match published {
        None => true,
        Some(record) => record != actual,
    }
}

/// The decision for a host whose address may not be resolved yet.
pub open spec fn compared(actual: Option<Ipv4Addr>, output: Seq<char>) -> Result<bool, ErrorView> {
    match actual {
        None => Err(ErrorView::Unresolved),
        Some(host) => match published_record(output) {
            Ok(record) => Ok(needs_update(host, record)),
            Err(e) => Err(e),
        },
    }
}

/// What is logged once the lookup utility has answered for a domain.
pub open spec fn lookup_message(text: Seq<char>, domain: Seq<char>) -> Seq<char> {
    "dig returned IP address: '"@ + text + "' for domain: '"@ + domain + "'"@
}

/// What is logged once the host's address is resolved.
pub open spec fn resolved_message(actual: Ipv4Addr) -> Seq<char> {
    "ipify returned IP address: '"@ + actual.text() + "'"@
}

/// What is logged once the record of a domain is compared.
pub open spec fn change_message(actual: Ipv4Addr, changed: bool) -> Seq<char> {
    if changed {
        "IP address changed: New IP: "@ + actual.text()
    } else {
        "IP address did not change"@
    }
}

/// The value of a result whose error is an [`Error`].
pub open spec fn outcome_view<T>(outcome: Result<T, Error>) -> Result<T, ErrorView> {
    match outcome {
        Ok(value) => Ok(value),
        Err(e) => Err(e@),
    }
}

/// The host's public address, resolved at most once.
#[derive(Debug)]
pub struct IP {
    actual: Option<Ipv4Addr>,
}

impl View for IP {
    type V = Option<Ipv4Addr>;

    closed spec fn view(&self) -> Option<Ipv4Addr> {
        self.actual
    }
}

impl IP {
    /// The state before the address is resolved.
    pub fn new() -> (ip: IP)
        ensures
            ip@ is None,
    {
        IP { actual: None }
    }

    /// The host's address, once it is resolved.
    pub fn actual(&self) -> (actual: Option<Ipv4Addr>)
        ensures
            actual == self@,
    {
        self.actual
    }

    /// The command that asks the DNS for the address of `domain`.
    pub fn lookup_command(domain: &str) -> (command: String)
        ensures
            command@ == lookup_command_text(domain@),
    {
        let mut command = String::from_str("dig +short ");
        command.append(domain);
        command
    }

    /// Reads what the lookup utility printed for a domain.
    pub fn get_previous_ip(output: &str) -> (published: Result<Option<Ipv4Addr>, Error>)
        ensures
            outcome_view(published) == published_record(output@),
    {
        let text = trimmed_str(output);
        if text.unicode_len() == 0 {
            return Ok(None);
        }
        match Ipv4Addr::from_str(text) {
            Some(ip) => Ok(Some(ip)),
            None => Err(Error::Parse(String::from_str(text))),
        }
    }

    /// Decides whether a record must be updated.
    pub fn changed(actual: Ipv4Addr, published: Option<Ipv4Addr>) -> (changed: bool)
        ensures
            changed == needs_update(actual, published),
    {
        match published {
            None => true,
            Some(record) => record != actual,
        }
    }

    /// Compares the address that a domain publishes, as the lookup utility
    /// printed it, with the host's address: `true` where the record must be
    /// updated.
    pub fn compare(&self, output: &str) -> (changed: Result<bool, Error>)
        ensures
            outcome_view(changed) == compared(self@, output@),
    {
        let host = match self.actual {
            Some(host) => host,
            None => {
                return Err(Error::Unresolved);
            },
        };
        match Self::get_previous_ip(output) {
            Ok(record) => Ok(Self::changed(host, record)),
            Err(e) => Err(e),
        }
    }

    /// Takes the answer of the echo service as the host's address, unless
    /// the address is resolved already: then nothing changes, whatever the
    /// answer is.
    pub fn set_actual(&mut self, answer: &str) -> (done: Result<(), Error>)
        ensures
            match old(self)@ {
                Some(_) => done is Ok && final(self)@ == old(self)@,
                None => match Ipv4Addr::parse(answer@) {
                    Some(ip) => done is Ok && final(self)@ == Some(ip),
                    None => outcome_view(done) == Err::<(), ErrorView>(ErrorView::Parse(answer@))
                        && final(self)@ is None,
                },
            },
    {
        if self.actual.is_none() {
            match Ipv4Addr::from_str(answer) {
                Some(ip) => {
                    self.actual = Some(ip);
                },
                None => {
                    return Err(Error::Parse(String::from_str(answer)));
                },
            }
        }
        Ok(())
    }

    /// The entry that reports what the lookup utility printed for a
    /// domain, without the line break at its end.
    pub fn lookup_report(output: &str, domain: &str) -> (entry: LogEntry)
        ensures
            entry.level == LogLevel::DEBUG,
            entry.message@ == lookup_message(trimmed(output@), domain@),
    {
        let mut message = String::from_str("dig returned IP address: '");
        message.append(trimmed_str(output));
        message.append("' for domain: '");
        message.append(domain);
        message.append("'");
        LogEntry { level: LogLevel::DEBUG, message }
    }

    /// The entry that reports the host's address once it is resolved.
    pub fn resolved_report(actual: Ipv4Addr) -> (entry: LogEntry)
        ensures
            entry.level == LogLevel::DEBUG,
            entry.message@ == resolved_message(actual),
    {
        let mut message = String::from_str("ipify returned IP address: '");
        message.append(actual.to_string().as_str());
        message.append("'");
        LogEntry { level: LogLevel::DEBUG, message }
    }

    /// The entry that reports a comparison: a change as information with
    /// the host's address, no change for debugging.
    pub fn change_report(actual: Ipv4Addr, changed: bool) -> (entry: LogEntry)
        ensures
            entry.level == if changed {
                LogLevel::INFO
            } else {
                LogLevel::DEBUG
            },
            entry.message@ == change_message(actual, changed),
    {
        if changed {
            let mut message = String::from_str("IP address changed: New IP: ");
            message.append(actual.to_string().as_str());
            LogEntry { level: LogLevel::INFO, message }
        } else {
            LogEntry {
                level: LogLevel::DEBUG,
                message: String::from_str("IP address did not change"),
            }
        }
    }

    /// Where no record is published, the record must be updated, whatever
    /// the host's address is.
    pub proof fn lemma_missing_record_needs_update(actual: Ipv4Addr, output: Seq<char>)
        ensures
            needs_update(actual, None),
            trimmed(output).len() == 0 ==> compared(Some(actual), output) == Ok::<bool, ErrorView>(
                true,
            ),
    {
    }

    /// Where a record is published, it must be updated exactly if its
    /// address is not the host's.
    pub proof fn lemma_published_record_needs_update(actual: Ipv4Addr, record: Ipv4Addr)
        ensures
            needs_update(actual, Some(record)) <==> record != actual,
            compared(Some(actual), record.text()) == Ok::<bool, ErrorView>(record != actual),
    {
        Ipv4Addr::lemma_text_len(record);
        Ipv4Addr::lemma_format_then_parse(record);
        crate::ipv4::lemma_text_has_no_line_feed(record);
    }
}

} // verus!
