//! Errors that the library reports.

use vstd::prelude::*;
use vstd::string::*;

verus! {

/// A field of one configured target.
#[derive(Debug, Clone, Copy, PartialEq, Eq, Structural)]
pub enum Field {
    Username,
    Password,
    Server,
    Domain,
    Methods,
    Records,
}

impl Field {
    /// The key under which the field stands in the configuration.
    pub open spec fn key(self) -> Seq<char> {
        match self {
            Field::Username => "username"@,
            Field::Password => "password"@,
            Field::Server => "server"@,
            Field::Domain => "domain"@,
            Field::Methods => "methods"@,
            Field::Records => "records"@,
        }
    }

    /// The key under which the field stands in the configuration.
    pub fn as_str(&self) -> (key: &'static str)
        ensures
            key@ == self.key(),
    {
        match self {
            Field::Username => "username",
            Field::Password => "password",
            Field::Server => "server",
            Field::Domain => "domain",
            Field::Methods => "methods",
            Field::Records => "records",
        }
    }
}

/// A configuration that cannot be used. It is found before any request is
/// built.
#[derive(Debug, PartialEq, Eq)]
pub enum ConfigError {
    /// The configuration file could not be read.
    Unreadable,
    /// The text holds an asterisk. An asterisk begins a YAML alias, and
    /// aliases are not read.
    Alias,
    /// A line of the text is longer than is read.
    LineTooLong,
    /// The text holds more opening brackets than are read.
    TooManyBrackets,
    /// The text is not well-formed YAML.
    Syntax,
    /// A required field is absent, or is not of the kind it must be.
    MissingField(Field),
    /// A list holds an entry that is not a string.
    MalformedList(Field),
    /// A field that must not be empty is empty.
    EmptyField(Field),
    /// A method other than post, put and delete; the word is kept.
    UnknownMethod(String),
    /// A record type other than a and aaaa; the word is kept.
    UnknownRecord(String),
}

/// The mathematical value of a [`ConfigError`].
pub enum ConfigErrorView {
    Unreadable,
    Alias,
    LineTooLong,
    TooManyBrackets,
    Syntax,
    MissingField(Field),
    MalformedList(Field),
    EmptyField(Field),
    UnknownMethod(Seq<char>),
    UnknownRecord(Seq<char>),
}

impl View for ConfigError {
    type V = ConfigErrorView;

    open spec fn view(&self) -> ConfigErrorView {
        match *self {
            ConfigError::Unreadable => ConfigErrorView::Unreadable,
            ConfigError::Alias => ConfigErrorView::Alias,
            ConfigError::LineTooLong => ConfigErrorView::LineTooLong,
            ConfigError::TooManyBrackets => ConfigErrorView::TooManyBrackets,
            ConfigError::Syntax => ConfigErrorView::Syntax,
            ConfigError::MissingField(f) => ConfigErrorView::MissingField(f),
            ConfigError::MalformedList(f) => ConfigErrorView::MalformedList(f),
            ConfigError::EmptyField(f) => ConfigErrorView::EmptyField(f),
            ConfigError::UnknownMethod(w) => ConfigErrorView::UnknownMethod(w@),
            ConfigError::UnknownRecord(w) => ConfigErrorView::UnknownRecord(w@),
        }
    }
}

impl ConfigErrorView {
    /// The line that reports the error for the configuration file `file`.
    pub open spec fn message(self, file: Seq<char>) -> Seq<char> {
        match self {
            ConfigErrorView::Unreadable => "Could not load config file "@ + file,
            ConfigErrorView::Alias => "'*' is not allowed in "@ + file,
            ConfigErrorView::LineTooLong => "a line is too long in "@ + file,
            ConfigErrorView::TooManyBrackets => "too many '[' or '{' in "@ + file,
            ConfigErrorView::Syntax => "Unable to parse YAML in "@ + file,
            ConfigErrorView::MissingField(f) => match f {
                Field::Methods | Field::Records => "'"@ + f.key() + "' (list) should be in "@
                    + file,
                _ => "'"@ + f.key() + "' should be in "@ + file,
            },
            ConfigErrorView::MalformedList(f) => "could not parse '"@ + f.key() + "' list in "@
                + file,
            ConfigErrorView::EmptyField(f) => "'"@ + f.key() + "' should not be empty in "@
                + file,
            ConfigErrorView::UnknownMethod(w) =>
                "Could not parse methods in config file; must be PUT, POST or DELETE (got '"@
                + w + "')"@,
            ConfigErrorView::UnknownRecord(w) =>
                "Could not parse records in config file; must be A or AAAA (got '"@ + w + "')"@,
        }
    }
}

impl ConfigError {
    /// The line that reports the error for the configuration file `file`.
    pub fn message(&self, file: &str) -> (line: String)
        ensures
            line@ == self@.message(file@),
    {
        match self {
            ConfigError::Unreadable => {
                let mut line = String::from_str("Could not load config file ");
                line.append(file);
                line
            },
            ConfigError::Alias => {
                let mut line = String::from_str("'*' is not allowed in ");
                line.append(file);
                line
            },
            ConfigError::LineTooLong => {
                let mut line = String::from_str("a line is too long in ");
                line.append(file);
                line
            },
            ConfigError::TooManyBrackets => {
                let mut line = String::from_str("too many '[' or '{' in ");
                line.append(file);
                line
            },
            ConfigError::Syntax => {
                let mut line = String::from_str("Unable to parse YAML in ");
                line.append(file);
                line
            },
            ConfigError::MissingField(f) => {
                let mut line = String::from_str("'");
                line.append(f.as_str());
                match f {
                    Field::Methods | Field::Records => line.append("' (list) should be in "),
                    _ => line.append("' should be in "),
                }
                line.append(file);
                line
            },
            ConfigError::MalformedList(f) => {
                let mut line = String::from_str("could not parse '");
                line.append(f.as_str());
                line.append("' list in ");
                line.append(file);
                line
            },
            ConfigError::EmptyField(f) => {
                let mut line = String::from_str("'");
                line.append(f.as_str());
                line.append("' should not be empty in ");
                line.append(file);
                line
            },
            ConfigError::UnknownMethod(w) => {
                let mut line = String::from_str(
                    "Could not parse methods in config file; must be PUT, POST or DELETE (got '",
                );
                line.append(w.as_str());
                line.append("')");
                line
            },
            ConfigError::UnknownRecord(w) => {
                let mut line = String::from_str(
                    "Could not parse records in config file; must be A or AAAA (got '",
                );
                line.append(w.as_str());
                line.append("')");
                line
            },
        }
    }
}

/// What goes wrong while a target is brought up to date. Such an error
/// ends the work on the call that met it and on nothing else.
#[derive(Debug, PartialEq, Eq)]
pub enum Error {
    /// The public-IP service, the DNS lookup or a provider was not reached;
    /// the reason is kept.
    Network(String),
    /// A text that should be an IPv4 address is none; the text is kept.
    Parse(String),
    /// The DNS lookup utility ended abnormally; what it printed is kept.
    Execution(String),
    /// The host's address was needed before it was resolved.
    Unresolved,
}

/// The mathematical value of an [`Error`].
pub enum ErrorView {
    Network(Seq<char>),
    Parse(Seq<char>),
    Execution(Seq<char>),
    Unresolved,
}

impl View for Error {
    type V = ErrorView;

    open spec fn view(&self) -> ErrorView {
        match *self {
            Error::Network(reason) => ErrorView::Network(reason@),
            Error::Parse(text) => ErrorView::Parse(text@),
            Error::Execution(output) => ErrorView::Execution(output@),
            Error::Unresolved => ErrorView::Unresolved,
        }
    }
}

impl ErrorView {
    /// The line that reports the error.
    pub open spec fn message(self) -> Seq<char> {
        match self {
            ErrorView::Network(reason) => "network error: "@ + reason,
            ErrorView::Parse(text) => "invalid IPv4 address syntax: '"@ + text + "'"@,
            ErrorView::Execution(output) => "dig command failed with output: "@ + output,
            ErrorView::Unresolved => "the public IP address is not resolved"@,
        }
    }
}

impl Error {
    /// The line that reports the error.
    pub fn message(&self) -> (line: String)
        ensures
            line@ == self@.message(),
    {
        match self {
            Error::Network(reason) => {
                let mut line = String::from_str("network error: ");
                line.append(reason.as_str());
                line
            },
            Error::Parse(text) => {
                let mut line = String::from_str("invalid IPv4 address syntax: '");
                line.append(text.as_str());
                line.append("'");
                line
            },
            Error::Execution(output) => {
                let mut line = String::from_str("dig command failed with output: ");
                line.append(output.as_str());
                line
            },
            Error::Unresolved => String::from_str("the public IP address is not resolved"),
        }
    }
}

} // verus!
