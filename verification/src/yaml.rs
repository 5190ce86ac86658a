//! Reading YAML documents through the `yaml_rust` crate.
//!
//! A document is kept as the crate gives it. What the library reads of it
//! are the fields of its top-level mapping: those whose value is a string
//! scalar, and those whose value is a sequence.
//!
//! The loader calls itself once for each level of nesting, so a text is
//! loaded only where its nesting is bounded: see [`admitted`].

use vstd::prelude::*;
use vstd::string::*;
use yaml_rust::{ScanError, Yaml, YamlLoader};

verus! {

/// `yaml_rust::Yaml`, one node of a document; nothing inside it is seen.
#[verifier::external_type_specification]
#[verifier::external_body]
pub struct ExYaml(Yaml);

/// `yaml_rust::ScanError`, the place where a text stops being YAML;
/// nothing inside it is seen.
#[verifier::external_type_specification]
#[verifier::external_body]
pub struct ExScanError(ScanError);

/// The longest line that a text may have to be loaded, in bytes.
pub const MAX_LINE_LENGTH: usize = 128;

/// The most opening brackets, `[` and `{`, that a text may hold to be
/// loaded.
pub const MAX_BRACKETS: usize = 64;

/// The number of bytes between the last line feed before `at` and `at`:
/// how long the line is that reaches up to there.
pub open spec fn line_length_at(bytes: Seq<u8>, at: int) -> int
    decreases at,
{
    if at <= 0 {
        0
    } else if bytes[at - 1] == 10 {
        0
    } else {
        line_length_at(bytes, at - 1) + 1
    }
}

/// Whether a text holds an asterisk.
pub open spec fn has_asterisk(bytes: Seq<u8>) -> bool {
    exists|i: int| 0 <= i < bytes.len() && #[trigger] bytes[i] == 42
}

/// Whether a line of a text is longer than [`MAX_LINE_LENGTH`].
pub open spec fn has_long_line(bytes: Seq<u8>) -> bool {
    exists|at: int| 0 <= at <= bytes.len() && #[trigger] line_length_at(bytes, at) > MAX_LINE_LENGTH
}

/// The number of opening brackets, `[` and `{`, among the first `at` bytes.
pub open spec fn brackets_before(bytes: Seq<u8>, at: int) -> int
    decreases at,
{
    if at <= 0 {
        0
    } else if bytes[at - 1] == 91 || bytes[at - 1] == 123 {
        brackets_before(bytes, at - 1) + 1
    } else {
        brackets_before(bytes, at - 1)
    }
}

/// Whether a text holds more than [`MAX_BRACKETS`] opening brackets.
pub open spec fn has_many_brackets(bytes: Seq<u8>) -> bool {
    brackets_before(bytes, bytes.len() as int) > MAX_BRACKETS
}

/// Whether a text, given by its bytes, is loaded: it holds no asterisk,
/// none of its lines is longer than [`MAX_LINE_LENGTH`], and it holds no
/// more than [`MAX_BRACKETS`] opening brackets.
pub open spec fn admitted(bytes: Seq<u8>) -> bool {
    !has_asterisk(bytes) && !has_long_line(bytes) && !has_many_brackets(bytes)
}

/// The string fields of a document: each string key of its top-level
/// mapping whose value is a string scalar, with that string. Empty where
/// the document is no mapping.
pub uninterp spec fn yaml_strings(doc: Yaml) -> Map<Seq<char>, Seq<char>>;

/// The list fields of a document: each string key of its top-level mapping
/// whose value is a sequence, with the entries of that sequence in order.
/// An entry that is a string scalar stands as its text, any other as `None`.
pub uninterp spec fn yaml_lists(doc: Yaml) -> Map<Seq<char>, Seq<Option<Seq<char>>>>;

/// What the library reads of one document.
pub open spec fn yaml_fields(doc: Yaml) -> (
    Map<Seq<char>, Seq<char>>,
    Map<Seq<char>, Seq<Option<Seq<char>>>>,
) {
    (yaml_strings(doc), yaml_lists(doc))
}

/// What the library reads of each document of a stream.
pub open spec fn yaml_documents(docs: Seq<Yaml>) -> Seq<
    (Map<Seq<char>, Seq<char>>, Map<Seq<char>, Seq<Option<Seq<char>>>>),
> {
    docs.map_values(|d: Yaml| yaml_fields(d))
}

/// The fields of the documents that `YamlLoader::load_from_str` finds in a
/// text, in order; `None` where it reports a scan error.
pub uninterp spec fn yaml_stream(source: Seq<char>) -> Option<
    Seq<(Map<Seq<char>, Seq<char>>, Map<Seq<char>, Seq<Option<Seq<char>>>>)>,
>;

/// `YamlLoader::load_from_str` parses a text into its documents, or reports
/// where the text stops being YAML. The result depends on the text alone,
/// which is all that is claimed of it.
///
/// The loader calls itself for each level of nesting, and the documents it
/// returns are cloned and dropped level by level, so a text that nests too
/// deep ends the process. The texts that are [`admitted`] nest no deeper
/// than twice `MAX_LINE_LENGTH` plus twice `MAX_BRACKETS` levels. The
/// parser opens a collection in six places, and nowhere else:
/// - at a block sequence or block mapping token: the scanner makes one only
///   at a column to the right of the collection around it, and it counts
///   columns from the last line feed, so no more block collections are
///   open at once than a line has characters, and a line has no more
///   characters than bytes;
/// - at a sequence entry that stands as the key or the value of a block
///   mapping, without a column of its own: at most one for each block
///   mapping;
/// - at a flow sequence or flow mapping token: the scanner makes one for
///   each opening bracket;
/// - at the key of a single pair inside a flow sequence: at most one for
///   each flow sequence.
///
/// Only an asterisk begins an alias, and without aliases the documents
/// nest as the text does.
#[verifier::external_body]
pub(crate) fn load_from_str(source: &str) -> (loaded: Result<Vec<Yaml>, ScanError>)
    requires
        admitted(source.spec_bytes()),
    ensures
        match loaded {
            Ok(docs) => yaml_stream(source@) == Some(yaml_documents(docs@)),
            Err(_) => yaml_stream(source@) is None,
        },
{
    YamlLoader::load_from_str(source)
}

/// `doc[key].as_str()`: indexing a `Yaml` by a string looks the key up in
/// the mapping and gives `BadValue` where the document is no mapping or has
/// no such key; `as_str` gives the text of a string scalar and `None` for
/// every other node.
#[verifier::external_body]
pub(crate) fn string_field(doc: &Yaml, key: &str) -> (value: Option<String>)
    ensures
        value is Some <==> yaml_strings(*doc).contains_key(key@),
        value matches Some(s) ==> s@ == yaml_strings(*doc)[key@],
{
    match doc[key].as_str() {
        Some(s) => Some(s.to_owned()),
        None => None,
    }
}

/// `doc[key].as_vec()`: indexing as for `string_field`; `as_vec` gives the
/// entries of a sequence and `None` for every other node. Each entry is
/// handed out as `as_str` reads it.
#[verifier::external_body]
pub(crate) fn list_field(doc: &Yaml, key: &str) -> (value: Option<Vec<Option<String>>>)
    ensures
        value is Some <==> yaml_lists(*doc).contains_key(key@),
        value matches Some(v) ==> v.deep_view() == yaml_lists(*doc)[key@],
{
    match doc[key].as_vec() {
        Some(v) => Some(v.iter().map(|y| y.as_str().map(|s| s.to_owned())).collect()),
        None => None,
    }
}

} // verus!
