//! The YAML reader this crate relies on, and what is taken on trust about it.
//!
//! A [`Yaml`] node is opaque here. What the verified code knows of one is what
//! the accessors below say of it; nothing is said of how a text maps to
//! nodes. Before a text is loaded, the reader's own parser says how deep its
//! nodes nest: it reports a text event by event and, unlike the loader, does
//! not call itself for a collection within another.

use crate::nesting::{depth_of, NESTING_LIMIT};
use std::vec::IntoIter;
use vstd::prelude::*;
use yaml_rust::parser;
use yaml_rust::parser::Parser;
use yaml_rust::scanner::ScanError;
use yaml_rust::{Yaml, YamlLoader};

verus! {

/// A parsed YAML node.
#[verifier::external_type_specification]
#[verifier::external_body]
pub struct ExYaml(Yaml);

/// The error of a text that is not YAML.
#[verifier::external_type_specification]
#[verifier::external_body]
pub struct ExScanError(ScanError);

/// The reader's parser, part of the way through a text.
#[verifier::external_type_specification]
#[verifier::external_body]
#[verifier::reject_recursive_types(T)]
pub struct ExParser<T>(Parser<T>);

/// What the parser reports of a text, as far as the nesting of its nodes
/// goes. An anchor of zero is none.
#[derive(Clone, Copy, Debug, PartialEq, Eq, Structural)]
pub enum Event {
    /// A sequence or a mapping begins.
    Open { anchor: usize },
    /// The sequence or mapping that began last and has not ended, ends.
    Close,
    /// A scalar.
    Leaf { anchor: usize },
    /// The node that was read under this anchor, once more.
    Alias { anchor: usize },
    /// The stream begins, or a document begins or ends.
    Mark,
    /// The stream ends.
    End,
    /// The text is not YAML from here on.
    Failed,
}

/// The events that the parser reports of a text, up to the end of the stream
/// or to the first failure.
pub uninterp spec fn yaml_events(text: Seq<char>) -> Seq<Event>;

/// The events that a parser has yet to report.
pub uninterp spec fn events_left(parser: Parser<IntoIter<char>>) -> Seq<Event>;

/// `Parser::new`, on the characters of `text`: a parser that has all the
/// events of the text to report, of which there is at least one.
#[verifier::external_body]
pub(crate) fn parser_of(text: &str) -> (parser: Parser<IntoIter<char>>)
    ensures
        events_left(parser) == yaml_events(text@),
        events_left(parser).len() > 0,
{
    Parser::new(text.chars().collect::<Vec<char>>().into_iter())
}

/// `Parser::next`: the next event. The last event, and only the last, is the
/// end of the stream or a failure.
#[verifier::external_body]
pub(crate) fn next_event(source: &mut Parser<IntoIter<char>>) -> (event: Event)
    requires
        events_left(*old(source)).len() > 0,
    ensures
        event == events_left(*old(source))[0],
        events_left(*final(source)) == events_left(*old(source)).skip(1),
        (event is End || event is Failed) <==> events_left(*final(source)).len() == 0,
{
    match source.next() {
        Err(_) => Event::Failed,
        Ok((parser::Event::SequenceStart(anchor), _)) => Event::Open { anchor },
        Ok((parser::Event::MappingStart(anchor), _)) => Event::Open { anchor },
        Ok((parser::Event::SequenceEnd | parser::Event::MappingEnd, _)) => Event::Close,
        Ok((parser::Event::Scalar(_, _, anchor, _), _)) => Event::Leaf { anchor },
        Ok((parser::Event::Alias(anchor), _)) => Event::Alias { anchor },
        Ok((parser::Event::StreamEnd, _)) => Event::End,
        Ok(_) => Event::Mark,
    }
}

/// The documents that the loader reads from a text, `None` where it reports
/// an error.
pub uninterp spec fn yaml_documents(text: Seq<char>) -> Option<Seq<Yaml>>;

/// The node found under a string key of a node.
pub uninterp spec fn yaml_member(node: Yaml, key: Seq<char>) -> Yaml;

/// The items of a node that is an array, `None` for any other node.
pub uninterp spec fn yaml_items(node: Yaml) -> Option<Seq<Yaml>>;

/// The text of a node that is a string, `None` for any other node.
pub uninterp spec fn yaml_text(node: Yaml) -> Option<Seq<char>>;

/// `YamlLoader::load_from_str`: reads every document of `text`, or reports
/// the first place where it is not YAML. Claimed: the outcome depends on the
/// text alone.
///
/// The loader calls itself once for each collection within another, and so
/// do the clone, the hash and the drop of a node. It is fed by the same
/// parser and reads the events of [`yaml_events`], or fewer where it refuses
/// an alias to an anchor of an earlier document, so [`depth_of`] counts
/// those calls, and the precondition keeps them at or below
/// [`NESTING_LIMIT`]. Assumed: the stack of the calling thread has room for
/// that many.
#[verifier::external_body]
pub(crate) fn load_documents(text: &str) -> (loaded: Result<Vec<Yaml>, ScanError>)
    requires
        depth_of(yaml_events(text@)) <= NESTING_LIMIT,
    ensures
        match loaded {
            Ok(documents) => yaml_documents(text@) == Some(documents@),
            Err(_) => yaml_documents(text@) is None,
        },
{
    YamlLoader::load_from_str(text)
}

/// `Yaml`'s `Index<&str>`: the value that a hash node stores under the string
/// `key`; the bad-value node where `node` is no hash or has no such key.
/// Claimed: the node handed back depends on `node` and `key` alone.
#[verifier::external_body]
pub(crate) fn member<'a>(node: &'a Yaml, key: &str) -> (found: &'a Yaml)
    ensures
        *found == yaml_member(*node, key@),
{
    &node[key]
}

/// `Yaml::as_vec`: the items of `node` where it is an array, else `None`.
#[verifier::external_body]
pub(crate) fn items(node: &Yaml) -> (found: Option<&Vec<Yaml>>)
    ensures
        match found {
            Some(list) => yaml_items(*node) == Some(list@),
            None => yaml_items(*node) is None,
        },
{
    node.as_vec()
}

/// `Yaml::as_str`: the text of `node` where it is a string, else `None`.
#[verifier::external_body]
pub(crate) fn text(node: &Yaml) -> (found: Option<&str>)
    ensures
        match found {
            Some(string) => yaml_text(*node) == Some(string@),
            None => yaml_text(*node) is None,
        },
{
    node.as_str()
}

} // verus!
