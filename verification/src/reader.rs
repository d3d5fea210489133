//! The event reader: the one place where the markup itself is read.
//!
//! The reader is the `xml` crate's pull parser over the bytes of a document.
//! Nothing here is proved of it; the contracts below say what the rest of the
//! library takes from it on trust.

use vstd::prelude::*;
use crate::events::{outcome_view, Event, Position, Pull};

verus! {

/// How the reader treats text and comments.
#[derive(Clone, Copy, Debug, PartialEq, Eq, Structural)]
pub struct ReaderOptions {
    /// Drop whitespace around text, and text that is whitespace only.
    pub trim_whitespace: bool,
    /// Report whitespace as text.
    pub whitespace_to_characters: bool,
    /// Report CDATA sections as text.
    pub cdata_to_characters: bool,
    /// Report no comments.
    pub ignore_comments: bool,
    /// Merge adjacent pieces of text into one event.
    pub coalesce_characters: bool,
}

impl ReaderOptions {
    /// The options a manifest is read with: layout whitespace and comments
    /// never reach the parser, and every run of text arrives as one event.
    pub open spec fn for_manifest() -> ReaderOptions {
        ReaderOptions {
            trim_whitespace: true,
            whitespace_to_characters: true,
            cdata_to_characters: true,
            ignore_comments: true,
            coalesce_characters: true,
        }
    }

    /// The options a manifest is read with.
    pub fn manifest() -> (options: ReaderOptions)
        ensures
            options == ReaderOptions::for_manifest(),
    {
        ReaderOptions {
            trim_whitespace: true,
            whitespace_to_characters: true,
            cdata_to_characters: true,
            ignore_comments: true,
            coalesce_characters: true,
        }
    }
}

/// A pull parser over the bytes of one document.
#[verifier::external_body]
pub struct Reader<'a> {
    inner: xml::reader::EventReader<&'a [u8]>,
}

/// The answers a reader with `options` gives for a document of `contents`,
/// from the first up to the one that ends the document or reports ill-formed
/// markup.
pub uninterp spec fn document_pulls(contents: Seq<u8>, options: ReaderOptions) -> Seq<Pull>;

/// The answers `reader` has yet to give, up to the one that ends the document
/// or reports ill-formed markup.
pub uninterp spec fn upcoming(reader: Reader) -> Seq<Pull>;

/// The position `reader` reports: that of the last event it gave.
pub uninterp spec fn reported_position(reader: Reader) -> Position;

/// `xml::reader::EventReader::new_with_config` on a byte slice, with a
/// configuration built from `options`. Trusted: the new reader's answers are
/// those of a document of these bytes read with these options.
#[verifier::external_body]
pub(crate) fn open_reader<'a>(contents: &'a [u8], options: &ReaderOptions) -> (reader: Reader<'a>)
    ensures
        upcoming(reader) == document_pulls(contents@, *options),
{
    let config = xml::reader::ParserConfig::new()
        .trim_whitespace(options.trim_whitespace)
        .whitespace_to_characters(options.whitespace_to_characters)
        .cdata_to_characters(options.cdata_to_characters)
        .ignore_comments(options.ignore_comments)
        .coalesce_characters(options.coalesce_characters);
    Reader { inner: xml::reader::EventReader::new_with_config(contents, config) }
}

/// `xml::reader::EventReader::next`. Trusted: the reader always has an answer
/// to give and gives the first of them; it then reports that answer's
/// position; and unless the answer was the last, the answers that remain are
/// the rest. An element's local name is kept, its prefix, namespace and
/// attributes are dropped; an error is kept as the text it displays as.
#[verifier::external_body]
pub(crate) fn next_event(reader: &mut Reader) -> (pulled: Result<Event, String>)
    ensures
        upcoming(*old(reader)).len() > 0,
        outcome_view(pulled) == upcoming(*old(reader))[0].outcome,
        reported_position(*final(reader)) == upcoming(*old(reader))[0].position,
        !upcoming(*old(reader))[0].is_last() ==> upcoming(*final(reader)) == upcoming(
            *old(reader),
        ).skip(1),
{
    match reader.inner.next() {
        Ok(xml::reader::XmlEvent::StartDocument { .. }) => Ok(Event::StartDocument),
        Ok(xml::reader::XmlEvent::EndDocument) => Ok(Event::EndDocument),
        Ok(xml::reader::XmlEvent::StartElement { name, .. }) => Ok(
            Event::StartElement { name: name.local_name },
        ),
        Ok(xml::reader::XmlEvent::EndElement { .. }) => Ok(Event::EndElement),
        Ok(xml::reader::XmlEvent::Characters(text)) => Ok(Event::Characters(text)),
        Ok(_) => Ok(Event::Other),
        Err(error) => Err(error.to_string()),
    }
}

/// `xml::common::Position::position` of the reader. Trusted: it is the
/// position the reader reports.
#[verifier::external_body]
pub(crate) fn position(reader: &Reader) -> (at: Position)
    ensures
        at == reported_position(*reader),
{
    let at = xml::common::Position::position(&reader.inner);
    Position { row: at.row, column: at.column }
}

} // verus!
