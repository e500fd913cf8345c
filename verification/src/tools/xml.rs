//! The XML reader the suite files are read with: `quick_xml`'s reader and
//! its events, in plain values.
use quick_xml::events::Event::{CData, Eof, End, Start, Text};
use vstd::prelude::*;

use self::XmlEvent::{
    End as XmlEnd, Eof as XmlEof, Error as XmlError, Other as XmlOther, Start as XmlStart,
    Text as XmlText,
};

verus! {

#[verifier::external_type_specification]
#[verifier::external_body]
#[verifier::reject_recursive_types(R)]
pub struct ExXmlReader<R>(quick_xml::Reader<R>);

/// One event of an XML reader, in plain values.
#[derive(Debug, Clone)]
pub enum XmlEvent {
    /// A start tag: its name's bytes and its attributes in order, each its
    /// key's bytes and its decoded, unescaped value (`None` where the value
    /// could not be decoded), or `None` for an attribute that could not be
    /// read.
    Start(Vec<u8>, Vec<Option<(Vec<u8>, Option<String>)>>),
    /// An end tag's name.
    End(Vec<u8>),
    /// Text or CDATA content, decoded; `None` where decoding failed.
    Text(Option<String>),
    Eof,
    /// The reader's error message.
    Error(String),
    /// Any other event: empty-element tags, comments, declarations,
    /// processing instructions, doctypes and entity references.
    Other,
}

/// `XmlEvent` over bytes and characters.
pub enum XmlEventView {
    Start(Seq<u8>, Seq<Option<(Seq<u8>, Option<Seq<char>>)>>),
    End(Seq<u8>),
    Text(Option<Seq<char>>),
    Eof,
    Error(Seq<char>),
    Other,
}

pub open spec fn opt_view(s: Option<String>) -> Option<Seq<char>> {
    match s {
        Some(t) => Some(t@),
        None => None,
    }
}

pub open spec fn attr_view(a: Option<(Vec<u8>, Option<String>)>) -> Option<(Seq<u8>, Option<Seq<char>>)> {
    match a {
        Some((k, v)) => Some((k@, opt_view(v))),
        None => None,
    }
}

impl View for XmlEvent {
    type V = XmlEventView;

    open spec fn view(&self) -> XmlEventView {
        match self {
            XmlEvent::Start(name, attrs) => XmlEventView::Start(
                name@,
                attrs@.map_values(|a: Option<(Vec<u8>, Option<String>)>| attr_view(a)),
            ),
            XmlEvent::End(name) => XmlEventView::End(name@),
            XmlEvent::Text(t) => XmlEventView::Text(opt_view(*t)),
            XmlEvent::Eof => XmlEventView::Eof,
            XmlEvent::Error(m) => XmlEventView::Error(m@),
            XmlEvent::Other => XmlEventView::Other,
        }
    }
}

/// The event that a `quick_xml` reader made by `Reader::from_str` over
/// `text`, with `Config::trim_text` set to `trim_text` before the first
/// read, hands out from its `index`-th call of `Reader::read_event` (from 0),
/// as an `XmlEvent` seen by its view. The reader's events are a function of
/// the text and that setting alone.
pub uninterp spec fn xml_event(text: Seq<char>, trim_text: bool, index: nat) -> XmlEventView;

/// A `quick_xml` reader over a text, with the text, whether text trimming
/// is on, and how many events it has handed out, kept as ghost state. Only
/// `xml_reader` makes one, so the ghost state always describes the reader.
pub struct XmlCursor<'a> {
    reader: quick_xml::Reader<&'a [u8]>,
    text: Ghost<Seq<char>>,
    trimmed: Ghost<bool>,
    read: Ghost<nat>,
}

impl<'a> XmlCursor<'a> {
    /// The text being read.
    pub closed spec fn text(&self) -> Seq<char> {
        self.text@
    }

    /// Whether text trimming is on.
    pub closed spec fn trimmed(&self) -> bool {
        self.trimmed@
    }

    /// How many events the reader has handed out.
    pub closed spec fn read(&self) -> nat {
        self.read@
    }
}

/// `Reader::from_str` of `quick_xml`: a reader over the text, with
/// trimming off and no event read yet.
#[verifier::external_body]
pub(crate) fn xml_reader<'a>(xml: &'a str) -> (r: XmlCursor<'a>)
    ensures
        r.text() == xml@,
        !r.trimmed(),
        r.read() == 0,
{
    XmlCursor {
        reader: quick_xml::Reader::from_str(xml),
        text: Ghost(xml@),
        trimmed: Ghost(false),
        read: Ghost(0),
    }
}

/// `Config::trim_text(true)` on the reader's configuration, before the
/// first read: white space around text content is dropped.
#[verifier::external_body]
pub(crate) fn xml_trim_text(cursor: &mut XmlCursor)
    requires
        old(cursor).read() == 0,
    ensures
        final(cursor).text() == old(cursor).text(),
        final(cursor).trimmed(),
        final(cursor).read() == 0,
{
    cursor.reader.config_mut().trim_text(true);
}

/// `Reader::read_event` of `quick_xml`, its event turned into an
/// `XmlEvent`: a start tag's attributes each unescaped with
/// `Attribute::unescape_value` (the reader decodes UTF-8, so this is its
/// `decode_and_unescape_value`), text and CDATA with `decode`. It is the
/// event `xml_event` names for the reader's text, setting and count, and the
/// count goes up by one.
#[verifier::external_body]
pub(crate) fn xml_next_event(cursor: &mut XmlCursor) -> (ev: XmlEvent)
    ensures
        ev@ == xml_event(old(cursor).text(), old(cursor).trimmed(), old(cursor).read()),
        final(cursor).text() == old(cursor).text(),
        final(cursor).trimmed() == old(cursor).trimmed(),
        final(cursor).read() == old(cursor).read() + 1,
{
    match cursor.reader.read_event() {
        Ok(Start(e)) => XmlStart(e.name().0.to_vec(), e.attributes().map(|a| a.ok().map(|a|
            (a.key.0.to_vec(), a.unescape_value().ok().map(String::from)))).collect()),
        Ok(End(e)) => XmlEnd(e.name().0.to_vec()),
        Ok(Text(e)) => XmlText(e.decode().ok().map(String::from)),
        Ok(CData(e)) => XmlText(e.decode().ok().map(String::from)),
        Ok(Eof) => XmlEof,
        Err(err) => XmlError(err.to_string()),
        _ => XmlOther,
    }
}


} // verus!
