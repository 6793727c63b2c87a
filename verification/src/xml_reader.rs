//! The boundary to the external XML token source: quick_xml's pull-based
//! tokenizer, taken as a given primitive. Each trusted item below carries the
//! one call it relies on; everything that the tokens mean is decided by the
//! verified state machine, which takes them as arguments.

use vstd::prelude::*;

use quick_xml::events::Event;
use quick_xml::Reader;

use crate::errors::{Error, ErrorV};
use crate::streaming::Token;

verus! {

#[verifier::external_type_specification]
#[verifier::external_body]
#[verifier::reject_recursive_types(R)]
pub struct ExReader<R>(Reader<R>);

#[verifier::external_type_specification]
#[verifier::external_body]
pub struct ExEvent<'a>(Event<'a>);

/// The variant of a tokenizer event, as the library's own case distinction.
pub enum EventKind {
    StartTag,
    EmptyTag,
    EndTag,
    TextData,
    EofEvent,
    OtherEvent,
}

/// Relies on quick_xml's `Reader::from_str` and `Config::trim_text`: a
/// tokenizer over the whole text, with text events trimmed of surrounding
/// whitespace.
#[verifier::external_body]
fn reader_from_str<'a>(s: &'a str) -> (r: Reader<&'a [u8]>) {
    let mut r = Reader::from_str(s);
    r.config_mut().trim_text(true);
    r
}

/// Relies on quick_xml's `Reader::read_event`: the next structural event of
/// the document; the tokenizer's own failure — a malformed byte stream or
/// tag structure — is fatal, and surfaces as nothing but a `ParsingError`
/// carrying the tokenizer's message.
#[verifier::external_body]
fn read_event<'a>(r: &mut Reader<&'a [u8]>) -> (e: Result<Event<'a>, Error>)
    ensures
        e matches Err(err) ==> err.deep_view() matches ErrorV::ParsingError(m)
            && "XML reading error: "@.is_prefix_of(m),
{
    r.read_event().map_err(|err| Error::ParsingError(format!("XML reading error: {}", err)))
}

/// Tells the tokenizer's event variants apart; a pure case distinction on
/// quick_xml's `Event`, moving nothing.
#[verifier::external_body]
fn event_kind(e: &Event<'_>) -> (k: EventKind) {
    match e {
        Event::Start(_) => EventKind::StartTag,
        Event::Empty(_) => EventKind::EmptyTag,
        Event::End(_) => EventKind::EndTag,
        Event::Text(_) => EventKind::TextData,
        Event::GeneralRef(_) => EventKind::TextData,
        Event::Eof => EventKind::EofEvent,
        _ => EventKind::OtherEvent,
    }
}

/// Relies on quick_xml's `BytesStart::local_name`/`BytesEnd::local_name`:
/// the tag's name with any namespace prefix stripped, or `None` where the
/// event carries no name.
#[verifier::external_body]
fn event_local_name(e: &Event<'_>) -> (n: Option<String>) {
    match e {
        Event::Start(b) => Some(b.local_name().into_inner().to_string()),
        Event::Empty(b) => Some(b.local_name().into_inner().to_string()),
        Event::End(b) => Some(b.local_name().into_inner().to_string()),
        _ => None,
    }
}

/// The attribute extractor. Relies on quick_xml's `BytesStart::attributes`:
/// one tag's raw attribute list decoded to string pairs in document order;
/// an attribute list that cannot be iterated is fatal, and surfaces as
/// nothing but a `ParsingError` carrying the iterator's message.
#[verifier::external_body]
fn extract_attributes(e: &Event<'_>) -> (r: Result<Vec<(String, String)>, Error>)
    ensures
        r matches Err(err) ==> err.deep_view() matches ErrorV::ParsingError(m)
            && "Attribute error: "@.is_prefix_of(m),
{
    let it = match e {
        Event::Start(b) => b.attributes(),
        Event::Empty(b) => b.attributes(),
        _ => return Ok(Vec::new()),
    };
    let mut out = Vec::new();
    for a in it {
        let a = a.map_err(|err| Error::ParsingError(format!("Attribute error: {}", err)))?;
        out.push((a.key.into_inner().to_string(), a.value.into_owned()));
    }
    Ok(out)
}

/// Relies on quick_xml's `BytesText` and `BytesRef` string content: the
/// character data of a text event in its raw form; an entity or character
/// reference is kept as the raw `&name;` text it was written as.
#[verifier::external_body]
fn event_text(e: &Event<'_>) -> (t: String) {
    match e {
        Event::Text(b) => b.as_ref().to_string(),
        Event::GeneralRef(b) => format!("&{};", b.borrow().into_inner()),
        _ => String::new(),
    }
}

/// Opens a tokenizer over one document's text.
pub struct TokenSource<'a> {
    reader: Reader<&'a [u8]>,
}

impl<'a> TokenSource<'a> {
    /// Starts tokenizing one complete document held in `s`.
    pub fn new(s: &'a str) -> TokenSource<'a> {
        TokenSource { reader: reader_from_str(s) }
    }

    /// Pulls the next token, decoding its name and attributes to plain
    /// values. Which token comes back depends on the tokenizer's internal
    /// state, so nothing is promised of an `Ok`: the state machine that
    /// consumes the tokens is verified for every value. A failure, though,
    /// is always a `ParsingError` — the tokenizer's or the attribute
    /// extractor's.
    pub fn next_token(&mut self) -> (t: Result<Token, Error>)
        ensures
            t matches Err(e) ==> e.deep_view() is ParsingError,
    {
        let ev = match read_event(&mut self.reader) {
            Ok(ev) => ev,
            Err(e) => {
                return Err(e);
            },
        };
        match event_kind(&ev) {
            EventKind::EofEvent => Ok(Token::Eof),
            EventKind::TextData => Ok(Token::Text { text: event_text(&ev) }),
            EventKind::StartTag => match event_local_name(&ev) {
                Some(name) => match extract_attributes(&ev) {
                    Ok(attrs) => Ok(Token::Start { name, attrs }),
                    Err(e) => Err(e),
                },
                None => Ok(Token::Other),
            },
            EventKind::EmptyTag => match event_local_name(&ev) {
                Some(name) => match extract_attributes(&ev) {
                    Ok(attrs) => Ok(Token::Empty { name, attrs }),
                    Err(e) => Err(e),
                },
                None => Ok(Token::Other),
            },
            EventKind::EndTag => match event_local_name(&ev) {
                Some(name) => Ok(Token::End { name }),
                None => Ok(Token::Other),
            },
            EventKind::OtherEvent => Ok(Token::Other),
        }
    }
}

} // verus!
