//! XML events as plain values. quick_xml turns a document's bytes into a
//! stream of events; the scanners in this crate are verified against the
//! event sequence named by `xml_scan`, which keeps the events read before
//! a syntax error, so a scanner can return a match it reached even where
//! the document goes bad later.
use vstd::prelude::*;

use quick_xml::events::Event as QEvent;

verus! {

/// One attribute of an element, with the raw (not unescaped) value and the
/// full (prefixed) key, both read permissively from the bytes.
pub struct XmlAttr {
    pub key: String,
    pub value: String,
}

/// One XML event. `Start` and `Empty` carry the local element name; `Text`
/// carries the unescaped character data, or an empty string where
/// unescaping fails. Events the scanners never look into (comments, CDATA,
/// declarations, processing instructions) appear as `Other`, so that the
/// position of every event in the document is kept.
pub enum XmlEvent {
    Start { name: String, attrs: Vec<XmlAttr> },
    Empty { name: String, attrs: Vec<XmlAttr> },
    End { name: String },
    Text { text: String },
    Other,
}

/// The mathematical value of an `XmlAttr`: (key, value).
pub type AttrModel = (Seq<char>, Seq<char>);

/// The mathematical value of an `XmlEvent`.
pub enum XmlEventModel {
    Start { name: Seq<char>, attrs: Seq<AttrModel> },
    Empty { name: Seq<char>, attrs: Seq<AttrModel> },
    End { name: Seq<char> },
    Text { text: Seq<char> },
    Other,
}

impl DeepView for XmlAttr {
    type V = AttrModel;

    open spec fn deep_view(&self) -> AttrModel {
        (self.key@, self.value@)
    }
}

impl DeepView for XmlEvent {
    type V = XmlEventModel;

    open spec fn deep_view(&self) -> XmlEventModel {
        match self {
            XmlEvent::Start { name, attrs } => XmlEventModel::Start {
                name: name@,
                attrs: attrs.deep_view(),
            },
            XmlEvent::Empty { name, attrs } => XmlEventModel::Empty {
                name: name@,
                attrs: attrs.deep_view(),
            },
            XmlEvent::End { name } => XmlEventModel::End { name: name@ },
            XmlEvent::Text { text } => XmlEventModel::Text { text: text@ },
            XmlEvent::Other => XmlEventModel::Other,
        }
    }
}

impl XmlEventModel {
    /// An opening event: a start tag or a self-closing tag.
    pub open spec fn is_open(self) -> bool {
        self is Start || self is Empty
    }

    /// Local name of an opening event.
    pub open spec fn open_name(self) -> Seq<char>
        recommends
            self.is_open(),
    {
        match self {
            XmlEventModel::Start { name, .. } => name,
            XmlEventModel::Empty { name, .. } => name,
            _ => Seq::empty(),
        }
    }

    /// Attributes of an opening event.
    pub open spec fn open_attrs(self) -> Seq<AttrModel>
        recommends
            self.is_open(),
    {
        match self {
            XmlEventModel::Start { attrs, .. } => attrs,
            XmlEventModel::Empty { attrs, .. } => attrs,
            _ => Seq::empty(),
        }
    }

    /// Character data of a text event.
    pub open spec fn text_of(self) -> Option<Seq<char>> {
        match self {
            XmlEventModel::Text { text } => Some(text),
            _ => None,
        }
    }
}

/// Value of the first attribute at or after position `i` whose key is `key`.
pub open spec fn first_attr_from(attrs: Seq<AttrModel>, key: Seq<char>, i: int) -> Option<
    Seq<char>,
>
    decreases attrs.len() - i,
{
    if i < 0 || i >= attrs.len() {
        None
    } else if attrs[i].0 == key {
        Some(attrs[i].1)
    } else {
        first_attr_from(attrs, key, i + 1)
    }
}

/// Value of the first attribute whose key is `key`.
pub open spec fn spec_first_attr(attrs: Seq<AttrModel>, key: Seq<char>) -> Option<Seq<char>> {
    first_attr_from(attrs, key, 0)
}

/// Value of the last attribute at or after position `i` whose key is `k1`
/// or `k2`, starting from the fallback `acc`.
pub open spec fn last_attr_from(
    attrs: Seq<AttrModel>,
    k1: Seq<char>,
    k2: Seq<char>,
    i: int,
    acc: Option<Seq<char>>,
) -> Option<Seq<char>>
    decreases attrs.len() - i,
{
    if i < 0 || i >= attrs.len() {
        acc
    } else {
        last_attr_from(
            attrs,
            k1,
            k2,
            i + 1,
            if attrs[i].0 == k1 || attrs[i].0 == k2 {
                Some(attrs[i].1)
            } else {
                acc
            },
        )
    }
}

/// Value of the last attribute whose key is `key`: a repeated key is
/// overwritten in document order, so the last occurrence wins.
pub open spec fn spec_last_attr(attrs: Seq<AttrModel>, key: Seq<char>) -> Option<Seq<char>> {
    last_attr_from(attrs, key, key, 0, None)
}

/// Value of the last attribute whose key is `k1` or `k2`.
pub open spec fn spec_last_attr_either(
    attrs: Seq<AttrModel>,
    k1: Seq<char>,
    k2: Seq<char>,
) -> Option<Seq<char>> {
    last_attr_from(attrs, k1, k2, 0, None)
}

/// First attribute named `key`, in document order.
pub fn attr_first(attrs: &Vec<XmlAttr>, key: &str) -> (r: Option<String>)
    ensures
        r.deep_view() == spec_first_attr(attrs.deep_view(), key@),
{
    let mut i: usize = 0;
    while i < attrs.len()
        invariant
            i <= attrs.len(),
            spec_first_attr(attrs.deep_view(), key@) == first_attr_from(
                attrs.deep_view(),
                key@,
                i as int,
            ),
        decreases attrs.len() - i,
    {
        if crate::text::str_eq(attrs[i].key.as_str(), key) {
            return Some(attrs[i].value.clone());
        }
        i = i + 1;
    }
    None
}

/// Last attribute named `k1` or `k2`, in document order.
pub fn attr_last_either(attrs: &Vec<XmlAttr>, k1: &str, k2: &str) -> (r: Option<String>)
    ensures
        r.deep_view() == spec_last_attr_either(attrs.deep_view(), k1@, k2@),
{
    let mut acc: Option<String> = None;
    let mut i: usize = 0;
    while i < attrs.len()
        invariant
            i <= attrs.len(),
            spec_last_attr_either(attrs.deep_view(), k1@, k2@) == last_attr_from(
                attrs.deep_view(),
                k1@,
                k2@,
                i as int,
                acc.deep_view(),
            ),
        decreases attrs.len() - i,
    {
        if crate::text::str_eq(attrs[i].key.as_str(), k1) || crate::text::str_eq(
            attrs[i].key.as_str(),
            k2,
        ) {
            acc = Some(attrs[i].value.clone());
        }
        i = i + 1;
    }
    acc
}

/// Last attribute named `key`, in document order.
pub fn attr_last(attrs: &Vec<XmlAttr>, key: &str) -> (r: Option<String>)
    ensures
        r.deep_view() == spec_last_attr(attrs.deep_view(), key@),
{
    attr_last_either(attrs, key, key)
}

#[verifier::external_type_specification]
#[verifier::external_body]
pub struct ExBytesStart<'a>(quick_xml::events::BytesStart<'a>);

#[verifier::external_type_specification]
#[verifier::external_body]
pub struct ExBytesEnd<'a>(quick_xml::events::BytesEnd<'a>);

#[verifier::external_type_specification]
#[verifier::external_body]
pub struct ExBytesText<'a>(quick_xml::events::BytesText<'a>);

/// Relies on quick_xml's `BytesStart`: `local_name` is the element name
/// after any namespace prefix, and `attributes` yields each attribute's
/// full key and raw value in document order.
#[verifier::external_body]
fn start_event(e: &quick_xml::events::BytesStart<'_>, self_closing: bool) -> XmlEvent {
    let name = String::from_utf8_lossy(e.local_name().as_ref()).to_string();
    let mut attrs: Vec<XmlAttr> = Vec::new();
    for a in e.attributes().flatten() {
        attrs.push(XmlAttr {
            key: String::from_utf8_lossy(a.key.as_ref()).to_string(),
            value: String::from_utf8_lossy(&a.value).to_string(),
        });
    }
    if self_closing {
        XmlEvent::Empty { name, attrs }
    } else {
        XmlEvent::Start { name, attrs }
    }
}

/// Relies on quick_xml's `BytesEnd::local_name`.
#[verifier::external_body]
fn end_event(e: &quick_xml::events::BytesEnd<'_>) -> XmlEvent {
    XmlEvent::End { name: String::from_utf8_lossy(e.local_name().as_ref()).to_string() }
}

/// Relies on quick_xml's `BytesText::unescape`; a failed unescape yields
/// an empty string rather than an error.
#[verifier::external_body]
fn text_event(t: &quick_xml::events::BytesText<'_>) -> XmlEvent {
    XmlEvent::Text { text: t.unescape().unwrap_or_default().to_string() }
}

/// What quick_xml's reader yields for a document's bytes, with
/// whitespace-only text trimmed away, as a function of the bytes alone:
/// the events read before the document's end or its first syntax error,
/// and whether the end was reached cleanly. A clean scan's event prefix is
/// the whole document's stream.
pub uninterp spec fn xml_scan(bytes: Seq<u8>) -> (Seq<XmlEventModel>, bool);

/// Relies on quick_xml's `Reader`: one event per `read_event` call, with
/// `trim_text` set, over the given byte slice, stopping at `Eof` or at the
/// first error. The events read up to that point and whether `Eof` was
/// reached are functions of the bytes alone, named by `xml_scan`.
#[verifier::external_body]
pub(crate) fn parse_xml_events(xml: &[u8]) -> (r: (Vec<XmlEvent>, bool))
    ensures
        r.0.deep_view() == xml_scan(xml@).0,
        r.1 == xml_scan(xml@).1,
{
    let mut reader = quick_xml::reader::Reader::from_reader(xml);
    reader.trim_text(true);
    let mut out: Vec<XmlEvent> = Vec::new();
    loop {
        match reader.read_event() {
            Ok(QEvent::Start(e)) => out.push(start_event(&e, false)),
            Ok(QEvent::Empty(e)) => out.push(start_event(&e, true)),
            Ok(QEvent::End(e)) => out.push(end_event(&e)),
            Ok(QEvent::Text(t)) => out.push(text_event(&t)),
            Ok(QEvent::Eof) => return (out, true),
            Ok(_) => out.push(XmlEvent::Other),
            Err(_) => return (out, false),
        }
    }
}

} // verus!
