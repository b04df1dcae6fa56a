//! The metadata extractor: a single forward scan of the package document's
//! events that accumulates the bibliographic record and the cover-reference
//! id from `<meta name="cover" content="...">`.
use vstd::prelude::*;

use crate::text::{find_char, lemma_find_bounds, spec_find, str_eq};
use crate::xml::{
    attr_last, attr_last_either, parse_xml_events, spec_last_attr, spec_last_attr_either,
    xml_scan, AttrModel, XmlAttr, XmlEvent, XmlEventModel,
};
use crate::EpubError;

verus! {

use vstd::string::StringSliceAdditionalSpecFns;

/// One identifier of the publication: a (scheme, value) pair.
#[derive(Debug, Clone, PartialEq)]
pub struct Identifier {
    pub scheme: String,
    pub value: String,
}

/// The mathematical value of an `Identifier`.
#[verifier::ext_equal]
pub struct IdentifierModel {
    pub scheme: Seq<char>,
    pub value: Seq<char>,
}

impl DeepView for Identifier {
    type V = IdentifierModel;

    open spec fn deep_view(&self) -> IdentifierModel {
        IdentifierModel { scheme: self.scheme@, value: self.value@ }
    }
}

impl Identifier {
    pub fn new(scheme: String, value: String) -> (r: Identifier)
        ensures
            r.deep_view() == (IdentifierModel { scheme: scheme@, value: value@ }),
    {
        Identifier { scheme, value }
    }
}

/// The extracted record of one EPUB. Cover bytes may be absent while the
/// MIME type is present (the manifest named a cover whose bytes could not
/// be read); bytes are never present without a MIME type.
#[derive(Debug, Clone, PartialEq)]
pub struct EpubInfo {
    pub title: String,
    pub authors: Vec<String>,
    pub description: Option<String>,
    pub publisher: Option<String>,
    pub language: Option<String>,
    pub identifiers: Vec<Identifier>,
    pub subjects: Vec<String>,
    pub series: Option<String>,
    pub series_number: Option<String>,
    pub cover_data: Option<Vec<u8>>,
    pub cover_mime_type: Option<String>,
}

/// The mathematical value of an `EpubInfo`.
#[verifier::ext_equal]
pub struct EpubInfoModel {
    pub title: Seq<char>,
    pub authors: Seq<Seq<char>>,
    pub description: Option<Seq<char>>,
    pub publisher: Option<Seq<char>>,
    pub language: Option<Seq<char>>,
    pub identifiers: Seq<IdentifierModel>,
    pub subjects: Seq<Seq<char>>,
    pub series: Option<Seq<char>>,
    pub series_number: Option<Seq<char>>,
    pub cover_data: Option<Seq<u8>>,
    pub cover_mime_type: Option<Seq<char>>,
}

impl DeepView for EpubInfo {
    type V = EpubInfoModel;

    open spec fn deep_view(&self) -> EpubInfoModel {
        EpubInfoModel {
            title: self.title@,
            authors: self.authors.deep_view(),
            description: self.description.deep_view(),
            publisher: self.publisher.deep_view(),
            language: self.language.deep_view(),
            identifiers: self.identifiers.deep_view(),
            subjects: self.subjects.deep_view(),
            series: self.series.deep_view(),
            series_number: self.series_number.deep_view(),
            cover_data: match self.cover_data {
                Some(ref d) => Some(d@),
                None => None,
            },
            cover_mime_type: self.cover_mime_type.deep_view(),
        }
    }
}

/// The identifier an `<identifier>` element yields: an explicit scheme
/// attribute wins and leaves the text untouched; otherwise the text is
/// split at its first colon; with neither, the scheme is "unknown".
pub open spec fn spec_identifier(scheme_attr: Option<Seq<char>>, text: Seq<char>) -> IdentifierModel {
    match scheme_attr {
        Some(s) => IdentifierModel { scheme: s, value: text },
        None => match spec_find(text, ':') {
            Some(i) => IdentifierModel {
                scheme: text.subrange(0, i),
                value: text.subrange(i + 1, text.len() as int),
            },
            None => IdentifierModel { scheme: "unknown"@, value: text },
        },
    }
}

/// Builds the identifier for one `<identifier>` element.
pub fn make_identifier(scheme_attr: Option<String>, text: String) -> (r: Identifier)
    ensures
        r.deep_view() == spec_identifier(scheme_attr.deep_view(), text@),
{
    match scheme_attr {
        Some(s) => Identifier::new(s, text),
        None => {
            match find_char(text.as_str(), ':') {
                Some(i) => {
                    proof {
                        lemma_find_bounds(text@, ':', 0);
                    }
                    let n = text.unicode_len();
                    let scheme = text.as_str().substring_char(0, i).to_owned();
                    let value = text.as_str().substring_char(i + 1, n).to_owned();
                    Identifier::new(scheme, value)
                },
                None => Identifier::new("unknown".to_owned(), text),
            }
        },
    }
}

/// The accumulating state of the metadata scan.
#[verifier::ext_equal]
pub struct ScanState {
    pub in_metadata: bool,
    pub title: Option<Seq<char>>,
    pub authors: Seq<Seq<char>>,
    pub description: Option<Seq<char>>,
    pub publisher: Option<Seq<char>>,
    pub language: Option<Seq<char>>,
    pub identifiers: Seq<IdentifierModel>,
    pub subjects: Seq<Seq<char>>,
    pub cover_id: Option<Seq<char>>,
    pub series: Option<Seq<char>>,
    pub series_number: Option<Seq<char>>,
}

/// The scan's starting state: outside `<metadata>`, nothing gathered.
pub open spec fn init_scan_state() -> ScanState {
    ScanState {
        in_metadata: false,
        title: None,
        authors: Seq::empty(),
        description: None,
        publisher: None,
        language: None,
        identifiers: Seq::empty(),
        subjects: Seq::empty(),
        cover_id: None,
        series: None,
        series_number: None,
    }
}

/// The metadata elements whose value is the immediately following text event.
pub open spec fn reads_text(name: Seq<char>) -> bool {
    ||| name == "title"@
    ||| name == "creator"@
    ||| name == "description"@
    ||| name == "publisher"@
    ||| name == "language"@
    ||| name == "identifier"@
    ||| name == "subject"@
}

/// The state after one text-valued metadata element whose value is `t`: a
/// repeated scalar field is overwritten, so the last occurrence wins; an
/// empty subject is dropped.
pub open spec fn apply_text_field(
    st: ScanState,
    name: Seq<char>,
    attrs: Seq<AttrModel>,
    t: Seq<char>,
) -> ScanState {
    if name == "title"@ {
        ScanState { title: Some(t), ..st }
    } else if name == "creator"@ {
        ScanState { authors: st.authors.push(t), ..st }
    } else if name == "description"@ {
        ScanState { description: Some(t), ..st }
    } else if name == "publisher"@ {
        ScanState { publisher: Some(t), ..st }
    } else if name == "language"@ {
        ScanState { language: Some(t), ..st }
    } else if name == "identifier"@ {
        ScanState {
            identifiers: st.identifiers.push(
                spec_identifier(spec_last_attr_either(attrs, "opf:scheme"@, "scheme"@), t),
            ),
            ..st
        }
    } else if name == "subject"@ {
        if t.len() > 0 {
            ScanState { subjects: st.subjects.push(t), ..st }
        } else {
            st
        }
    } else {
        st
    }
}

/// The state after one `<meta>` element: its `name`/`content` attribute
/// pair may set the cover reference, the series, or the series index.
pub open spec fn apply_meta(st: ScanState, attrs: Seq<AttrModel>) -> ScanState {
    let n = spec_last_attr(attrs, "name"@);
    let c = spec_last_attr(attrs, "content"@);
    if n is Some && c is Some {
        let st1 = if n.unwrap() == "cover"@ {
            ScanState { cover_id: Some(c.unwrap()), ..st }
        } else {
            st
        };
        let st2 = if n.unwrap() == "calibre:series"@ {
            ScanState { series: Some(c.unwrap()), ..st1 }
        } else {
            st1
        };
        if n.unwrap() == "calibre:series_index"@ {
            ScanState { series_number: Some(c.unwrap()), ..st2 }
        } else {
            st2
        }
    } else {
        st
    }
}

/// The metadata scan from position `i` on. Elements are interpreted only
/// inside `<metadata>`; a text-valued element takes the immediately
/// following event as its value only where that event is text, and the
/// text event is then consumed with it; any other follower is left to be
/// processed normally, so the element contributes nothing.
pub open spec fn scan_from(evs: Seq<XmlEventModel>, i: int, st: ScanState) -> ScanState
    decreases evs.len() - i,
{
    if i < 0 || i >= evs.len() {
        st
    } else {
        let ev = evs[i];
        if ev.is_open() {
            let name = ev.open_name();
            if name == "metadata"@ {
                scan_from(evs, i + 1, ScanState { in_metadata: true, ..st })
            } else if st.in_metadata && reads_text(name) {
                if i + 1 < evs.len() && evs[i + 1].text_of() is Some {
                    scan_from(
                        evs,
                        i + 2,
                        apply_text_field(
                            st,
                            name,
                            ev.open_attrs(),
                            evs[i + 1].text_of().unwrap(),
                        ),
                    )
                } else {
                    scan_from(evs, i + 1, st)
                }
            } else if st.in_metadata && name == "meta"@ {
                scan_from(evs, i + 1, apply_meta(st, ev.open_attrs()))
            } else {
                scan_from(evs, i + 1, st)
            }
        } else if ev matches XmlEventModel::End { name } && name == "metadata"@ {
            scan_from(evs, i + 1, ScanState { in_metadata: false, ..st })
        } else {
            scan_from(evs, i + 1, st)
        }
    }
}

/// The whole scan of a package document's events.
pub open spec fn spec_scan(evs: Seq<XmlEventModel>) -> ScanState {
    scan_from(evs, 0, init_scan_state())
}

/// The record the metadata extractor yields, without cover bytes or MIME
/// type: a missing title becomes the placeholder "Unknown Title".
pub open spec fn spec_book_info(evs: Seq<XmlEventModel>) -> EpubInfoModel {
    let st = spec_scan(evs);
    EpubInfoModel {
        title: match st.title {
            Some(t) => t,
            None => "Unknown Title"@,
        },
        authors: st.authors,
        description: st.description,
        publisher: st.publisher,
        language: st.language,
        identifiers: st.identifiers,
        subjects: st.subjects,
        series: st.series,
        series_number: st.series_number,
        cover_data: None,
        cover_mime_type: None,
    }
}

/// The cover-reference id the scan gathers, if any.
pub open spec fn spec_cover_id(evs: Seq<XmlEventModel>) -> Option<Seq<char>> {
    spec_scan(evs).cover_id
}

/// The executable counterpart of `ScanState`.
struct MetaAcc {
    in_metadata: bool,
    title: Option<String>,
    authors: Vec<String>,
    description: Option<String>,
    publisher: Option<String>,
    language: Option<String>,
    identifiers: Vec<Identifier>,
    subjects: Vec<String>,
    cover_id: Option<String>,
    series: Option<String>,
    series_number: Option<String>,
}

impl DeepView for MetaAcc {
    type V = ScanState;

    closed spec fn deep_view(&self) -> ScanState {
        ScanState {
            in_metadata: self.in_metadata,
            title: self.title.deep_view(),
            authors: self.authors.deep_view(),
            description: self.description.deep_view(),
            publisher: self.publisher.deep_view(),
            language: self.language.deep_view(),
            identifiers: self.identifiers.deep_view(),
            subjects: self.subjects.deep_view(),
            cover_id: self.cover_id.deep_view(),
            series: self.series.deep_view(),
            series_number: self.series_number.deep_view(),
        }
    }
}

/// Whether `name` is one of the text-valued metadata elements.
fn reads_text_exec(name: &String) -> (r: bool)
    ensures
        r == reads_text(name@),
{
    str_eq(name.as_str(), "title") || str_eq(name.as_str(), "creator") || str_eq(
        name.as_str(),
        "description",
    ) || str_eq(name.as_str(), "publisher") || str_eq(name.as_str(), "language") || str_eq(
        name.as_str(),
        "identifier",
    ) || str_eq(name.as_str(), "subject")
}

/// Applies one text-valued metadata element with value `t` to the
/// accumulator.
fn apply_text_field_acc(acc: &mut MetaAcc, name: &String, attrs: &Vec<XmlAttr>, t: String)
    ensures
        final(acc).deep_view() == apply_text_field(
            old(acc).deep_view(),
            name@,
            attrs.deep_view(),
            t@,
        ),
{
    let ghost tv = t@;
    if str_eq(name.as_str(), "title") {
        acc.title = Some(t);
    } else if str_eq(name.as_str(), "creator") {
        acc.authors.push(t);
        proof {
            assert(acc.deep_view() =~= apply_text_field(
                old(acc).deep_view(),
                name@,
                attrs.deep_view(),
                tv,
            ));
        }
    } else if str_eq(name.as_str(), "description") {
        acc.description = Some(t);
    } else if str_eq(name.as_str(), "publisher") {
        acc.publisher = Some(t);
    } else if str_eq(name.as_str(), "language") {
        acc.language = Some(t);
    } else if str_eq(name.as_str(), "identifier") {
        let scheme_attr = attr_last_either(attrs, "opf:scheme", "scheme");
        let ident = make_identifier(scheme_attr, t);
        acc.identifiers.push(ident);
        proof {
            assert(acc.deep_view() =~= apply_text_field(
                old(acc).deep_view(),
                name@,
                attrs.deep_view(),
                tv,
            ));
        }
    } else if str_eq(name.as_str(), "subject") {
        if !t.as_str().is_empty() {
            acc.subjects.push(t);
            proof {
                assert(acc.deep_view() =~= apply_text_field(
                    old(acc).deep_view(),
                    name@,
                    attrs.deep_view(),
                    tv,
                ));
            }
        }
    }
}

/// Applies one `<meta>` element's attributes to the accumulator.
fn apply_meta_acc(acc: &mut MetaAcc, attrs: &Vec<XmlAttr>)
    ensures
        final(acc).deep_view() == apply_meta(old(acc).deep_view(), attrs.deep_view()),
{
    let n = attr_last(attrs, "name");
    let c = attr_last(attrs, "content");
    if let (Some(n), Some(c)) = (n, c) {
        if str_eq(n.as_str(), "cover") {
            acc.cover_id = Some(c.clone());
        }
        if str_eq(n.as_str(), "calibre:series") {
            acc.series = Some(c.clone());
        }
        if str_eq(n.as_str(), "calibre:series_index") {
            acc.series_number = Some(c);
        }
    }
}

/// Scans a package document's events for the metadata record and the
/// cover-reference id.
pub fn scan_metadata(events: &Vec<XmlEvent>) -> (r: (EpubInfo, Option<String>))
    ensures
        r.0.deep_view() == spec_book_info(events.deep_view()),
        r.1.deep_view() == spec_cover_id(events.deep_view()),
{
    let ghost evs = events.deep_view();
    let mut acc = MetaAcc {
        in_metadata: false,
        title: None,
        authors: Vec::new(),
        description: None,
        publisher: None,
        language: None,
        identifiers: Vec::new(),
        subjects: Vec::new(),
        cover_id: None,
        series: None,
        series_number: None,
    };
    proof {
        assert(acc.deep_view() =~= init_scan_state());
    }
    let mut i: usize = 0;
    while i < events.len()
        invariant
            evs == events.deep_view(),
            i <= events.len(),
            spec_scan(evs) == scan_from(evs, i as int, acc.deep_view()),
        decreases events.len() - i,
    {
        let ghost st0 = acc.deep_view();
        let ghost i0 = i as int;
        match &events[i] {
            XmlEvent::Start { name, attrs } | XmlEvent::Empty { name, attrs } => {
                if str_eq(name.as_str(), "metadata") {
                    acc.in_metadata = true;
                    i = i + 1;
                } else if acc.in_metadata && reads_text_exec(name) {
                    let text: Option<String> = if i + 1 < events.len() {
                        match &events[i + 1] {
                            XmlEvent::Text { text } => Some(text.clone()),
                            _ => None,
                        }
                    } else {
                        None
                    };
                    match text {
                        Some(t) => {
                            apply_text_field_acc(&mut acc, name, attrs, t);
                            i = i + 2;
                        },
                        None => {
                            i = i + 1;
                        },
                    }
                } else if acc.in_metadata && str_eq(name.as_str(), "meta") {
                    apply_meta_acc(&mut acc, attrs);
                    i = i + 1;
                } else {
                    i = i + 1;
                }
            },
            XmlEvent::End { name } => {
                if str_eq(name.as_str(), "metadata") {
                    acc.in_metadata = false;
                }
                i = i + 1;
            },
            _ => {
                i = i + 1;
            },
        }
        proof {
            assert(scan_from(evs, i0, st0) == scan_from(evs, i as int, acc.deep_view()));
        }
    }
    let title = match acc.title {
        Some(t) => t,
        None => "Unknown Title".to_owned(),
    };
    let info = EpubInfo {
        title,
        authors: acc.authors,
        description: acc.description,
        publisher: acc.publisher,
        language: acc.language,
        identifiers: acc.identifiers,
        subjects: acc.subjects,
        series: acc.series,
        series_number: acc.series_number,
        cover_data: None,
        cover_mime_type: None,
    };
    proof {
        assert(info.deep_view() =~= spec_book_info(evs));
    }
    (info, acc.cover_id)
}

/// Extracts the metadata record and the cover-reference id from the UTF-8
/// text of a package document. This pass scans to the end of the document,
/// so it fails with `PackageDocumentParse` exactly when the XML is
/// malformed anywhere.
pub fn parse_opf_metadata(opf_xml: &str) -> (r: Result<(EpubInfo, Option<String>), EpubError>)
    ensures
        !xml_scan(opf_xml.spec_bytes()).1 ==> (r matches Err(e) && e
            == EpubError::PackageDocumentParse),
        xml_scan(opf_xml.spec_bytes()).1 ==> (r matches Ok(pair) && pair.0.deep_view()
            == spec_book_info(xml_scan(opf_xml.spec_bytes()).0) && pair.1.deep_view()
            == spec_cover_id(xml_scan(opf_xml.spec_bytes()).0)),
{
    let (events, clean) = parse_xml_events(opf_xml.as_bytes());
    if !clean {
        return Err(EpubError::PackageDocumentParse);
    }
    Ok(scan_metadata(&events))
}

/// A package document without a `<title>` element anywhere yields the
/// placeholder title "Unknown Title", not an error.
pub proof fn lemma_no_title_defaults(evs: Seq<XmlEventModel>)
    requires
        forall|j: int|
            0 <= j < evs.len() ==> !(#[trigger] evs[j].is_open() && evs[j].open_name()
                == "title"@),
    ensures
        spec_book_info(evs).title == "Unknown Title"@,
{
    lemma_scan_keeps_no_title(evs, 0, init_scan_state());
}

proof fn lemma_scan_keeps_no_title(evs: Seq<XmlEventModel>, i: int, st: ScanState)
    requires
        0 <= i,
        st.title is None,
        forall|j: int|
            0 <= j < evs.len() ==> !(#[trigger] evs[j].is_open() && evs[j].open_name()
                == "title"@),
    ensures
        scan_from(evs, i, st).title is None,
    decreases evs.len() - i,
{
    if i < evs.len() {
        let ev = evs[i];
        if ev.is_open() {
            let name = ev.open_name();
            if name == "metadata"@ {
                lemma_scan_keeps_no_title(evs, i + 1, ScanState { in_metadata: true, ..st });
            } else if st.in_metadata && reads_text(name) {
                if i + 1 < evs.len() && evs[i + 1].text_of() is Some {
                    lemma_scan_keeps_no_title(
                        evs,
                        i + 2,
                        apply_text_field(st, name, ev.open_attrs(), evs[i + 1].text_of().unwrap()),
                    );
                } else {
                    lemma_scan_keeps_no_title(evs, i + 1, st);
                }
            } else if st.in_metadata && name == "meta"@ {
                lemma_scan_keeps_no_title(evs, i + 1, apply_meta(st, ev.open_attrs()));
            } else {
                lemma_scan_keeps_no_title(evs, i + 1, st);
            }
        } else if ev matches XmlEventModel::End { name } && name == "metadata"@ {
            lemma_scan_keeps_no_title(evs, i + 1, ScanState { in_metadata: false, ..st });
        } else {
            lemma_scan_keeps_no_title(evs, i + 1, st);
        }
    }
}

} // verus!
