//! The container resolver: finds the package-document path in the
//! `META-INF/container.xml` descriptor.
use vstd::prelude::*;

use crate::xml::{
    attr_first, parse_xml_events, spec_first_attr, xml_scan, XmlEvent, XmlEventModel,
};
use crate::EpubError;

verus! {

use vstd::string::StringSliceAdditionalSpecFns;

/// The `full-path` of the first `rootfile` element at or after position `i`
/// that carries one.
pub open spec fn opf_path_from(evs: Seq<XmlEventModel>, i: int) -> Option<Seq<char>>
    decreases evs.len() - i,
{
    if i < 0 || i >= evs.len() {
        None
    } else if evs[i].is_open() && evs[i].open_name() == "rootfile"@ && spec_first_attr(
        evs[i].open_attrs(),
        "full-path"@,
    ) is Some {
        spec_first_attr(evs[i].open_attrs(), "full-path"@)
    } else {
        opf_path_from(evs, i + 1)
    }
}

/// The package-document path the container's event stream names: the
/// `full-path` of the first `rootfile` element that carries one.
pub open spec fn spec_opf_path(evs: Seq<XmlEventModel>) -> Option<Seq<char>> {
    opf_path_from(evs, 0)
}

/// Scans the container's events in document order for the first `rootfile`
/// element with a `full-path` attribute.
pub fn scan_opf_path(events: &Vec<XmlEvent>) -> (r: Option<String>)
    ensures
        r.deep_view() == spec_opf_path(events.deep_view()),
{
    let mut i: usize = 0;
    while i < events.len()
        invariant
            i <= events.len(),
            spec_opf_path(events.deep_view()) == opf_path_from(events.deep_view(), i as int),
        decreases events.len() - i,
    {
        match &events[i] {
            XmlEvent::Start { name, attrs } | XmlEvent::Empty { name, attrs } => {
                if crate::text::str_eq(name.as_str(), "rootfile") {
                    if let Some(path) = attr_first(attrs, "full-path") {
                        return Some(path);
                    }
                }
            },
            _ => {},
        }
        i = i + 1;
    }
    None
}

/// Resolves the package-document path from the UTF-8 text of
/// `META-INF/container.xml`. The value of the first matching `rootfile` is
/// returned immediately, so malformed XML after it does no harm; the
/// resolution fails with `ContainerParse` exactly when no match stands
/// before the document's end or its first syntax error.
pub fn find_opf_path(container_xml: &str) -> (r: Result<String, EpubError>)
    ensures
        match spec_opf_path(xml_scan(container_xml.spec_bytes()).0) {
            Some(p) => r matches Ok(s) && s@ == p,
            None => r matches Err(e) && e == EpubError::ContainerParse,
        },
{
    let (events, _) = parse_xml_events(container_xml.as_bytes());
    match scan_opf_path(&events) {
        Some(p) => Ok(p),
        None => Err(EpubError::ContainerParse),
    }
}

} // verus!
