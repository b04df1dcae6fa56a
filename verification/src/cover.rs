//! The cover resolver: scans manifest `<item>` elements in document order
//! for the cover image, by the `properties="cover-image"` rule and by the
//! cover-reference id rule.
use vstd::prelude::*;

use crate::text::{contains_sub, has_prefix, spec_contains, spec_has_prefix, str_eq};
use crate::xml::{attr_last, parse_xml_events, spec_last_attr, xml_scan, XmlEvent, XmlEventModel};
use crate::EpubError;

verus! {

use vstd::string::StringSliceAdditionalSpecFns;

/// What one event contributes to the cover search: `Some((href, media-type))`
/// where the event is a manifest `<item>` whose `media-type` starts with
/// `image/` and which matches the `cover-image` properties rule or, with a
/// cover-reference id at hand, the id rule. Both rules accept the same item,
/// so the properties rule being checked first cannot change the result.
pub open spec fn item_cover_match(ev: XmlEventModel, cover_id: Option<Seq<char>>) -> Option<
    (Seq<char>, Seq<char>),
> {
    if !(ev.is_open() && ev.open_name() == "item"@) {
        None
    } else {
        let attrs = ev.open_attrs();
        let id = spec_last_attr(attrs, "id"@);
        let href = spec_last_attr(attrs, "href"@);
        let media_type = spec_last_attr(attrs, "media-type"@);
        let properties = spec_last_attr(attrs, "properties"@);
        if href is Some && media_type is Some && spec_has_prefix(media_type.unwrap(), "image/"@)
            && ((properties is Some && spec_contains(properties.unwrap(), "cover-image"@)) || (
        cover_id is Some && id is Some && id.unwrap() == cover_id.unwrap())) {
            Some((href.unwrap(), media_type.unwrap()))
        } else {
            None
        }
    }
}

/// The cover of the first matching item at or after position `i`.
pub open spec fn cover_from(
    evs: Seq<XmlEventModel>,
    i: int,
    cover_id: Option<Seq<char>>,
) -> Option<(Seq<char>, Seq<char>)>
    decreases evs.len() - i,
{
    if i < 0 || i >= evs.len() {
        None
    } else if item_cover_match(evs[i], cover_id) is Some {
        item_cover_match(evs[i], cover_id)
    } else {
        cover_from(evs, i + 1, cover_id)
    }
}

/// The manifest-relative href and MIME type of the cover image, if any
/// manifest item matches.
pub open spec fn spec_cover(evs: Seq<XmlEventModel>, cover_id: Option<Seq<char>>) -> Option<
    (Seq<char>, Seq<char>),
> {
    cover_from(evs, 0, cover_id)
}

/// The first matching item in document order decides the cover: where
/// position `k` matches and no earlier position does, the scan returns
/// exactly the href and media-type of the item at `k`.
pub proof fn lemma_cover_first_match_wins(
    evs: Seq<XmlEventModel>,
    cover_id: Option<Seq<char>>,
    k: int,
)
    requires
        0 <= k < evs.len(),
        item_cover_match(evs[k], cover_id) is Some,
        forall|j: int| 0 <= j < k ==> item_cover_match(evs[j], cover_id) is None,
    ensures
        spec_cover(evs, cover_id) == item_cover_match(evs[k], cover_id),
{
    lemma_cover_from_first_match(evs, cover_id, 0, k);
}

proof fn lemma_cover_from_first_match(
    evs: Seq<XmlEventModel>,
    cover_id: Option<Seq<char>>,
    i: int,
    k: int,
)
    requires
        0 <= i <= k < evs.len(),
        item_cover_match(evs[k], cover_id) is Some,
        forall|j: int| i <= j < k ==> item_cover_match(evs[j], cover_id) is None,
    ensures
        cover_from(evs, i, cover_id) == item_cover_match(evs[k], cover_id),
    decreases k - i,
{
    if i < k {
        lemma_cover_from_first_match(evs, cover_id, i + 1, k);
    }
}

/// Within one item, the properties rule decides on its own: an item whose
/// `properties` contain `cover-image` (and whose `media-type` is an image)
/// is the same match whatever the cover-reference id says, so checking the
/// properties rule before the id rule cannot change the result.
pub proof fn lemma_properties_rule_decides(ev: XmlEventModel, cover_id: Option<Seq<char>>)
    requires
        ev.is_open(),
        ev.open_name() == "item"@,
        spec_last_attr(ev.open_attrs(), "href"@) is Some,
        spec_last_attr(ev.open_attrs(), "media-type"@) is Some,
        spec_has_prefix(spec_last_attr(ev.open_attrs(), "media-type"@).unwrap(), "image/"@),
        spec_last_attr(ev.open_attrs(), "properties"@) is Some,
        spec_contains(spec_last_attr(ev.open_attrs(), "properties"@).unwrap(), "cover-image"@),
    ensures
        item_cover_match(ev, cover_id) == Some(
            (
                spec_last_attr(ev.open_attrs(), "href"@).unwrap(),
                spec_last_attr(ev.open_attrs(), "media-type"@).unwrap(),
            ),
        ),
{
}

/// Whether a matching item has no match anywhere before it: the scan never
/// passes a matching item by.
pub proof fn lemma_cover_none_means_no_match(
    evs: Seq<XmlEventModel>,
    cover_id: Option<Seq<char>>,
)
    requires
        spec_cover(evs, cover_id) is None,
    ensures
        forall|j: int|
            0 <= j < evs.len() ==> #[trigger] item_cover_match(evs[j], cover_id) is None,
{
    lemma_cover_from_none(evs, cover_id, 0);
}

proof fn lemma_cover_from_none(evs: Seq<XmlEventModel>, cover_id: Option<Seq<char>>, i: int)
    requires
        0 <= i,
        cover_from(evs, i, cover_id) is None,
    ensures
        forall|j: int| i <= j < evs.len() ==> #[trigger] item_cover_match(evs[j], cover_id) is None,
    decreases evs.len() - i,
{
    if 0 <= i && i < evs.len() {
        lemma_cover_from_none(evs, cover_id, i + 1);
    }
}

/// Scans the manifest items in document order for the cover image; the
/// first item matching either rule wins.
pub fn scan_cover(events: &Vec<XmlEvent>, cover_id: &Option<String>) -> (r: Option<
    (String, String),
>)
    ensures
        match spec_cover(events.deep_view(), cover_id.deep_view()) {
            Some(pair) => r matches Some(p) && p.0@ == pair.0 && p.1@ == pair.1,
            None => r is None,
        },
{
    let ghost evs = events.deep_view();
    let ghost cid = cover_id.deep_view();
    let mut i: usize = 0;
    while i < events.len()
        invariant
            evs == events.deep_view(),
            cid == cover_id.deep_view(),
            i <= events.len(),
            spec_cover(evs, cid) == cover_from(evs, i as int, cid),
        decreases events.len() - i,
    {
        match &events[i] {
            XmlEvent::Start { name, attrs } | XmlEvent::Empty { name, attrs } => {
                if str_eq(name.as_str(), "item") {
                    let id = attr_last(attrs, "id");
                    let href = attr_last(attrs, "href");
                    let media_type = attr_last(attrs, "media-type");
                    let properties = attr_last(attrs, "properties");
                    if let (Some(href), Some(media_type)) = (href, media_type) {
                        if has_prefix(media_type.as_str(), "image/") {
                            if let Some(props) = &properties {
                                if contains_sub(props.as_str(), "cover-image") {
                                    return Some((href, media_type));
                                }
                            }
                            if let (Some(cid_s), Some(id_s)) = (cover_id, &id) {
                                if str_eq(id_s.as_str(), cid_s.as_str()) {
                                    return Some((href, media_type));
                                }
                            }
                        }
                    }
                }
            },
            _ => {},
        }
        i = i + 1;
    }
    None
}

/// Finds the cover image's manifest href and MIME type in the UTF-8 text of
/// a package document, given the cover-reference id, if one was gathered.
/// The first matching item is returned immediately, so malformed XML after
/// it does no harm; a syntax error matters only where no match stands
/// before it. No matching item in a clean document is not an error: both
/// outputs are then absent.
pub fn find_cover_path(opf_xml: &str, cover_id: &Option<String>) -> (r: Result<
    (Option<String>, Option<String>),
    EpubError,
>)
    ensures
        match spec_cover(xml_scan(opf_xml.spec_bytes()).0, cover_id.deep_view()) {
            Some(found) => r matches Ok(pair) && (pair.0 matches Some(h) && h@ == found.0) && (
            pair.1 matches Some(m) && m@ == found.1),
            None => {
                if xml_scan(opf_xml.spec_bytes()).1 {
                    r matches Ok(pair) && pair.0 is None && pair.1 is None
                } else {
                    r matches Err(e) && e == EpubError::PackageDocumentParse
                }
            },
        },
{
    let (events, clean) = parse_xml_events(opf_xml.as_bytes());
    match scan_cover(&events, cover_id) {
        Some((href, media_type)) => Ok((Some(href), Some(media_type))),
        None => {
            if clean {
                Ok((None, None))
            } else {
                Err(EpubError::PackageDocumentParse)
            }
        },
    }
}

} // verus!
