use vstd::prelude::*;

pub mod archive;
pub mod container;
pub mod cover;
pub mod metadata;
pub mod text;
pub mod xml;

use crate::archive::{zip_contents, zip_member, zip_valid};
use crate::container::{scan_opf_path, spec_opf_path};
use crate::cover::{scan_cover, spec_cover};
use crate::metadata::{
    scan_metadata, spec_book_info, spec_cover_id, EpubInfo, EpubInfoModel,
};
use crate::text::{resolve_cover_path, spec_resolve_path};
use crate::xml::{parse_xml_events, xml_scan, XmlEventModel};

verus! {

/// A fatal failure of the extraction pipeline. A missing or unreadable
/// cover image is not one: the pipeline degrades to a record without the
/// cover bytes instead.
#[derive(Clone, Copy, Debug, PartialEq, Eq, Structural)]
pub enum EpubError {
    /// The byte source is not a readable zip archive.
    SourceOpen,
    /// `META-INF/container.xml` is absent from the archive.
    ContainerMissing,
    /// The container descriptor is malformed or names no package document.
    ContainerParse,
    /// The package document named by the container is absent.
    PackageDocumentMissing,
    /// The package document is malformed XML.
    PackageDocumentParse,
}

impl EpubError {
    /// The description `message` returns for each failure.
    pub open spec fn message_spec(&self) -> Seq<char> {
        match self {
            EpubError::SourceOpen => "the byte source is not a readable zip archive"@,
            EpubError::ContainerMissing => "META-INF/container.xml not found in EPUB"@,
            EpubError::ContainerParse => "no usable rootfile/full-path in container.xml"@,
            EpubError::PackageDocumentMissing => "package document not found in EPUB"@,
            EpubError::PackageDocumentParse => "error parsing the package document"@,
        }
    }

    /// A short description, for callers that report the failure.
    pub fn message(&self) -> (r: &'static str)
        ensures
            r@ == self.message_spec(),
    {
        match self {
            EpubError::SourceOpen => "the byte source is not a readable zip archive",
            EpubError::ContainerMissing => "META-INF/container.xml not found in EPUB",
            EpubError::ContainerParse => "no usable rootfile/full-path in container.xml",
            EpubError::PackageDocumentMissing => "package document not found in EPUB",
            EpubError::PackageDocumentParse => "error parsing the package document",
        }
    }
}

/// What `EpubParser::parse` yields on an archive's bytes, stage by stage:
/// open the zip, read the container descriptor, locate the package
/// document, scan it for metadata and the cover item, resolve the cover's
/// member path, and read its bytes. The container stage returns the first
/// `rootfile` match as soon as it is reached, so malformed XML after the
/// match does no harm there; the metadata pass scans the package document
/// whole, so a syntax error anywhere in it is fatal. Only the last step may
/// fail without failing the whole operation: the record then keeps the MIME
/// type and goes without the bytes.
pub open spec fn spec_parse(bytes: Seq<u8>) -> Result<EpubInfoModel, EpubError> {
    match zip_contents(bytes) {
        None => Err(EpubError::SourceOpen),
        Some(members) => {
            if !members.dom().contains("META-INF/container.xml"@) {
                Err(EpubError::ContainerMissing)
            } else {
                match spec_opf_path(xml_scan(members["META-INF/container.xml"@]).0) {
                    None => Err(EpubError::ContainerParse),
                    Some(opf_path) => {
                        if !members.dom().contains(opf_path) {
                            Err(EpubError::PackageDocumentMissing)
                        } else if !xml_scan(members[opf_path]).1 {
                            Err(EpubError::PackageDocumentParse)
                        } else {
                            let oevs = xml_scan(members[opf_path]).0;
                            let base = spec_book_info(oevs);
                            match spec_cover(oevs, spec_cover_id(oevs)) {
                                None => Ok(base),
                                Some(found) => {
                                    let cover_path = spec_resolve_path(opf_path, found.0);
                                    Ok(
                                        EpubInfoModel {
                                            cover_data: if members.dom().contains(cover_path) {
                                                Some(members[cover_path])
                                            } else {
                                                None
                                            },
                                            cover_mime_type: Some(found.1),
                                            ..base
                                        },
                                    )
                                },
                            }
                        }
                    },
                }
            }
        },
    }
}

/// Extracts bibliographic metadata and the cover image from an EPUB container.
pub struct EpubParser;

impl EpubParser {
    pub fn new() -> (r: Self)
        ensures
            r == (EpubParser {}),
    {
        EpubParser {}
    }

    /// Runs the whole extraction pipeline on an EPUB archive's bytes.
    /// The result is exactly `spec_parse` of the bytes: the metadata record
    /// with the cover bytes and MIME type where the manifest names a
    /// readable cover, or the first fatal error.
    pub fn parse(&self, epub_bytes: &[u8]) -> (r: Result<EpubInfo, EpubError>)
        ensures
            match spec_parse(epub_bytes@) {
                Ok(info) => r matches Ok(e) && e.deep_view() == info,
                Err(err) => r matches Err(e) && e == err,
            },
    {
        if !zip_valid(epub_bytes) {
            return Err(EpubError::SourceOpen);
        }
        let container = match zip_member(epub_bytes, "META-INF/container.xml") {
            Some(bytes) => bytes,
            None => return Err(EpubError::ContainerMissing),
        };
        let (container_events, _) = parse_xml_events(container.as_slice());
        let opf_path = match scan_opf_path(&container_events) {
            Some(path) => path,
            None => return Err(EpubError::ContainerParse),
        };
        let opf = match zip_member(epub_bytes, opf_path.as_str()) {
            Some(bytes) => bytes,
            None => return Err(EpubError::PackageDocumentMissing),
        };
        let (opf_events, opf_clean) = parse_xml_events(opf.as_slice());
        if !opf_clean {
            return Err(EpubError::PackageDocumentParse);
        }
        let (mut info, cover_id) = scan_metadata(&opf_events);
        match scan_cover(&opf_events, &cover_id) {
            None => Ok(info),
            Some((href, media_type)) => {
                let cover_path = resolve_cover_path(opf_path.as_str(), href.as_str());
                info.cover_data = zip_member(epub_bytes, cover_path.as_str());
                info.cover_mime_type = Some(media_type);
                proof {
                    assert(info.deep_view() =~= spec_parse(epub_bytes@).unwrap());
                }
                Ok(info)
            },
        }
    }
}

/// A record the pipeline yields never carries cover bytes without a MIME
/// type; the converse may happen, where the named cover could not be read.
pub proof fn lemma_no_cover_bytes_without_mime(bytes: Seq<u8>)
    ensures
        spec_parse(bytes) matches Ok(info) ==> (info.cover_data is Some
            ==> info.cover_mime_type is Some),
{
}

/// An archive whose member map lacks `META-INF/container.xml` fails with
/// `ContainerMissing` before any package document is looked at.
pub proof fn lemma_missing_container_is_fatal(bytes: Seq<u8>)
    requires
        zip_contents(bytes) matches Some(members) && !members.dom().contains(
            "META-INF/container.xml"@,
        ),
    ensures
        spec_parse(bytes) == Err::<EpubInfoModel, EpubError>(EpubError::ContainerMissing),
{
}

/// Where the pipeline reaches a cover item whose resolved member path is in
/// the archive, the record carries exactly that member's bytes and the
/// item's media-type.
pub proof fn lemma_readable_cover_is_carried(
    bytes: Seq<u8>,
    members: Map<Seq<char>, Seq<u8>>,
    cevs: Seq<XmlEventModel>,
    opf_path: Seq<char>,
    oevs: Seq<XmlEventModel>,
    href: Seq<char>,
    mime: Seq<char>,
)
    requires
        zip_contents(bytes) == Some(members),
        members.dom().contains("META-INF/container.xml"@),
        xml_scan(members["META-INF/container.xml"@]).0 == cevs,
        spec_opf_path(cevs) == Some(opf_path),
        members.dom().contains(opf_path),
        xml_scan(members[opf_path]) == (oevs, true),
        spec_cover(oevs, spec_cover_id(oevs)) == Some((href, mime)),
        members.dom().contains(spec_resolve_path(opf_path, href)),
    ensures
        spec_parse(bytes) matches Ok(info) && info.cover_mime_type == Some(mime)
            && info.cover_data == Some(members[spec_resolve_path(opf_path, href)]),
{
}

/// The container stage keeps a `rootfile` match it has reached: where the
/// first match stands before any syntax error in `META-INF/container.xml`,
/// the pipeline goes on to that package document and never reports the
/// container malformed, however bad the descriptor is after the match.
pub proof fn lemma_container_match_before_error_is_kept(bytes: Seq<u8>)
    requires
        zip_contents(bytes) matches Some(members) && members.dom().contains(
            "META-INF/container.xml"@,
        ) && spec_opf_path(xml_scan(members["META-INF/container.xml"@]).0) is Some,
    ensures
        spec_parse(bytes) != Err::<EpubInfoModel, EpubError>(EpubError::ContainerParse),
{
}

/// Where the pipeline reaches a cover item whose resolved member path is
/// not in the archive, the whole operation still succeeds: the record keeps
/// the MIME type from the manifest and goes without cover bytes.
pub proof fn lemma_unreadable_cover_degrades(
    bytes: Seq<u8>,
    members: Map<Seq<char>, Seq<u8>>,
    cevs: Seq<XmlEventModel>,
    opf_path: Seq<char>,
    oevs: Seq<XmlEventModel>,
    href: Seq<char>,
    mime: Seq<char>,
)
    requires
        zip_contents(bytes) == Some(members),
        members.dom().contains("META-INF/container.xml"@),
        xml_scan(members["META-INF/container.xml"@]).0 == cevs,
        spec_opf_path(cevs) == Some(opf_path),
        members.dom().contains(opf_path),
        xml_scan(members[opf_path]) == (oevs, true),
        spec_cover(oevs, spec_cover_id(oevs)) == Some((href, mime)),
        !members.dom().contains(spec_resolve_path(opf_path, href)),
    ensures
        spec_parse(bytes) matches Ok(info) && info.cover_mime_type == Some(mime)
            && info.cover_data is None,
{
}

} // verus!
