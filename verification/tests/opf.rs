//! Tests of the container resolver, metadata extractor, cover resolver and
//! path resolver on package-document text.
use epub_meta::container::find_opf_path;
use epub_meta::cover::find_cover_path;
use epub_meta::metadata::parse_opf_metadata;
use epub_meta::text::resolve_cover_path;
use epub_meta::EpubError;

#[test]
fn find_opf_path_reads_first_rootfile() {
    let xml = r#"<container>
  <rootfiles>
    <rootfile full-path="OEBPS/content.opf" media-type="application/oebps-package+xml"/>
    <rootfile full-path="other/alt.opf"/>
  </rootfiles>
</container>"#;
    assert_eq!(find_opf_path(xml).unwrap(), "OEBPS/content.opf");
}

#[test]
fn find_opf_path_skips_rootfile_without_full_path() {
    let xml = r#"<container>
  <rootfiles>
    <rootfile media-type="application/oebps-package+xml"/>
    <rootfile full-path="kept.opf"/>
  </rootfiles>
</container>"#;
    assert_eq!(find_opf_path(xml).unwrap(), "kept.opf");
}

#[test]
fn find_opf_path_returns_match_before_malformed_tail() {
    // The first matching rootfile is returned immediately: the mismatched
    // end tag after it is never reached.
    let xml = r#"<container>
  <rootfiles>
    <rootfile full-path="OEBPS/content.opf"/>
  </rootfiles>
</broken>"#;
    assert_eq!(find_opf_path(xml).unwrap(), "OEBPS/content.opf");
}

#[test]
fn find_opf_path_fails_without_rootfile() {
    let err = find_opf_path("<container/>").unwrap_err();
    assert_eq!(err, EpubError::ContainerParse);
}

#[test]
fn find_opf_path_fails_on_malformed_xml() {
    let err = find_opf_path("<container><rootfiles").unwrap_err();
    assert_eq!(err, EpubError::ContainerParse);
}

#[test]
fn identifier_with_colon_splits_scheme() {
    let opf = r#"<package><metadata>
      <identifier>isbn:1234567890</identifier>
    </metadata></package>"#;
    let (info, _) = parse_opf_metadata(opf).unwrap();
    assert_eq!(info.identifiers.len(), 1);
    assert_eq!(info.identifiers[0].scheme, "isbn");
    assert_eq!(info.identifiers[0].value, "1234567890");
}

#[test]
fn identifier_without_colon_is_unknown_scheme() {
    let opf = r#"<package><metadata>
      <identifier>9781234567897</identifier>
    </metadata></package>"#;
    let (info, _) = parse_opf_metadata(opf).unwrap();
    assert_eq!(info.identifiers[0].scheme, "unknown");
    assert_eq!(info.identifiers[0].value, "9781234567897");
}

#[test]
fn identifier_scheme_attribute_wins_and_keeps_value_untouched() {
    let opf = r#"<package><metadata>
      <identifier opf:scheme="ISBN">urn:isbn:123</identifier>
      <identifier scheme="DOI">10.1000/x</identifier>
    </metadata></package>"#;
    let (info, _) = parse_opf_metadata(opf).unwrap();
    assert_eq!(info.identifiers[0].scheme, "ISBN");
    assert_eq!(info.identifiers[0].value, "urn:isbn:123");
    assert_eq!(info.identifiers[1].scheme, "DOI");
    assert_eq!(info.identifiers[1].value, "10.1000/x");
}

#[test]
fn identifiers_keep_order_and_duplicates() {
    let opf = r#"<package><metadata>
      <identifier>a:1</identifier>
      <identifier>a:1</identifier>
    </metadata></package>"#;
    let (info, _) = parse_opf_metadata(opf).unwrap();
    assert_eq!(info.identifiers.len(), 2);
    assert_eq!(info.identifiers[0], info.identifiers[1]);
}

#[test]
fn missing_title_yields_placeholder() {
    let opf = r#"<package><metadata>
      <creator>Somebody</creator>
    </metadata></package>"#;
    let (info, _) = parse_opf_metadata(opf).unwrap();
    assert_eq!(info.title, "Unknown Title");
}

#[test]
fn authors_accumulate_in_order() {
    let opf = r#"<package><metadata>
      <creator>First Author</creator>
      <creator>Second Author</creator>
    </metadata></package>"#;
    let (info, _) = parse_opf_metadata(opf).unwrap();
    assert_eq!(info.authors, vec!["First Author".to_string(), "Second Author".to_string()]);
}

#[test]
fn repeated_scalar_fields_last_wins() {
    let opf = r#"<package><metadata>
      <language>en</language>
      <language>de</language>
      <publisher>A</publisher>
      <publisher>B</publisher>
    </metadata></package>"#;
    let (info, _) = parse_opf_metadata(opf).unwrap();
    assert_eq!(info.language.as_deref(), Some("de"));
    assert_eq!(info.publisher.as_deref(), Some("B"));
}

#[test]
fn empty_subjects_are_dropped() {
    let opf = r#"<package><metadata>
      <subject>Science</subject>
      <subject></subject>
      <subject>History</subject>
    </metadata></package>"#;
    let (info, _) = parse_opf_metadata(opf).unwrap();
    assert_eq!(info.subjects, vec!["Science".to_string(), "History".to_string()]);
}

#[test]
fn series_and_series_index_from_meta() {
    let opf = r#"<package><metadata>
      <meta name="calibre:series" content="The Cycle"/>
      <meta name="calibre:series_index" content="2.5"/>
    </metadata></package>"#;
    let (info, _) = parse_opf_metadata(opf).unwrap();
    assert_eq!(info.series.as_deref(), Some("The Cycle"));
    assert_eq!(info.series_number.as_deref(), Some("2.5"));
}

#[test]
fn cover_reference_id_is_gathered() {
    let opf = r#"<package><metadata>
      <meta name="cover" content="cover-id"/>
    </metadata></package>"#;
    let (_, cover_id) = parse_opf_metadata(opf).unwrap();
    assert_eq!(cover_id.as_deref(), Some("cover-id"));
}

#[test]
fn elements_outside_metadata_are_ignored() {
    let opf = r#"<package>
      <metadata><title>Real Title</title></metadata>
      <guide><title>Not This</title><meta name="cover" content="nope"/></guide>
    </package>"#;
    let (info, cover_id) = parse_opf_metadata(opf).unwrap();
    assert_eq!(info.title, "Real Title");
    assert!(cover_id.is_none());
}

#[test]
fn entities_in_text_are_unescaped() {
    let opf = r#"<package><metadata>
      <title>War &amp; Peace</title>
      <description>a &lt;long&gt; read</description>
    </metadata></package>"#;
    let (info, _) = parse_opf_metadata(opf).unwrap();
    assert_eq!(info.title, "War & Peace");
    assert_eq!(info.description.as_deref(), Some("a <long> read"));
}

#[test]
fn malformed_opf_is_a_parse_error() {
    let err = parse_opf_metadata("<package><metadata></mismatch></package>").unwrap_err();
    assert_eq!(err, EpubError::PackageDocumentParse);
}

#[test]
fn cover_needs_image_media_type() {
    let opf = r#"<package><manifest>
      <item id="style" href="style.css" media-type="text/css" properties="cover-image"/>
    </manifest></package>"#;
    let (href, mime) = find_cover_path(opf, &None).unwrap();
    assert!(href.is_none());
    assert!(mime.is_none());
}

#[test]
fn cover_by_properties_token_substring() {
    let opf = r#"<package><manifest>
      <item id="c" href="art/front.jpeg" media-type="image/jpeg" properties="svg cover-image"/>
    </manifest></package>"#;
    let (href, mime) = find_cover_path(opf, &None).unwrap();
    assert_eq!(href.as_deref(), Some("art/front.jpeg"));
    assert_eq!(mime.as_deref(), Some("image/jpeg"));
}

#[test]
fn cover_by_id_needs_the_reference() {
    let opf = r#"<package><manifest>
      <item id="cid" href="c.png" media-type="image/png"/>
    </manifest></package>"#;
    let (none_href, _) = find_cover_path(opf, &None).unwrap();
    assert!(none_href.is_none());
    let (href, mime) = find_cover_path(opf, &Some("cid".to_string())).unwrap();
    assert_eq!(href.as_deref(), Some("c.png"));
    assert_eq!(mime.as_deref(), Some("image/png"));
}

#[test]
fn find_cover_path_returns_match_before_malformed_tail() {
    let opf = r#"<package><manifest>
      <item id="c" href="c.jpg" media-type="image/jpeg" properties="cover-image"/>
    </manifest></broken>"#;
    let (href, mime) = find_cover_path(opf, &None).unwrap();
    assert_eq!(href.as_deref(), Some("c.jpg"));
    assert_eq!(mime.as_deref(), Some("image/jpeg"));
}

#[test]
fn find_cover_path_fails_when_error_precedes_any_match() {
    let opf = r#"<package><manifest></broken>
      <item id="c" href="c.jpg" media-type="image/jpeg" properties="cover-image"/>
    </manifest></package>"#;
    let err = find_cover_path(opf, &None).unwrap_err();
    assert_eq!(err, EpubError::PackageDocumentParse);
}

#[test]
fn item_without_href_is_no_candidate() {
    let opf = r#"<package><manifest>
      <item id="c" media-type="image/png" properties="cover-image"/>
      <item id="d" href="real.png" media-type="image/png" properties="cover-image"/>
    </manifest></package>"#;
    let (href, _) = find_cover_path(opf, &None).unwrap();
    assert_eq!(href.as_deref(), Some("real.png"));
}

#[test]
fn self_closing_metadata_opens_the_scope() {
    // A self-closing <metadata/> only ever toggles the scope on, so later
    // elements are still interpreted as metadata.
    let opf = r#"<package><metadata/><title>Still Seen</title></package>"#;
    let (info, _) = parse_opf_metadata(opf).unwrap();
    assert_eq!(info.title, "Still Seen");
}

#[test]
fn element_value_is_the_immediately_following_text_only() {
    // A child element where text was expected contributes no value: the
    // title stays unset and falls back to the placeholder, and the child's
    // own text is not mistaken for it.
    let opf = r#"<package><metadata><title><span>Hi</span></title></metadata></package>"#;
    let (info, _) = parse_opf_metadata(opf).unwrap();
    assert_eq!(info.title, "Unknown Title");
}

#[test]
fn empty_element_does_not_swallow_its_follower() {
    // The event after a self-closing recognized element is processed
    // normally: the creator, identifier and cover meta right after the
    // empty subjects are all taken up.
    let opf = r#"<package><metadata>
      <subject/><creator>A</creator>
      <subject/><identifier>isbn:9</identifier>
      <subject/><meta name="cover" content="x"/>
    </metadata></package>"#;
    let (info, cover_id) = parse_opf_metadata(opf).unwrap();
    assert_eq!(info.authors, vec!["A".to_string()]);
    assert_eq!(info.identifiers.len(), 1);
    assert_eq!(info.identifiers[0].scheme, "isbn");
    assert_eq!(cover_id.as_deref(), Some("x"));
    assert!(info.subjects.is_empty());
}

#[test]
fn empty_element_does_not_swallow_the_metadata_end_tag() {
    // The metadata end tag right after a self-closing element still closes
    // the scope, so the title outside the span is ignored.
    let opf = r#"<package><metadata><subject/></metadata><title>T</title></package>"#;
    let (info, _) = parse_opf_metadata(opf).unwrap();
    assert_eq!(info.title, "Unknown Title");
}

#[test]
fn last_occurrence_wins_across_an_empty_element() {
    let opf = r#"<package><metadata>
      <language>en</language><subject/><language>de</language>
    </metadata></package>"#;
    let (info, _) = parse_opf_metadata(opf).unwrap();
    assert_eq!(info.language.as_deref(), Some("de"));
}

#[test]
fn error_messages_name_the_failure() {
    assert!(EpubError::ContainerMissing.message().contains("container.xml"));
    assert!(!EpubError::SourceOpen.message().is_empty());
    assert!(!EpubError::ContainerParse.message().is_empty());
    assert!(!EpubError::PackageDocumentMissing.message().is_empty());
    assert!(!EpubError::PackageDocumentParse.message().is_empty());
}

#[test]
fn resolve_path_joins_against_package_directory() {
    assert_eq!(resolve_cover_path("OEBPS/content.opf", "images/cover.jpg"), "OEBPS/images/cover.jpg");
}

#[test]
fn resolve_path_at_archive_root() {
    assert_eq!(resolve_cover_path("content.opf", "cover.jpg"), "cover.jpg");
}

#[test]
fn resolve_path_normalizes_backslashes() {
    assert_eq!(resolve_cover_path("OEBPS/content.opf", r"img\cover.jpg"), "OEBPS/img/cover.jpg");
}
