//! Access to the members of a zip archive given as bytes. The archive's
//! contents are a function of the bytes alone, named by `zip_contents`; the
//! verified pipeline reasons over that map and never looks inside the zip
//! machinery.
use vstd::prelude::*;

verus! {

/// The member map of a zip archive: member name to the member's bytes, for
/// every member whose bytes can be read whole; `None` where the bytes are
/// not a readable zip archive at all. A function of the bytes alone.
pub uninterp spec fn zip_contents(bytes: Seq<u8>) -> Option<Map<Seq<char>, Seq<u8>>>;

/// Relies on `zip::ZipArchive::new` over an in-memory cursor: it succeeds
/// exactly on byte sequences that parse as a zip archive.
#[verifier::external_body]
pub(crate) fn zip_valid(bytes: &[u8]) -> (r: bool)
    ensures
        r == (zip_contents(bytes@) is Some),
{
    zip::ZipArchive::new(std::io::Cursor::new(bytes.to_vec())).is_ok()
}

/// Relies on `zip::ZipArchive::new`, `by_name` and `std::io::Read::read_to_end`:
/// looking a member up by name and reading it whole is a function of the
/// archive bytes and the name, and succeeds exactly on the names in the
/// archive's member map.
#[verifier::external_body]
pub(crate) fn zip_member(bytes: &[u8], name: &str) -> (r: Option<Vec<u8>>)
    ensures
        match zip_contents(bytes@) {
            None => r is None,
            Some(members) => {
                &&& r is Some <==> members.dom().contains(name@)
                &&& (r matches Some(data) ==> members[name@] == data@)
            },
        },
{
    let mut archive = match zip::ZipArchive::new(std::io::Cursor::new(bytes.to_vec())) {
        Ok(a) => a,
        Err(_) => return None,
    };
    let mut member = match archive.by_name(name) {
        Ok(m) => m,
        Err(_) => return None,
    };
    let mut data: Vec<u8> = Vec::new();
    match std::io::Read::read_to_end(&mut member, &mut data) {
        Ok(_) => Some(data),
        Err(_) => None,
    }
}

} // verus!
