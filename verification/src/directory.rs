//! Parsing of the remote directory's profile-information document: the
//! two named fields that resolve a token to identity data.
use crate::errors::PlayWithError;
use crate::model::Ids;
use crate::model::Profile;
use vstd::prelude::*;
use vstd::string::*;

verus! {

/// Whether the bytes parse as a well-formed XML document.
pub uninterp spec fn xml_well_formed(bytes: Seq<u8>) -> bool;

/// The text of the document's `steamID64` child, absent when the child
/// is missing or empty of text. A function of the bytes alone.
pub uninterp spec fn steamid64_text_of(bytes: Seq<u8>) -> Option<Seq<char>>;

/// The text of the document's `customURL` child, absent when the child
/// is missing or empty of text. A function of the bytes alone.
pub uninterp spec fn custom_url_text_of(bytes: Seq<u8>) -> Option<Seq<char>>;

/// Relies on xmltree: `Element::parse` builds the document from the
/// bytes (succeeding exactly on well-formed XML), `get_child` finds the
/// first child with the given name, and `get_text` reads its
/// concatenated text content. All of it depends on the bytes alone.
#[verifier::external_body]
fn read_directory_fields(bytes: &[u8]) -> (r: Option<(Option<String>, Option<String>)>)
    ensures
        r is Some <==> xml_well_formed(bytes@),
        r matches Some(t) ==> {
            &&& (t.0 is Some <==> steamid64_text_of(bytes@) is Some)
            &&& (t.0 matches Some(s) ==> s@ == steamid64_text_of(bytes@)->0)
            &&& (t.1 is Some <==> custom_url_text_of(bytes@) is Some)
            &&& (t.1 matches Some(u) ==> u@ == custom_url_text_of(bytes@)->0)
        },
{
    match xmltree::Element::parse(bytes) {
        Ok(doc) => Some((
            doc.get_child("steamID64").and_then(|c| c.get_text()).map(|t| t.into_owned()),
            doc.get_child("customURL").and_then(|c| c.get_text()).map(|t| t.into_owned()),
        )),
        Err(_) => None,
    }
}

/// Builds identity data from the two extracted directory fields.
///
/// A missing numeric identity is `NotFound`, naming the token the caller
/// was resolving; an empty canonical alias counts as absent.
pub fn ids_from_fields(id_text: Option<String>, custom_url_text: Option<String>, identifier: &str)
    -> (r: Result<Ids, PlayWithError>)
    ensures
        id_text is None ==> (r matches Err(e) && e matches PlayWithError::NotFound(m) && m@
            == "could not find "@ + identifier@),
        id_text is Some ==> (r matches Ok(ids) && ids.steamid64 == id_text->0 && ids.custom_url
            == (match custom_url_text {
                Some(u) => if u@.len() == 0 { None } else { Some(u) },
                None => None::<String>,
            })),
    {
    let id = match id_text {
        Some(id) => id,
        None => {
            let mut m = String::from_str("could not find ");
            m.append(identifier);
            return Err(PlayWithError::NotFound(m));
        },
    };
    let custom_url = match custom_url_text {
        Some(x) => if x.as_str().is_empty() {
            None
        } else {
            Some(x)
        },
        None => None,
    };
    Ok(Ids::new(id, custom_url))
}

impl Profile {
    /// Extracts identity data from a directory document.
    ///
    /// Malformed bytes are exactly the `ParseFailure` outcomes. On a
    /// well-formed document the numeric identity is the `steamID64`
    /// child's text — absent, the result is `NotFound` naming the
    /// token — and the alias is the `customURL` child's text, with an
    /// empty field counting as absent.
    pub fn parse_ids(bytes: &[u8], identifier: &str) -> (r: Result<Ids, PlayWithError>)
        ensures
            !xml_well_formed(bytes@) <==> (r matches Err(e) && e matches
                PlayWithError::ParseFailure(_)),
            xml_well_formed(bytes@) && steamid64_text_of(bytes@) is Some ==> (r matches Ok(ids)
                && ids.steamid64@ == steamid64_text_of(bytes@)->0
                && (match custom_url_text_of(bytes@) {
                    Some(u) => if u.len() == 0 {
                        ids.custom_url is None
                    } else {
                        ids.custom_url matches Some(cu) && cu@ == u
                    },
                    None => ids.custom_url is None,
                })),
            xml_well_formed(bytes@) && steamid64_text_of(bytes@) is None ==> (r matches Err(e)
                && e matches PlayWithError::NotFound(m) && m@ == "could not find "@
                + identifier@),
    {
        let fields = match read_directory_fields(bytes) {
            Some(f) => f,
            None => {
                return Err(
                    PlayWithError::ParseFailure(
                        String::from_str("could not parse Steam Community XML"),
                    ),
                );
            },
        };
        let (id_text, custom_url_text) = fields;
        ids_from_fields(id_text, custom_url_text, identifier)
    }
}

} // verus!
