//! The content-verified icon cache: cache keys, remote addresses, and
//! the hash check that decides between a cache hit and a re-fetch. The
//! caller reads, deletes, fetches and writes the files themselves.
use crate::text::decimal_of;
use crate::text::usize_to_string;
use vstd::prelude::*;
use vstd::string::*;

verus! {

/// The SHA-1 digest of the bytes, rendered as hex characters.
pub uninterp spec fn sha1_hex_of(bytes: Seq<u8>) -> Seq<char>;

/// The lowercasing of the characters.
pub uninterp spec fn lower_of(s: Seq<char>) -> Seq<char>;

/// Relies on crypto::sha1::Sha1, read out through Digest::result_str:
/// the digest depends on the input bytes alone.
#[verifier::external_body]
fn sha1_hex(bytes: &[u8]) -> (r: String)
    ensures
        r@ == sha1_hex_of(bytes@),
{
    let mut h = crypto::sha1::Sha1::new();
    crypto::digest::Digest::input(&mut h, bytes);
    crypto::digest::Digest::result_str(&mut h)
}

/// Relies on str::to_lowercase: the result depends on the characters
/// alone.
#[verifier::external_body]
fn lowercase(s: &str) -> (r: String)
    ensures
        r@ == lower_of(s@),
{
    s.to_lowercase()
}

/// Whether cached content is valid for an expected icon hash: its digest
/// equals the hash, compared case-insensitively.
pub open spec fn icon_matches(content: Seq<u8>, expected_hash: Seq<char>) -> bool {
    lower_of(sha1_hex_of(content)) == lower_of(expected_hash)
}

/// Checks cached icon content against the expected hash.
pub fn icon_content_matches(content: &[u8], expected_hash: &str) -> (r: bool)
    ensures
        r == icon_matches(content@, expected_hash@),
{
    let digest = sha1_hex(content);
    let digest_lower = lowercase(digest.as_str());
    let expected_lower = lowercase(expected_hash);
    digest_lower == expected_lower
}

/// What to do with a cache entry.
#[derive(Clone, Copy, Debug, PartialEq, Eq, Structural)]
pub enum IconAction {
    /// The file's content verifies: serve it, no remote call.
    UseCached,
    /// No usable file: (delete it if present and) fetch anew.
    Refetch,
}

/// The cache decision on an entry: the file's bytes if it exists, the
/// expected hash. Content that verifies is served; anything else —
/// missing, corrupt, or stale — is deleted and fetched again.
pub open spec fn cache_decision(content: Option<Seq<u8>>, expected_hash: Seq<char>) -> IconAction {
    match content {
        Some(c) => if icon_matches(c, expected_hash) {
            IconAction::UseCached
        } else {
            IconAction::Refetch
        },
        None => IconAction::Refetch,
    }
}

/// Decides what to do with a cache entry, from the on-disk bytes (if the
/// file exists) and the expected hash.
pub fn icon_decision(content: Option<&Vec<u8>>, expected_hash: &str) -> (r: IconAction)
    ensures
        r == cache_decision(
            match content {
                Some(c) => Some(c@),
                None => None,
            },
            expected_hash@,
        ),
{
    match content {
        Some(c) => if icon_content_matches(c.as_slice(), expected_hash) {
            IconAction::UseCached
        } else {
            IconAction::Refetch
        },
        None => IconAction::Refetch,
    }
}

/// Fetching the same entry twice in sequence performs exactly one remote
/// fetch: once stored content verifies against the hash, every later
/// look at the entry decides `UseCached`, and only then.
pub proof fn lemma_icon_cache_idempotence(content: Seq<u8>, expected_hash: Seq<char>)
    ensures
        cache_decision(Some(content), expected_hash) == IconAction::UseCached <==> icon_matches(
            content,
            expected_hash,
        ),
{
}

/// Corrupt content heals itself: a file whose content hash does not
/// match is never served; the decision is to delete and re-fetch.
pub proof fn lemma_icon_corruption_self_heal(content: Seq<u8>, expected_hash: Seq<char>)
    ensures
        !icon_matches(content, expected_hash) ==> cache_decision(Some(content), expected_hash)
            == IconAction::Refetch,
{
}

/// The deterministic cache key of an icon.
pub fn icon_cache_path(appid: usize, icon_hash: &str) -> (r: String)
    ensures
        r@ == "icons/"@ + decimal_of(appid as int) + "_"@ + icon_hash@ + ".jpg"@,
{
    let mut r = String::from_str("icons/");
    let digits = usize_to_string(appid);
    r.append(digits.as_str());
    r.append("_");
    r.append(icon_hash);
    r.append(".jpg");
    r
}

/// The remote address an icon is fetched from.
pub fn icon_url(appid: usize, icon_hash: &str) -> (r: String)
    ensures
        r@ == "http://media.steampowered.com/steamcommunity/public/images/apps/"@ + decimal_of(
            appid as int,
        ) + "/"@ + icon_hash@ + ".jpg"@,
{
    let mut r = String::from_str("http://media.steampowered.com/steamcommunity/public/images/apps/");
    let digits = usize_to_string(appid);
    r.append(digits.as_str());
    r.append("/");
    r.append(icon_hash);
    r.append(".jpg");
    r
}

} // verus!
