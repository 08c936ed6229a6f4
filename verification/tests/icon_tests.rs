use crypto::digest::Digest;
use crypto::sha1::Sha1;
use playwith::IconAction;
use playwith::icon::icon_cache_path;
use playwith::icon::icon_content_matches;
use playwith::icon::icon_decision;
use playwith::icon::icon_url;
use playwith::model::Timestamped;
use playwith::text::usize_to_string;

fn sha1_of(bytes: &[u8]) -> String {
    let mut h = Sha1::new();
    h.input(bytes);
    h.result_str()
}

#[test]
fn known_digest_matches() {
    // SHA-1("abc"), a fixed vector
    assert!(icon_content_matches(
        b"abc",
        "a9993e364706816aba3e25717850c26c9cd0d89d"
    ));
}

#[test]
fn digest_comparison_ignores_case() {
    assert!(icon_content_matches(
        b"abc",
        "A9993E364706816ABA3E25717850C26C9CD0D89D"
    ));
}

#[test]
fn wrong_digest_does_not_match() {
    assert!(!icon_content_matches(
        b"abd",
        "a9993e364706816aba3e25717850c26c9cd0d89d"
    ));
}

#[test]
fn missing_file_is_refetched() {
    assert_eq!(IconAction::Refetch, icon_decision(None, "whatever"));
}

#[test]
fn verified_content_is_a_cache_hit() {
    let bytes = b"icon image bytes".to_vec();
    let hash = sha1_of(&bytes);
    assert_eq!(IconAction::UseCached, icon_decision(Some(&bytes), &hash));
}

#[test]
fn corrupt_content_heals_itself() {
    let good = b"the real icon".to_vec();
    let hash = sha1_of(&good);
    let corrupt = b"bit-rotted data".to_vec();
    assert_eq!(IconAction::Refetch, icon_decision(Some(&corrupt), &hash));
    // after the re-fetch wrote the right bytes, the entry verifies
    assert_eq!(IconAction::UseCached, icon_decision(Some(&good), &hash));
}

#[test]
fn two_rounds_fetch_exactly_once() {
    let remote = b"fetched icon".to_vec();
    let hash = sha1_of(&remote);
    let mut disk: Option<Vec<u8>> = None;
    let mut fetches = 0;
    for _ in 0..2 {
        match icon_decision(disk.as_ref(), &hash) {
            IconAction::Refetch => {
                fetches += 1;
                disk = Some(remote.clone());
            }
            IconAction::UseCached => {}
        }
    }
    assert_eq!(1, fetches);
    assert_eq!(remote, disk.unwrap());
}

#[test]
fn cache_path_is_keyed_by_appid_and_hash() {
    assert_eq!("icons/440_abcdef.jpg", icon_cache_path(440, "abcdef"));
    assert_eq!("icons/0_h.jpg", icon_cache_path(0, "h"));
}

#[test]
fn remote_icon_address() {
    assert_eq!(
        "http://media.steampowered.com/steamcommunity/public/images/apps/730/deadbeef.jpg",
        icon_url(730, "deadbeef")
    );
}

#[test]
fn decimal_rendering() {
    assert_eq!("0", usize_to_string(0));
    assert_eq!("7", usize_to_string(7));
    assert_eq!("76561198054973203", usize_to_string(76561198054973203));
}

#[test]
fn timestamped_values() {
    let t = Timestamped::of_time(99, "v".to_string());
    assert_eq!(99, t.timestamp);
    assert_eq!("v", t.object);
    let now = Timestamped::of("w".to_string());
    assert_eq!("w", now.object);
}
