use playwith::Ids;
use playwith::PlayWithError;
use playwith::Profile;
use playwith::Revalidation;
use playwith::Timestamped;
use playwith::directory::ids_from_fields;
use playwith::resolve::FRESHNESS_WINDOW;

#[test]
fn test_username_to_id() {
    let expected = "76561198054973203";
    let doc = "<profile><steamID64>76561198054973203</steamID64>\
               <customURL>jkcclemens</customURL></profile>";
    let ids = Profile::parse_ids(doc.as_bytes(), "jkcclemens").unwrap();
    assert_eq!(expected, ids.steamid64);
    assert_eq!(Some("jkcclemens".to_string()), ids.custom_url);
}

#[test]
fn parse_ids_missing_id_is_not_found() {
    let doc = "<profile><customURL>someone</customURL></profile>";
    let err = Profile::parse_ids(doc.as_bytes(), "someone").unwrap_err();
    assert!(matches!(err, PlayWithError::NotFound(_)));
    assert_eq!("could not find someone", err.message());
}

#[test]
fn parse_ids_malformed_is_parse_failure() {
    let err = Profile::parse_ids(b"<<<not xml", "whoever").unwrap_err();
    assert!(matches!(err, PlayWithError::ParseFailure(_)));
}

#[test]
fn parse_ids_empty_custom_url_is_absent() {
    let doc = "<profile><steamID64>42</steamID64><customURL></customURL></profile>";
    let ids = Profile::parse_ids(doc.as_bytes(), "42").unwrap();
    assert_eq!("42", ids.steamid64);
    assert_eq!(None, ids.custom_url);
}

#[test]
fn ids_from_fields_treats_empty_alias_as_absent() {
    let ids = ids_from_fields(
        Some("77".to_string()),
        Some(String::new()),
        "77",
    )
    .unwrap();
    assert_eq!("77", ids.steamid64);
    assert_eq!(None, ids.custom_url);
}

#[test]
fn fresh_profile_needs_no_lookup() {
    let now: i64 = 1_000_000_000;
    let profile = Timestamped::of_time(
        now,
        Profile::new(Ids::new("123".to_string(), None), None),
    );
    match Profile::ensure_update(profile, None, now) {
        Revalidation::Ready(p) => {
            assert_eq!(now, p.timestamp);
            assert_eq!("123", p.object.ids.steamid64);
        }
        Revalidation::LookupNeeded(_) => panic!("fresh profile revalidated"),
    }
}

#[test]
fn stale_profile_always_triggers_lookup() {
    let now: i64 = 1_000_000_000;
    let profile = Timestamped::of_time(
        now - FRESHNESS_WINDOW - 1,
        Profile::new(Ids::new("123".to_string(), None), None),
    );
    match Profile::ensure_update(profile, None, now) {
        Revalidation::Ready(_) => panic!("stale profile accepted"),
        Revalidation::LookupNeeded(id) => assert_eq!("123", id),
    }
}

#[test]
fn stale_profile_with_fresh_ids_skips_lookup() {
    let now: i64 = 1_000_000_000;
    let profile = Timestamped::of_time(
        now - FRESHNESS_WINDOW - 1,
        Profile::new(Ids::new("123".to_string(), None), None),
    );
    let looked_up = Ids::new("123".to_string(), Some("alias".to_string()));
    match Profile::ensure_update(profile, Some(looked_up), now) {
        Revalidation::Ready(p) => {
            assert_eq!(now, p.timestamp);
            assert_eq!(Some("alias".to_string()), p.object.ids.custom_url);
            assert!(p.object.games.is_none());
        }
        Revalidation::LookupNeeded(_) => panic!("supplied ids ignored"),
    }
}

#[test]
fn never_seen_identity_is_already_stale() {
    let now: i64 = 1_000_000_000;
    let placeholder = Profile::stale_placeholder("55".to_string(), now);
    assert_eq!(now - FRESHNESS_WINDOW - 1, placeholder.timestamp);
    assert_eq!("55", placeholder.object.ids.steamid64);
    match Profile::ensure_update(placeholder, None, now) {
        Revalidation::Ready(_) => panic!("placeholder accepted as fresh"),
        Revalidation::LookupNeeded(id) => assert_eq!("55", id),
    }
}

#[test]
fn alias_backfill_persists_on_next_save() {
    let mut profile = Profile::new(Ids::new("123".to_string(), None), None);
    let looked_up = Ids::new("123".to_string(), Some("alias".to_string()));
    let save_needed = profile.backfill_alias(&looked_up);
    assert!(save_needed);
    assert_eq!(Some("alias".to_string()), profile.ids.custom_url);
}

#[test]
fn alias_backfill_keeps_existing_alias() {
    let mut profile = Profile::new(
        Ids::new("123".to_string(), Some("kept".to_string())),
        None,
    );
    let looked_up = Ids::new("123".to_string(), Some("other".to_string()));
    let save_needed = profile.backfill_alias(&looked_up);
    assert!(!save_needed);
    assert_eq!(Some("kept".to_string()), profile.ids.custom_url);
}

#[test]
fn profile_path_is_keyed_by_identity() {
    assert_eq!(
        "profiles/76561198054973203.json",
        Profile::get_path("76561198054973203")
    );
    let profile = Profile::new(Ids::new("9".to_string(), None), None);
    assert_eq!("profiles/9.json", profile.get_own_path());
}

#[test]
fn directory_urls() {
    assert_eq!(
        "http://steamcommunity.com/profiles/42/?xml=1",
        Profile::profile_xml_url("42")
    );
    assert_eq!(
        "http://steamcommunity.com/id/someone/?xml=1",
        Profile::username_xml_url("someone")
    );
}

#[test]
fn error_messages_carry_their_cause() {
    assert_eq!(
        "a",
        PlayWithError::TransportFailure("a".to_string()).message()
    );
    assert_eq!(
        "b",
        PlayWithError::RemoteStatusFailure("b".to_string()).message()
    );
    assert_eq!("c", PlayWithError::ParseFailure("c".to_string()).message());
    assert_eq!(
        "d",
        PlayWithError::FilesystemFailure("d".to_string()).message()
    );
    assert_eq!("e", PlayWithError::NotFound("e".to_string()).message());
}
