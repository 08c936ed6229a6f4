//! The staleness policy: when a persisted profile's identity data can be
//! trusted, and how a profile is rebuilt after a directory lookup.
use crate::model::Ids;
use crate::model::Profile;
use crate::model::Timestamped;
use crate::model::TimestampedProfile;
use vstd::prelude::*;
use vstd::string::*;

verus! {

/// Seconds a persisted profile's identity data stays trustworthy.
pub const FRESHNESS_WINDOW: i64 = 3600;

/// A profile captured at `timestamp` is fresh at `now` while less than
/// the freshness window has passed.
pub open spec fn is_fresh(timestamp: int, now: int) -> bool {
    now - timestamp < FRESHNESS_WINDOW as int
}

/// What revalidating a profile came to: either a profile ready for use,
/// or the instruction to look the named identity up in the directory
/// first.
pub enum Revalidation {
    /// The profile can be used as it stands.
    Ready(TimestampedProfile),
    /// A directory lookup for this numeric identity is needed; its result
    /// goes back into `Profile::ensure_update`.
    LookupNeeded(String),
}

impl Profile {
    /// Applies the staleness policy to a loaded (or synthesized) profile.
    ///
    /// A fresh profile passes through unchanged. A stale one is rebuilt
    /// from freshly-resolved identity data with its library cleared; when
    /// no such data was supplied, the caller is told to perform the
    /// directory lookup.
    pub fn ensure_update(profile: TimestampedProfile, ids: Option<Ids>, now: i64) -> (r:
        Revalidation)
        ensures
            is_fresh(profile.timestamp as int, now as int) ==> r == Revalidation::Ready(profile),
            !is_fresh(profile.timestamp as int, now as int) && ids is Some ==> (r matches
                Revalidation::Ready(p) && p.timestamp == now && p.object.ids == ids->Some_0
                && p.object.games is None),
            !is_fresh(profile.timestamp as int, now as int) && ids is None ==> (r matches
                Revalidation::LookupNeeded(id) && id == profile.object.ids.steamid64),
    {
        let fresh = if now >= i64::MIN + FRESHNESS_WINDOW {
            profile.timestamp > now - FRESHNESS_WINDOW
        } else {
            // `now` so close to the representable minimum that any
            // timestamp is within the window
            true
        };
        if fresh {
            Revalidation::Ready(profile)
        } else {
            match ids {
                Some(i) => Revalidation::Ready(
                    Timestamped::of_time(now, Profile::new(i, None)),
                ),
                None => Revalidation::LookupNeeded(profile.object.ids.steamid64),
            }
        }
    }

    /// A profile for a never-seen identity, deliberately one second past
    /// the freshness window so that revalidation is forced at once. This
    /// unifies the never-seen and seen-but-old paths.
    pub fn stale_placeholder(steam_id: String, now: i64) -> (r: TimestampedProfile)
        requires
            now >= i64::MIN + FRESHNESS_WINDOW + 1,
        ensures
            r.timestamp == now - FRESHNESS_WINDOW - 1,
            r.object.ids.steamid64 == steam_id,
            r.object.ids.custom_url is None,
            r.object.games is None,
            !is_fresh(r.timestamp as int, now as int),
    {
        Timestamped::of_time(
            now - FRESHNESS_WINDOW - 1,
            Profile::new(Ids::new(steam_id, None), None),
        )
    }

    /// The directory document for a numeric identity.
    pub fn profile_xml_url(steam_id: &str) -> (r: String)
        ensures
            r@ == "http://steamcommunity.com/profiles/"@ + steam_id@ + "/?xml=1"@,
    {
        let mut r = String::from_str("http://steamcommunity.com/profiles/");
        r.append(steam_id);
        r.append("/?xml=1");
        r
    }

    /// The directory document for an alias.
    pub fn username_xml_url(username: &str) -> (r: String)
        ensures
            r@ == "http://steamcommunity.com/id/"@ + username@ + "/?xml=1"@,
    {
        let mut r = String::from_str("http://steamcommunity.com/id/");
        r.append(username);
        r.append("/?xml=1");
        r
    }
}

/// Staleness is monotone in the profile's age: anything the window or
/// more in the past is revalidated, anything captured now never is.
pub proof fn lemma_staleness_monotonicity(timestamp: int, now: int)
    ensures
        timestamp <= now - FRESHNESS_WINDOW as int ==> !is_fresh(timestamp, now),
        timestamp == now ==> is_fresh(timestamp, now),
        forall|earlier: int|
            !is_fresh(timestamp, now) && earlier <= timestamp ==> !is_fresh(earlier, now),
{
}

} // verus!
