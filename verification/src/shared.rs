//! The shared-library computer: the intersection of the game ids across
//! all profiles, with per-game play time averaged over the owning copies.
use crate::api::SteamApi;
use crate::errors::PlayWithError;
use crate::model::Game;
use crate::model::Profile;
use vstd::prelude::*;
use vstd::string::*;

verus! {

/// A game every profile owns, with display metadata from the first
/// encountered copy. Derived on every computation, never persisted.
#[derive(Debug)]
pub struct SharedGame {
    pub name: String,
    pub appid: usize,
    pub playtime_shared_average: usize,
    pub img_logo_url: String,
    pub img_icon_url: String,
}

/// The game lists of library-resolved profiles, in profile order.
pub open spec fn libraries_of(profiles: Seq<Profile>) -> Seq<Seq<Game>> {
    profiles.map_values(|p: Profile| p.games->0.response.games@)
}

/// Whether a library owns the game with this id.
pub open spec fn lib_owns(lib: Seq<Game>, id: int) -> bool {
    exists|k: int| 0 <= k < lib.len() && lib[k].appid == id
}

/// The set of game ids a library owns.
pub open spec fn owned_ids(lib: Seq<Game>) -> Set<int> {
    Set::new(|id: int| lib_owns(lib, id))
}

/// Whether every library owns the game with this id.
pub open spec fn all_own(libs: Seq<Seq<Game>>, id: int) -> bool {
    forall|k: int| 0 <= k < libs.len() ==> lib_owns(libs[k], id)
}

/// The ids shared across all libraries: the owned-id sets folded by
/// intersection, seeded with the first library's set — an empty
/// accumulator never stands in for "no sets folded yet".
pub open spec fn shared_ids(libs: Seq<Seq<Game>>) -> Set<int>
    decreases libs.len(),
{
    if libs.len() == 0 {
        Set::empty()
    } else if libs.len() == 1 {
        owned_ids(libs[0])
    } else {
        shared_ids(libs.drop_last()).intersect(owned_ids(libs.last()))
    }
}

/// Total play time of the copies of one game within one library.
pub open spec fn lib_sum(lib: Seq<Game>, id: int) -> int
    decreases lib.len(),
{
    if lib.len() == 0 {
        0
    } else {
        lib_sum(lib.drop_last(), id) + if lib.last().appid == id {
            lib.last().playtime_forever as int
        } else {
            0
        }
    }
}

/// Number of copies of one game within one library.
pub open spec fn lib_count(lib: Seq<Game>, id: int) -> int
    decreases lib.len(),
{
    if lib.len() == 0 {
        0
    } else {
        lib_count(lib.drop_last(), id) + if lib.last().appid == id {
            1int
        } else {
            0int
        }
    }
}

/// Total play time of every game in one library.
pub open spec fn lib_total(lib: Seq<Game>) -> int
    decreases lib.len(),
{
    if lib.len() == 0 {
        0
    } else {
        lib_total(lib.drop_last()) + lib.last().playtime_forever as int
    }
}

/// The first copy of one game within one library, in list order.
pub open spec fn lib_first(lib: Seq<Game>, id: int) -> Option<Game>
    decreases lib.len(),
{
    if lib.len() == 0 {
        None
    } else {
        let prev = lib_first(lib.drop_last(), id);
        if prev is Some {
            prev
        } else if lib.last().appid == id {
            Some(lib.last())
        } else {
            None
        }
    }
}

/// Total play time of one game over all owning copies, across libraries.
pub open spec fn total_sum(libs: Seq<Seq<Game>>, id: int) -> int
    decreases libs.len(),
{
    if libs.len() == 0 {
        0
    } else {
        total_sum(libs.drop_last(), id) + lib_sum(libs.last(), id)
    }
}

/// Number of owning copies of one game across libraries.
pub open spec fn total_count(libs: Seq<Seq<Game>>, id: int) -> int
    decreases libs.len(),
{
    if libs.len() == 0 {
        0
    } else {
        total_count(libs.drop_last(), id) + lib_count(libs.last(), id)
    }
}

/// Total play time of every copy of every game, across libraries.
pub open spec fn grand_total(libs: Seq<Seq<Game>>) -> int
    decreases libs.len(),
{
    if libs.len() == 0 {
        0
    } else {
        grand_total(libs.drop_last()) + lib_total(libs.last())
    }
}

/// Number of game records across libraries.
pub open spec fn grand_size(libs: Seq<Seq<Game>>) -> int
    decreases libs.len(),
{
    if libs.len() == 0 {
        0
    } else {
        grand_size(libs.drop_last()) + libs.last().len()
    }
}

/// The first encountered copy of one game, in profile order then list
/// order.
pub open spec fn first_copy(libs: Seq<Seq<Game>>, id: int) -> Option<Game>
    decreases libs.len(),
{
    if libs.len() == 0 {
        None
    } else {
        let prev = first_copy(libs.drop_last(), id);
        if prev is Some {
            prev
        } else {
            lib_first(libs.last(), id)
        }
    }
}

/// A library snapshot holds each game id at most once.
pub open spec fn lib_wf(lib: Seq<Game>) -> bool {
    forall|a: int, b: int| 0 <= a < b < lib.len() ==> lib[a].appid != lib[b].appid
}

/// Every library of the batch is a well-formed snapshot.
pub open spec fn libs_wf(libs: Seq<Seq<Game>>) -> bool {
    forall|k: int| 0 <= k < libs.len() ==> lib_wf(#[trigger] libs[k])
}

/// Every shared id is represented in the output: completeness of the
/// computed records with respect to the intersection.
pub open spec fn covers_shared(libs: Seq<Seq<Game>>, v: Seq<SharedGame>) -> bool {
    forall|id: int|
        #![trigger shared_ids(libs).contains(id)]
        shared_ids(libs).contains(id) ==> exists|x: int|
            0 <= x < v.len() && (#[trigger] v[x]).appid as int == id
}

/// What a correct output record for one shared game says: metadata and
/// icon hashes from the first encountered copy, play time the floored
/// mean over all owning copies.
pub open spec fn is_shared_game_for(libs: Seq<Seq<Game>>, sg: SharedGame) -> bool {
    &&& (first_copy(libs, sg.appid as int) matches Some(g) && sg.name == g.name
        && sg.img_logo_url == g.img_logo_url && sg.img_icon_url == g.img_icon_url)
    &&& total_count(libs, sg.appid as int) > 0
    &&& sg.playtime_shared_average as int == total_sum(libs, sg.appid as int) / total_count(
        libs,
        sg.appid as int,
    )
}

proof fn lemma_take_all<A>(s: Seq<A>)
    ensures
        s.take(s.len() as int) == s,
{
    assert(s.take(s.len() as int) =~= s);
}

proof fn lemma_take_succ<A>(s: Seq<A>, i: int)
    requires
        0 <= i < s.len(),
    ensures
        s.take(i + 1).drop_last() == s.take(i),
        s.take(i + 1).last() == s[i],
        s.take(i + 1).len() == i + 1,
{
    assert(s.take(i + 1).drop_last() =~= s.take(i));
}

proof fn lemma_lib_sums_nonneg(lib: Seq<Game>, id: int)
    ensures
        0 <= lib_sum(lib, id),
        0 <= lib_count(lib, id),
        0 <= lib_total(lib),
        lib_sum(lib, id) <= lib_total(lib),
        lib_count(lib, id) <= lib.len(),
    decreases lib.len(),
{
    if lib.len() > 0 {
        lemma_lib_sums_nonneg(lib.drop_last(), id);
    }
}

proof fn lemma_lib_step(lib: Seq<Game>, id: int, j: int)
    requires
        0 <= j < lib.len(),
    ensures
        lib_sum(lib.take(j + 1), id) == lib_sum(lib.take(j), id) + if lib[j].appid == id {
            lib[j].playtime_forever as int
        } else {
            0
        },
        lib_count(lib.take(j + 1), id) == lib_count(lib.take(j), id) + if lib[j].appid == id {
            1int
        } else {
            0int
        },
        lib_total(lib.take(j + 1)) == lib_total(lib.take(j)) + lib[j].playtime_forever as int,
        lib_first(lib.take(j + 1), id) == if lib_first(lib.take(j), id) is Some {
            lib_first(lib.take(j), id)
        } else if lib[j].appid == id {
            Some(lib[j])
        } else {
            None::<Game>
        },
{
    lemma_take_succ(lib, j);
}

proof fn lemma_libs_step(libs: Seq<Seq<Game>>, id: int, k: int)
    requires
        0 <= k < libs.len(),
    ensures
        total_sum(libs.take(k + 1), id) == total_sum(libs.take(k), id) + lib_sum(libs[k], id),
        total_count(libs.take(k + 1), id) == total_count(libs.take(k), id) + lib_count(
            libs[k],
            id,
        ),
        grand_total(libs.take(k + 1)) == grand_total(libs.take(k)) + lib_total(libs[k]),
        grand_size(libs.take(k + 1)) == grand_size(libs.take(k)) + libs[k].len(),
        first_copy(libs.take(k + 1), id) == if first_copy(libs.take(k), id) is Some {
            first_copy(libs.take(k), id)
        } else {
            lib_first(libs[k], id)
        },
{
    lemma_take_succ(libs, k);
}

proof fn lemma_grand_take_le(libs: Seq<Seq<Game>>, k: int)
    requires
        0 <= k <= libs.len(),
    ensures
        grand_total(libs.take(k)) <= grand_total(libs),
        grand_size(libs.take(k)) <= grand_size(libs),
    decreases libs.len() - k,
{
    if k == libs.len() {
        lemma_take_all(libs);
    } else {
        lemma_libs_step(libs, 0, k);
        lemma_lib_sums_nonneg(libs[k], 0);
        lemma_grand_take_le(libs, k + 1);
    }
}

proof fn lemma_total_le_grand(libs: Seq<Seq<Game>>, id: int)
    ensures
        0 <= total_sum(libs, id),
        total_sum(libs, id) <= grand_total(libs),
        0 <= total_count(libs, id),
        total_count(libs, id) <= grand_size(libs),
    decreases libs.len(),
{
    if libs.len() > 0 {
        lemma_total_le_grand(libs.drop_last(), id);
        lemma_lib_sums_nonneg(libs.last(), id);
    }
}

proof fn lemma_lib_total_take_le(lib: Seq<Game>, j: int)
    requires
        0 <= j <= lib.len(),
    ensures
        lib_total(lib.take(j)) <= lib_total(lib),
    decreases lib.len() - j,
{
    if j == lib.len() {
        lemma_take_all(lib);
    } else {
        lemma_lib_step(lib, 0, j);
        lemma_lib_total_take_le(lib, j + 1);
    }
}

proof fn lemma_partial_bound(libs: Seq<Seq<Game>>, id: int, k: int, j: int)
    requires
        0 <= k < libs.len(),
        0 <= j <= libs[k].len(),
    ensures
        total_sum(libs.take(k), id) + lib_sum(libs[k].take(j), id) <= grand_total(libs),
        total_count(libs.take(k), id) + lib_count(libs[k].take(j), id) <= grand_size(libs),
        0 <= total_sum(libs.take(k), id),
        0 <= lib_sum(libs[k].take(j), id),
        0 <= total_count(libs.take(k), id),
        0 <= lib_count(libs[k].take(j), id),
{
    lemma_total_le_grand(libs.take(k), id);
    lemma_lib_sums_nonneg(libs[k].take(j), id);
    lemma_lib_total_take_le(libs[k], j);
    lemma_libs_step(libs, id, k);
    lemma_grand_take_le(libs, k + 1);
    assert(libs[k].take(j).len() == j);
}

proof fn lemma_lib_owns_props(lib: Seq<Game>, id: int)
    requires
        lib_owns(lib, id),
    ensures
        lib_count(lib, id) >= 1,
        lib_first(lib, id) is Some,
    decreases lib.len(),
{
    lemma_lib_sums_nonneg(lib.drop_last(), id);
    if lib.last().appid == id {
    } else {
        let w = choose|k: int| 0 <= k < lib.len() && lib[k].appid == id;
        assert(lib.drop_last()[w] == lib[w]);
        assert(lib_owns(lib.drop_last(), id));
        lemma_lib_owns_props(lib.drop_last(), id);
    }
}

proof fn lemma_lib_first_appid(lib: Seq<Game>, id: int)
    ensures
        lib_first(lib, id) matches Some(g) ==> g.appid == id,
    decreases lib.len(),
{
    if lib.len() > 0 {
        lemma_lib_first_appid(lib.drop_last(), id);
    }
}

proof fn lemma_first_copy_appid(libs: Seq<Seq<Game>>, id: int)
    ensures
        first_copy(libs, id) matches Some(g) ==> g.appid == id,
    decreases libs.len(),
{
    if libs.len() > 0 {
        lemma_first_copy_appid(libs.drop_last(), id);
        lemma_lib_first_appid(libs.last(), id);
    }
}

proof fn lemma_owning_lib_props(libs: Seq<Seq<Game>>, id: int, k0: int)
    requires
        0 <= k0 < libs.len(),
        lib_owns(libs[k0], id),
    ensures
        total_count(libs, id) >= 1,
        first_copy(libs, id) is Some,
    decreases libs.len(),
{
    lemma_total_le_grand(libs.drop_last(), id);
    lemma_lib_sums_nonneg(libs.last(), id);
    if k0 == libs.len() - 1 {
        lemma_lib_owns_props(libs.last(), id);
    } else {
        assert(libs.drop_last()[k0] == libs[k0]);
        lemma_owning_lib_props(libs.drop_last(), id, k0);
    }
}

/// Membership in the folded intersection is exactly ownership by every
/// library.
pub proof fn lemma_shared_ids_characterization(libs: Seq<Seq<Game>>, id: int)
    requires
        libs.len() >= 1,
    ensures
        shared_ids(libs).contains(id) <==> all_own(libs, id),
    decreases libs.len(),
{
    if libs.len() == 1 {
        if lib_owns(libs[0], id) {
            assert forall|k: int| 0 <= k < libs.len() implies lib_owns(libs[k], id) by {
                assert(k == 0);
            }
        }
    } else {
        lemma_shared_ids_characterization(libs.drop_last(), id);
        if all_own(libs.drop_last(), id) && lib_owns(libs.last(), id) {
            assert forall|k: int| 0 <= k < libs.len() implies lib_owns(libs[k], id) by {
                if k < libs.len() - 1 {
                    assert(libs.drop_last()[k] == libs[k]);
                }
            }
        }
        if all_own(libs, id) {
            assert forall|k: int| 0 <= k < libs.drop_last().len() implies lib_owns(
                libs.drop_last()[k],
                id,
            ) by {
                assert(libs.drop_last()[k] == libs[k]);
            }
        }
    }
}

/// **Intersection correctness.** The shared ids are the set intersection
/// of the per-profile owned-id sets: an id is shared exactly when every
/// library owns it, and for a single profile the shared ids are exactly
/// its own.
pub proof fn lemma_intersection_correctness(libs: Seq<Seq<Game>>)
    requires
        libs.len() >= 1,
    ensures
        forall|id: int| #[trigger] shared_ids(libs).contains(id) ==> all_own(libs, id),
        forall|id: int| all_own(libs, id) ==> #[trigger] shared_ids(libs).contains(id),
        libs.len() == 1 ==> shared_ids(libs) == owned_ids(libs[0]),
{
    assert forall|id: int| #[trigger] shared_ids(libs).contains(id) implies all_own(
        libs,
        id,
    ) by {
        lemma_shared_ids_characterization(libs, id);
    }
    assert forall|id: int| all_own(libs, id) implies #[trigger] shared_ids(libs).contains(
        id,
    ) by {
        lemma_shared_ids_characterization(libs, id);
    }
}

/// **Empty-library scenario.** If any profile owns zero games, the
/// intersection is empty — an empty result, not an error.
pub proof fn lemma_empty_library(libs: Seq<Seq<Game>>, k: int)
    requires
        0 <= k < libs.len(),
        libs[k].len() == 0,
    ensures
        shared_ids(libs) == Set::<int>::empty(),
{
    assert forall|id: int| !(#[trigger] shared_ids(libs).contains(id)) by {
        lemma_shared_ids_characterization(libs, id);
        assert(!lib_owns(libs[k], id));
    }
    assert(shared_ids(libs) =~= Set::<int>::empty());
}

/// The game views of a gathered batch of libraries.
pub open spec fn views_of(libs: Seq<Vec<Game>>) -> Seq<Seq<Game>> {
    libs.map_values(|v: Vec<Game>| v@)
}

/// Whether a library holds a copy of the game with this id.
#[verifier::loop_isolation(false)]
fn lib_contains(lib: &Vec<Game>, id: usize) -> (r: bool)
    ensures
        r == lib_owns(lib@, id as int),
{
    let mut i: usize = 0;
    while i < lib.len()
        invariant
            i <= lib@.len(),
            forall|k: int| 0 <= k < i ==> (#[trigger] lib@[k]).appid != id,
        decreases lib@.len() - i,
    {
        if lib[i].appid == id {
            proof {
                assert(lib_owns(lib@, id as int));
            }
            return true;
        }
        i += 1;
    }
    false
}

/// Builds the output record for one shared game: canonical metadata from
/// the first encountered copy, play time averaged over the owning copies
/// with floor division.
#[verifier::loop_isolation(false)]
fn build_shared_game(libs: &Vec<Vec<Game>>, id: usize) -> (r: SharedGame)
    requires
        exists|k0: int| 0 <= k0 < views_of(libs@).len() && lib_owns(
            #[trigger] views_of(libs@)[k0],
            id as int,
        ),
        grand_total(views_of(libs@)) <= usize::MAX as int,
        grand_size(views_of(libs@)) <= usize::MAX as int,
    ensures
        r.appid == id,
        is_shared_game_for(views_of(libs@), r),
{
    let ghost lseq = views_of(libs@);
    let mut sum: usize = 0;
    let mut count: usize = 0;
    let mut first: Option<Game> = None;
    let mut k: usize = 0;
    proof {
        assert(lseq.take(0) =~= Seq::<Seq<Game>>::empty());
    }
    while k < libs.len()
        invariant
            k <= libs@.len(),
            sum as int == total_sum(lseq.take(k as int), id as int),
            count as int == total_count(lseq.take(k as int), id as int),
            first == first_copy(lseq.take(k as int), id as int),
        decreases libs@.len() - k,
    {
        let lib: &Vec<Game> = &libs[k];
        proof {
            assert(lib@ == lseq[k as int]);
            assert(lib@.take(0) =~= Seq::<Game>::empty());
        }
        let mut j: usize = 0;
        while j < lib.len()
            invariant
                j <= lib@.len(),
                k < libs@.len(),
                sum as int == total_sum(lseq.take(k as int), id as int) + lib_sum(
                    lib@.take(j as int),
                    id as int,
                ),
                count as int == total_count(lseq.take(k as int), id as int) + lib_count(
                    lib@.take(j as int),
                    id as int,
                ),
                first == if first_copy(lseq.take(k as int), id as int) is Some {
                    first_copy(lseq.take(k as int), id as int)
                } else {
                    lib_first(lib@.take(j as int), id as int)
                },
            decreases lib@.len() - j,
        {
            let g = &lib[j];
            proof {
                lemma_lib_step(lib@, id as int, j as int);
                lemma_partial_bound(lseq, id as int, k as int, j as int + 1);
            }
            if g.appid == id {
                sum = sum + g.playtime_forever;
                count = count + 1;
                if first.is_none() {
                    first = Some(g.duplicate());
                }
            }
            j += 1;
        }
        proof {
            lemma_take_all(lib@);
            lemma_libs_step(lseq, id as int, k as int);
        }
        k += 1;
    }
    proof {
        lemma_take_all(lseq);
        let k0 = choose|k0: int| 0 <= k0 < lseq.len() && lib_owns(#[trigger] lseq[k0], id as int);
        lemma_owning_lib_props(lseq, id as int, k0);
        lemma_first_copy_appid(lseq, id as int);
    }
    let average = sum / count;
    match first {
        Some(g) => SharedGame {
            name: g.name,
            appid: id,
            playtime_shared_average: average,
            img_logo_url: g.img_logo_url,
            img_icon_url: g.img_icon_url,
        },
        None => vstd::pervasive::unreached(),
    }
}

/// The whole computation, holding the authenticated client whose cached
/// libraries the caller has resolved.
/// The ids of the first library that every library owns, in
/// first-library order, each id once.
#[verifier::loop_isolation(false)]
#[verifier::rlimit(100)]
#[verifier::spinoff_prover]
fn shared_id_list(libs: &Vec<Vec<Game>>) -> (r: Vec<usize>)
    requires
        libs@.len() >= 1,
        lib_wf(views_of(libs@)[0]),
    ensures
        forall|m: int| 0 <= m < r@.len() ==> all_own(views_of(libs@), (#[trigger] r@[m]) as int),
        forall|id: int|
            #![trigger all_own(views_of(libs@), id)]
            all_own(views_of(libs@), id) ==> exists|m: int|
                0 <= m < r@.len() && (#[trigger] r@[m]) as int == id,
        forall|a: int, b: int| 0 <= a < b < r@.len() ==> (#[trigger] r@[a]) != (#[trigger] r@[b]),
{
    let ghost lseq = views_of(libs@);
    let mut shared: Vec<usize> = Vec::new();
    let mut j: usize = 0;
    while j < libs[0].len()
        invariant
            j <= lseq[0].len(),
            forall|m: int| 0 <= m < shared@.len() ==> all_own(
                lseq,
                (#[trigger] shared@[m]) as int,
            ),
            forall|m: int|
                #![trigger shared@[m]]
                0 <= m < shared@.len() ==> exists|t: int|
                    0 <= t < j && (#[trigger] lseq[0][t]).appid == shared@[m],
            forall|t: int|
                #![trigger lseq[0][t]]
                0 <= t < j && all_own(lseq, lseq[0][t].appid as int) ==> exists|m: int|
                    0 <= m < shared@.len() && (#[trigger] shared@[m]) == lseq[0][t].appid,
            forall|a: int, b: int| 0 <= a < b < shared@.len() ==> (#[trigger] shared@[a])
                != (#[trigger] shared@[b]),
        decreases lseq[0].len() - j,
    {
        let ghost shared0 = shared@;
        let g_appid: usize = libs[0][j].appid;
        let mut all: bool = true;
        let mut i: usize = 1;
        while i < libs.len()
            invariant
                1 <= i <= libs@.len(),
                j < lseq[0].len(),
                g_appid == lseq[0][j as int].appid,
                all == (forall|t: int|
                    1 <= t < i ==> lib_owns(#[trigger] lseq[t], g_appid as int)),
            decreases libs@.len() - i,
        {
            proof {
                assert(lseq[i as int] == libs@[i as int]@);
            }
            if !lib_contains(&libs[i], g_appid) {
                all = false;
            }
            i += 1;
        }
        if all {
            proof {
                assert(lib_owns(lseq[0], g_appid as int));
                assert forall|t: int| 0 <= t < lseq.len() implies lib_owns(
                    #[trigger] lseq[t],
                    g_appid as int,
                ) by {
                    if t >= 1 {
                    }
                }
                assert forall|m: int| 0 <= m < shared@.len() implies (#[trigger] shared@[m])
                    != g_appid by {
                    let t = choose|t: int|
                        0 <= t < j && (#[trigger] lseq[0][t]).appid == shared@[m];
                    assert(lseq[0][t].appid != lseq[0][j as int].appid);
                }
            }
            shared.push(g_appid);
        }
        proof {
            assert(all_own(lseq, g_appid as int) ==> all) by {
                if all_own(lseq, g_appid as int) {
                    assert forall|t: int| 1 <= t < lseq.len() implies lib_owns(
                        #[trigger] lseq[t],
                        g_appid as int,
                    ) by {}
                }
            }
            assert forall|t: int|
                #![trigger lseq[0][t]]
                0 <= t < j + 1 && all_own(lseq, lseq[0][t].appid as int) implies exists|m: int|
                0 <= m < shared@.len() && (#[trigger] shared@[m]) == lseq[0][t].appid by {
                if t == j {
                    assert(all);
                    assert(shared@[shared@.len() - 1] == lseq[0][t].appid);
                } else {
                    let m0 = choose|m0: int|
                        0 <= m0 < shared0.len() && shared0[m0] == lseq[0][t].appid;
                    assert(shared@[m0] == lseq[0][t].appid);
                }
            }
        }
        j += 1;
    }
    proof {
        assert forall|id: int|
            #![trigger all_own(lseq, id)]
            all_own(lseq, id) implies exists|m: int|
            0 <= m < shared@.len() && (#[trigger] shared@[m]) as int == id by {
            assert(lib_owns(lseq[0], id));
            let t = choose|t: int| 0 <= t < lseq[0].len() && lseq[0][t].appid == id;
            assert(all_own(lseq, lseq[0][t].appid as int));
            let m0 = choose|m0: int|
                0 <= m0 < shared@.len() && (#[trigger] shared@[m0]) == lseq[0][t].appid;
            assert(shared@[m0] as int == id);
        }
    }
    shared
}

pub struct PlayWith {
    pub api: SteamApi,
}

impl PlayWith {
    pub fn new(api_key: String) -> (r: PlayWith)
        ensures
            r.api.key == api_key,
    {
        PlayWith { api: SteamApi::new(api_key) }
    }

    /// The shared library of the given profiles: every game all of them
    /// own, each with metadata from its first encountered copy and the
    /// play time averaged (floor division) over the owning copies. The
    /// output is unordered; ranking is the caller's responsibility.
    ///
    /// The profiles must be library-resolved, each library a snapshot
    /// holding each game id once, and the total play time and record
    /// count must be machine-representable.
    #[verifier::loop_isolation(false)]
    #[verifier::rlimit(100)]
    #[verifier::spinoff_prover]
    pub fn find_shared_games(&self, profiles: &[Profile]) -> (r: Result<
        Vec<SharedGame>,
        PlayWithError,
    >)
        requires
            forall|k: int| 0 <= k < profiles@.len() ==> (#[trigger] profiles@[k].games) is Some,
            libs_wf(libraries_of(profiles@)),
            grand_total(libraries_of(profiles@)) <= usize::MAX as int,
            grand_size(libraries_of(profiles@)) <= usize::MAX as int,
        ensures
            r matches Ok(v),
            r matches Ok(v) ==> forall|x: int|
                0 <= x < v@.len() ==> shared_ids(libraries_of(profiles@)).contains(
                    (#[trigger] v@[x]).appid as int,
                ),
            r matches Ok(v) ==> forall|x: int|
                0 <= x < v@.len() ==> is_shared_game_for(
                    libraries_of(profiles@),
                    #[trigger] v@[x],
                ),
            r matches Ok(v) ==> forall|a: int, b: int|
                0 <= a < b < v@.len() ==> (#[trigger] v@[a]).appid != (#[trigger] v@[b]).appid,
            r matches Ok(v) ==> covers_shared(libraries_of(profiles@), v@),
    {
        let ghost lseq = libraries_of(profiles@);
        let mut libs: Vec<Vec<Game>> = Vec::new();
        let mut k: usize = 0;
        while k < profiles.len()
            invariant
                k <= profiles@.len(),
                libs@.len() == k,
                forall|i: int| 0 <= i < k ==> (#[trigger] libs@[i])@ == lseq[i],
            decreases profiles@.len() - k,
        {
            match &profiles[k].games {
                Some(sr) => {
                    let gr = sr.response.duplicate();
                    libs.push(gr.games);
                },
                None => {
                    return Err(
                        PlayWithError::NotFound(
                            String::from_str("library not resolved"),
                        ),
                    );
                },
            }
            k += 1;
        }
        proof {
            assert(views_of(libs@) =~= lseq);
        }
        if libs.len() == 0 {
            proof {
                assert(lseq.len() == 0);
                assert forall|id: int| !(#[trigger] shared_ids(lseq).contains(id)) by {}
                assert(covers_shared(lseq, Seq::<SharedGame>::empty()));
            }
            let empty: Vec<SharedGame> = Vec::new();
            return Ok(empty);
        }
        proof {
            assert(lib_wf(lseq[0]));
        }
        let shared: Vec<usize> = shared_id_list(&libs);
        let mut out: Vec<SharedGame> = Vec::new();
        let mut m: usize = 0;
        while m < shared.len()
            invariant
                m <= shared@.len(),
                out@.len() == m,
                forall|x: int| 0 <= x < m ==> (#[trigger] out@[x]).appid == shared@[x],
                forall|x: int| 0 <= x < m ==> is_shared_game_for(lseq, #[trigger] out@[x]),
            decreases shared@.len() - m,
        {
            let id = shared[m];
            proof {
                assert(all_own(lseq, id as int));
                assert(lib_owns(views_of(libs@)[0], id as int));
            }
            let sg = build_shared_game(&libs, id);
            out.push(sg);
            m += 1;
        }
        proof {
            assert forall|x: int| 0 <= x < out@.len() implies shared_ids(lseq).contains(
                (#[trigger] out@[x]).appid as int,
            ) by {
                lemma_shared_ids_characterization(lseq, out@[x].appid as int);
            }
            assert forall|id: int|
                #![trigger shared_ids(lseq).contains(id)]
                shared_ids(lseq).contains(id) implies exists|x: int|
                0 <= x < out@.len() && (#[trigger] out@[x]).appid as int == id by {
                lemma_shared_ids_characterization(lseq, id);
                assert(all_own(views_of(libs@), id));
                let m0 = choose|m0: int|
                    0 <= m0 < shared@.len() && (#[trigger] shared@[m0]) as int == id;
                assert(out@[m0].appid as int == id);
            }
            assert(covers_shared(lseq, out@));
        }
        Ok(out)
    }
}

} // verus!
