use vstd::prelude::*;
use vstd::string::StringExecFns;

use crate::catalog::{
    is_eligible, spec_eligible, spec_flavor_of_entry, type_id_or_zero, CatalogEntry, Category,
    FileIndexEntry, FileSummary,
};
use crate::error::Error;
use crate::flavor::{get_flavor_from_game_version_type_id, GameFlavor};

verus! {

/// The catalog this crate integrates with, tagged on every canonical record.
#[derive(Clone, Copy, Debug, PartialEq, Eq, Structural)]
pub enum Source {
    Curse,
}

/// One resolved version of an add-on: the newest eligible file of one flavor.
#[derive(Debug, PartialEq)]
pub struct CanonicalVersion {
    pub game_version: Option<String>,
    pub flavor: GameFlavor,
    pub date: String,
}

/// The canonical add-on record this crate produces, exactly one per catalog
/// entry.  It is the only structure that outlives a fetch.
#[derive(Debug, PartialEq)]
pub struct CanonicalAddon {
    pub id: i64,
    pub name: String,
    pub url: String,
    pub number_of_downloads: u64,
    pub summary: String,
    pub versions: Vec<CanonicalVersion>,
    pub categories: Vec<String>,
    pub source: Source,
}

/// The mathematical model of a canonical version.
#[verifier::ext_equal]
pub ghost struct VersionModel {
    pub game_version: Option<Seq<char>>,
    pub flavor: GameFlavor,
    pub date: Seq<char>,
}

/// The mathematical model of a canonical add-on record.
#[verifier::ext_equal]
pub ghost struct AddonModel {
    pub id: int,
    pub name: Seq<char>,
    pub url: Seq<char>,
    pub number_of_downloads: u64,
    pub summary: Seq<char>,
    pub versions: Seq<VersionModel>,
    pub categories: Seq<Seq<char>>,
    pub source: Source,
}

impl View for CanonicalVersion {
    type V = VersionModel;

    open spec fn view(&self) -> VersionModel {
        VersionModel {
            game_version: self.game_version.deep_view(),
            flavor: self.flavor,
            date: self.date@,
        }
    }
}

impl DeepView for CanonicalVersion {
    type V = VersionModel;

    open spec fn deep_view(&self) -> VersionModel {
        self.view()
    }
}

impl View for CanonicalAddon {
    type V = AddonModel;

    open spec fn view(&self) -> AddonModel {
        AddonModel {
            id: self.id as int,
            name: self.name@,
            url: self.url@,
            number_of_downloads: self.number_of_downloads,
            summary: self.summary@,
            versions: self.versions.deep_view(),
            categories: self.categories.deep_view(),
            source: self.source,
        }
    }
}

impl DeepView for CanonicalAddon {
    type V = AddonModel;

    open spec fn deep_view(&self) -> AddonModel {
        self.view()
    }
}

/// The date substituted when no file summary matches a selected file id.
pub open spec fn spec_sentinel_date() -> Seq<char> {
    "1971-01-01T01:01:01.01Z"@
}

/// First-match date lookup over the file summaries, from position `i` on;
/// the sentinel date stands in when no summary matches.
pub open spec fn spec_date_from(files: Seq<FileSummary>, fid: int, i: int) -> Seq<char>
    decreases files.len() - i,
{
    if i < 0 || i >= files.len() {
        spec_sentinel_date()
    } else if files[i].id == fid {
        files[i].file_date@
    } else {
        spec_date_from(files, fid, i + 1)
    }
}

/// The date of the file summary whose id is `fid`, or the sentinel date when
/// none matches.
pub open spec fn spec_date_lookup(files: Seq<FileSummary>, fid: int) -> Seq<char> {
    spec_date_from(files, fid, 0)
}

/// An eligible index entry is retained exactly when no eligible entry of the
/// same flavor has a strictly greater file id: the groupwise arg-max.
pub open spec fn spec_retained(f: FileIndexEntry, all: Seq<FileIndexEntry>) -> bool {
    forall|j: int|
        0 <= j < all.len() && #[trigger] spec_eligible(all[j]) && spec_flavor_of_entry(all[j])
            == spec_flavor_of_entry(f) ==> all[j].file_id <= f.file_id
}

/// The canonical version built for a retained index entry of flavor `fl`.
pub open spec fn spec_version_of(e: CatalogEntry, f: FileIndexEntry, fl: GameFlavor) -> VersionModel {
    VersionModel {
        game_version: Some(f.game_version@),
        flavor: fl,
        date: spec_date_lookup(e.latest_files@, f.file_id as int),
    }
}

/// The canonical versions contributed by the first `i` index entries of the
/// catalog entry, in index order: one per eligible, retained entry of a
/// known flavor.
pub open spec fn spec_versions_prefix(e: CatalogEntry, i: int) -> Seq<VersionModel>
    decreases i,
{
    if i <= 0 {
        Seq::empty()
    } else {
        let rest = spec_versions_prefix(e, i - 1);
        let f = e.latest_files_indexes@[i - 1];
        match spec_flavor_of_entry(f) {
            Some(fl) => if spec_eligible(f) && spec_retained(f, e.latest_files_indexes@) {
                rest.push(spec_version_of(e, f, fl))
            } else {
                rest
            },
            None => rest,
        }
    }
}

/// All canonical versions of a catalog entry.
pub open spec fn spec_versions(e: CatalogEntry) -> Seq<VersionModel> {
    spec_versions_prefix(e, e.latest_files_indexes@.len() as int)
}

/// Every eligible index entry of the catalog entry carries a known
/// game-variant-type id.  Exactly on these entries the mapping succeeds.
pub open spec fn spec_all_known(e: CatalogEntry) -> bool {
    forall|j: int|
        0 <= j < e.latest_files_indexes@.len() && #[trigger] spec_eligible(
            e.latest_files_indexes@[j],
        ) ==> spec_flavor_of_entry(e.latest_files_indexes@[j]) is Some
}

/// The fixed base of the fallback URL constructed from the slug.
pub open spec fn spec_fallback_url_base() -> Seq<char> {
    "https://www.curseforge.com/wow/addons/"@
}

/// The resolved URL: the website URL when present and non-empty, else the
/// fallback constructed deterministically from the slug.
pub open spec fn spec_url(e: CatalogEntry) -> Seq<char> {
    match e.website_url {
        Some(u) => if u@.len() > 0 {
            u@
        } else {
            spec_fallback_url_base() + e.slug@
        },
        None => spec_fallback_url_base() + e.slug@,
    }
}

/// The canonical download count from the rounded wire value: never negative,
/// a negative rounded value is clamped to zero.
pub open spec fn spec_downloads(dc: i64) -> u64 {
    if dc < 0 {
        0
    } else {
        dc as u64
    }
}

/// The category names of a catalog entry, in catalog order.
pub open spec fn spec_category_names(cats: Seq<Category>) -> Seq<Seq<char>> {
    cats.map_values(|c: Category| c.name@)
}

/// The canonical record a catalog entry maps to, when all its eligible index
/// entries carry known game-variant-type ids.
pub open spec fn spec_map_entry(e: CatalogEntry) -> AddonModel {
    AddonModel {
        id: e.id as int,
        name: e.name@,
        url: spec_url(e),
        number_of_downloads: spec_downloads(e.download_count),
        summary: e.summary@,
        versions: spec_versions(e),
        categories: spec_category_names(e.categories@),
        source: Source::Curse,
    }
}

/// Recursive first-match scan behind `date_for_file`.
fn date_from(files: &Vec<FileSummary>, fid: i64, i: usize) -> (r: String)
    requires
        i <= files@.len(),
    ensures
        r@ == spec_date_from(files@, fid as int, i as int),
    decreases files@.len() - i,
{
    if i >= files.len() {
        "1971-01-01T01:01:01.01Z".to_owned()
    } else if files[i].id == fid {
        files[i].file_date.clone()
    } else {
        date_from(files, fid, i + 1)
    }
}

/// The date for a selected file id: the date of the first file summary with
/// that id, or the sentinel date when none matches.
pub fn date_for_file(files: &Vec<FileSummary>, fid: i64) -> (r: String)
    ensures
        r@ == spec_date_lookup(files@, fid as int),
{
    date_from(files, fid, 0)
}

/// The resolved URL of a catalog entry.
pub fn resolve_url(e: &CatalogEntry) -> (r: String)
    ensures
        r@ == spec_url(*e),
{
    match &e.website_url {
        Some(u) => if !u.as_str().is_empty() {
            u.clone()
        } else {
            String::from_str("https://www.curseforge.com/wow/addons/").concat(e.slug.as_str())
        },
        None => String::from_str("https://www.curseforge.com/wow/addons/").concat(e.slug.as_str()),
    }
}

/// The category names of a catalog entry, in catalog order.
pub fn category_names(cats: &Vec<Category>) -> (r: Vec<String>)
    ensures
        r.deep_view() == spec_category_names(cats@),
{
    let mut out: Vec<String> = Vec::new();
    let mut i: usize = 0;
    while i < cats.len()
        invariant
            i <= cats@.len(),
            out@.len() == i,
            forall|j: int| 0 <= j < i ==> #[trigger] out@[j]@ == cats@[j].name@,
        decreases cats@.len() - i,
    {
        out.push(cats[i].name.clone());
        i += 1;
    }
    proof {
        assert forall|j: int| 0 <= j < cats@.len() implies out.deep_view()[j]
            == spec_category_names(cats@)[j] by {
            assert(out.deep_view()[j] == out@[j]@);
        }
        assert(out.deep_view() =~= spec_category_names(cats@));
    }
    out
}

/// The per-flavor maximum file id seen so far while grouping eligible index
/// entries by flavor.
struct GroupMaxes {
    retail: Option<i64>,
    classic_era: Option<i64>,
    classic_tbc: Option<i64>,
    classic_wotlk: Option<i64>,
}

impl GroupMaxes {
    spec fn spec_get(self, fl: GameFlavor) -> Option<i64> {
        match fl {
            GameFlavor::Retail => self.retail,
            GameFlavor::ClassicEra => self.classic_era,
            GameFlavor::ClassicTbc => self.classic_tbc,
            GameFlavor::ClassicWotlk => self.classic_wotlk,
        }
    }

    fn new() -> (r: GroupMaxes)
        ensures
            forall|fl: GameFlavor| #[trigger] r.spec_get(fl) is None,
    {
        GroupMaxes { retail: None, classic_era: None, classic_tbc: None, classic_wotlk: None }
    }

    fn get(&self, fl: GameFlavor) -> (r: Option<i64>)
        ensures
            r == self.spec_get(fl),
    {
        match fl {
            GameFlavor::Retail => self.retail,
            GameFlavor::ClassicEra => self.classic_era,
            GameFlavor::ClassicTbc => self.classic_tbc,
            GameFlavor::ClassicWotlk => self.classic_wotlk,
        }
    }

    fn note(&mut self, fl: GameFlavor, fid: i64)
        ensures
            final(self).spec_get(fl) == (match old(self).spec_get(fl) {
                None => Some(fid),
                Some(m) => Some(if fid > m { fid } else { m }),
            }),
            forall|fl2: GameFlavor|
                fl2 != fl ==> #[trigger] final(self).spec_get(fl2) == old(self).spec_get(fl2),
    {
        let cur = self.get(fl);
        let nv = match cur {
            None => fid,
            Some(m) => if fid > m {
                fid
            } else {
                m
            },
        };
        match fl {
            GameFlavor::Retail => self.retail = Some(nv),
            GameFlavor::ClassicEra => self.classic_era = Some(nv),
            GameFlavor::ClassicTbc => self.classic_tbc = Some(nv),
            GameFlavor::ClassicWotlk => self.classic_wotlk = Some(nv),
        }
    }
}

/// What a per-flavor maximum must say of the first `upto` index entries: it
/// is attained by some eligible entry of that flavor and bounds them all.
spec fn spec_group_max_ok(
    s: Seq<FileIndexEntry>,
    upto: int,
    fl: GameFlavor,
    m: Option<i64>,
) -> bool {
    &&& (m matches Some(mv) ==> exists|j: int|
        0 <= j < upto && #[trigger] spec_eligible(s[j]) && spec_flavor_of_entry(s[j]) == Some(fl)
            && s[j].file_id == mv)
    &&& (forall|j: int|
        0 <= j < upto && #[trigger] spec_eligible(s[j]) && spec_flavor_of_entry(s[j]) == Some(fl)
            ==> (m matches Some(mv) && s[j].file_id <= mv))
}

impl CanonicalAddon {
    /// Catalog entry mapper: the pure transform from one raw catalog entry to
    /// its canonical record.  It succeeds exactly when every eligible index
    /// entry carries a known game-variant-type id; an unknown id is a fatal
    /// decode error, since there is no sane default flavor.
    pub fn from_entry(e: &CatalogEntry) -> (r: Result<CanonicalAddon, Error>)
        ensures
            spec_all_known(*e) ==> (r matches Ok(a) && a@ == spec_map_entry(*e)),
            !spec_all_known(*e) ==> r == Err::<CanonicalAddon, Error>(Error::Decode),
    {
        let idx = &e.latest_files_indexes;
        let n = idx.len();
        let mut maxes = GroupMaxes::new();
        let mut i: usize = 0;
        while i < n
            invariant
                n == idx@.len(),
                idx@ == e.latest_files_indexes@,
                i <= n,
                forall|j: int|
                    0 <= j < i && #[trigger] spec_eligible(idx@[j]) ==> spec_flavor_of_entry(
                        idx@[j],
                    ) is Some,
                forall|fl: GameFlavor|
                    spec_group_max_ok(idx@, i as int, fl, #[trigger] maxes.spec_get(fl)),
            decreases n - i,
        {
            let f = &idx[i];
            if is_eligible(f) {
                let t = type_id_or_zero(f);
                match get_flavor_from_game_version_type_id(t) {
                    Ok(fl) => {
                        let ghost pre = maxes;
                        maxes.note(fl, f.file_id);
                        proof {
                            assert(spec_flavor_of_entry(idx@[i as int]) == Some(fl));
                            assert forall|fl2: GameFlavor|
                                spec_group_max_ok(
                                    idx@,
                                    i as int + 1,
                                    fl2,
                                    #[trigger] maxes.spec_get(fl2),
                                ) by {
                                assert(spec_group_max_ok(idx@, i as int, fl2, pre.spec_get(fl2)));
                            }
                        }
                    },
                    Err(er) => {
                        proof {
                            assert(spec_eligible(idx@[i as int]));
                            assert(spec_flavor_of_entry(idx@[i as int]) is None);
                            assert(!spec_all_known(*e));
                        }
                        return Err(er);
                    },
                }
            }
            i += 1;
        }
        proof {
            assert(spec_all_known(*e));
        }
        let mut versions: Vec<CanonicalVersion> = Vec::new();
        let mut k: usize = 0;
        while k < n
            invariant
                n == idx@.len(),
                idx@ == e.latest_files_indexes@,
                k <= n,
                spec_all_known(*e),
                forall|fl: GameFlavor|
                    spec_group_max_ok(idx@, n as int, fl, #[trigger] maxes.spec_get(fl)),
                versions.deep_view() =~= spec_versions_prefix(*e, k as int),
            decreases n - k,
        {
            let f = &idx[k];
            if is_eligible(f) {
                let t = type_id_or_zero(f);
                match get_flavor_from_game_version_type_id(t) {
                    Ok(fl) => {
                        proof {
                            assert(spec_flavor_of_entry(idx@[k as int]) == Some(fl));
                        }
                        let mx = maxes.get(fl);
                        let m = match mx {
                            Some(m) => m,
                            None => {
                                proof {
                                    assert(false);
                                }
                                0
                            },
                        };
                        if f.file_id == m {
                            proof {
                                assert(spec_retained(idx@[k as int], idx@));
                            }
                            let v = CanonicalVersion {
                                game_version: Some(f.game_version.clone()),
                                flavor: fl,
                                date: date_for_file(&e.latest_files, f.file_id),
                            };
                            versions.push(v);
                            proof {
                                assert(versions.deep_view() =~= spec_versions_prefix(
                                    *e,
                                    k as int + 1,
                                ));
                            }
                        } else {
                            proof {
                                assert(f.file_id < m);
                                assert(!spec_retained(idx@[k as int], idx@));
                                assert(versions.deep_view() =~= spec_versions_prefix(
                                    *e,
                                    k as int + 1,
                                ));
                            }
                        }
                    },
                    Err(_) => {
                        proof {
                            assert(false);
                        }
                        return Err(Error::Decode);
                    },
                }
            } else {
                proof {
                    assert(versions.deep_view() =~= spec_versions_prefix(*e, k as int + 1));
                }
            }
            k += 1;
        }
        let addon = CanonicalAddon {
            id: e.id,
            name: e.name.clone(),
            url: resolve_url(e),
            number_of_downloads: if e.download_count < 0 {
                0
            } else {
                e.download_count as u64
            },
            summary: e.summary.clone(),
            versions,
            categories: category_names(&e.categories),
            source: Source::Curse,
        };
        proof {
            assert(addon@ =~= spec_map_entry(*e));
        }
        Ok(addon)
    }
}

/// File ids are unique identifiers within one catalog entry's index: no two
/// eligible index entries share a file id.
pub open spec fn spec_distinct_eligible_ids(s: Seq<FileIndexEntry>) -> bool {
    forall|p: int, q: int|
        0 <= p < s.len() && 0 <= q < s.len() && p != q && #[trigger] spec_eligible(s[p])
            && #[trigger] spec_eligible(s[q]) ==> s[p].file_id != s[q].file_id
}

/// The mapping is a pure function of the catalog entry: any two canonical
/// records mapped from the same entry agree in every observable field.
pub proof fn lemma_map_entry_pure(e: CatalogEntry, a1: CanonicalAddon, a2: CanonicalAddon)
    requires
        a1@ == spec_map_entry(e),
        a2@ == spec_map_entry(e),
    ensures
        a1@ == a2@,
{
}

/// Among the first `b` index entries, if some eligible entry belongs to
/// flavor `fl`, then one of those entries attains the greatest file id of
/// the group.
#[verifier::rlimit(100)]
proof fn lemma_group_argmax_upto(s: Seq<FileIndexEntry>, fl: GameFlavor, b: int)
    requires
        0 <= b <= s.len(),
        exists|j: int|
            0 <= j < b && #[trigger] spec_eligible(s[j]) && spec_flavor_of_entry(s[j]) == Some(fl),
    ensures
        exists|j: int|
            0 <= j < b && #[trigger] spec_eligible(s[j]) && spec_flavor_of_entry(s[j]) == Some(fl)
                && (forall|k: int|
                0 <= k < b && #[trigger] spec_eligible(s[k]) && spec_flavor_of_entry(s[k])
                    == Some(fl) ==> s[k].file_id <= s[j].file_id),
    decreases b,
{
    if spec_eligible(s[b - 1]) && spec_flavor_of_entry(s[b - 1]) == Some(fl) {
        if exists|j: int|
            0 <= j < b - 1 && #[trigger] spec_eligible(s[j]) && spec_flavor_of_entry(s[j])
                == Some(fl) {
            lemma_group_argmax_upto(s, fl, b - 1);
            let j0 = choose|j: int|
                0 <= j < b - 1 && #[trigger] spec_eligible(s[j]) && spec_flavor_of_entry(s[j])
                    == Some(fl) && (forall|k: int|
                    0 <= k < b - 1 && #[trigger] spec_eligible(s[k]) && spec_flavor_of_entry(s[k])
                        == Some(fl) ==> s[k].file_id <= s[j].file_id);
            if s[b - 1].file_id >= s[j0].file_id {
                assert(forall|k: int|
                    0 <= k < b && #[trigger] spec_eligible(s[k]) && spec_flavor_of_entry(s[k])
                        == Some(fl) ==> s[k].file_id <= s[b - 1].file_id);
            } else {
                assert(forall|k: int|
                    0 <= k < b && #[trigger] spec_eligible(s[k]) && spec_flavor_of_entry(s[k])
                        == Some(fl) ==> s[k].file_id <= s[j0].file_id);
            }
        } else {
            assert(forall|k: int|
                0 <= k < b && #[trigger] spec_eligible(s[k]) && spec_flavor_of_entry(s[k])
                    == Some(fl) ==> s[k].file_id <= s[b - 1].file_id);
        }
    } else {
        let w = choose|j: int|
            0 <= j < b && #[trigger] spec_eligible(s[j]) && spec_flavor_of_entry(s[j]) == Some(fl);
        assert(0 <= w < b - 1);
        lemma_group_argmax_upto(s, fl, b - 1);
        let j0 = choose|j: int|
            0 <= j < b - 1 && #[trigger] spec_eligible(s[j]) && spec_flavor_of_entry(s[j])
                == Some(fl) && (forall|k: int|
                0 <= k < b - 1 && #[trigger] spec_eligible(s[k]) && spec_flavor_of_entry(s[k])
                    == Some(fl) ==> s[k].file_id <= s[j].file_id);
        assert(forall|k: int|
            0 <= k < b && #[trigger] spec_eligible(s[k]) && spec_flavor_of_entry(s[k]) == Some(fl)
                ==> s[k].file_id <= s[j0].file_id);
    }
}

/// Latest-version selection is a groupwise arg-max.  For every flavor that
/// some eligible index entry belongs to, a retained entry of that flavor
/// exists, and every retained entry of the flavor carries the greatest file
/// id among the flavor's eligible entries.
pub proof fn lemma_selected_is_group_max(s: Seq<FileIndexEntry>, fl: GameFlavor)
    requires
        exists|j: int|
            0 <= j < s.len() && #[trigger] spec_eligible(s[j]) && spec_flavor_of_entry(s[j])
                == Some(fl),
    ensures
        exists|j: int|
            0 <= j < s.len() && #[trigger] spec_eligible(s[j]) && spec_flavor_of_entry(s[j])
                == Some(fl) && spec_retained(s[j], s),
        forall|j: int, k: int|
            0 <= j < s.len() && 0 <= k < s.len() && #[trigger] spec_eligible(s[j])
                && spec_flavor_of_entry(s[j]) == Some(fl) && spec_retained(s[j], s)
                && #[trigger] spec_eligible(s[k]) && spec_flavor_of_entry(s[k]) == Some(fl)
                ==> s[k].file_id <= s[j].file_id,
{
    lemma_group_argmax_upto(s, fl, s.len() as int);
    let j0 = choose|j: int|
        0 <= j < s.len() && #[trigger] spec_eligible(s[j]) && spec_flavor_of_entry(s[j])
            == Some(fl) && (forall|k: int|
            0 <= k < s.len() && #[trigger] spec_eligible(s[k]) && spec_flavor_of_entry(s[k])
                == Some(fl) ==> s[k].file_id <= s[j].file_id);
    assert(spec_retained(s[j0], s));
}

/// Helper for the distinct-flavors law: every version contributed by the
/// first `m` index entries stems from a retained eligible entry of its
/// flavor, and those versions carry pairwise distinct flavors.
proof fn lemma_versions_prefix_distinct(e: CatalogEntry, m: int)
    requires
        spec_distinct_eligible_ids(e.latest_files_indexes@),
        0 <= m <= e.latest_files_indexes@.len(),
    ensures
        forall|i: int|
            #![trigger spec_versions_prefix(e, m)[i]]
            0 <= i < spec_versions_prefix(e, m).len() ==> exists|j: int|
                0 <= j < m && #[trigger] spec_eligible(e.latest_files_indexes@[j]) && spec_retained(
                    e.latest_files_indexes@[j],
                    e.latest_files_indexes@,
                ) && spec_flavor_of_entry(e.latest_files_indexes@[j]) == Some(
                    spec_versions_prefix(e, m)[i].flavor,
                ),
        forall|i1: int, i2: int|
            0 <= i1 < i2 < spec_versions_prefix(e, m).len() ==> #[trigger] spec_versions_prefix(
                e,
                m,
            )[i1].flavor != #[trigger] spec_versions_prefix(e, m)[i2].flavor,
    decreases m,
{
    let s = e.latest_files_indexes@;
    if m > 0 {
        lemma_versions_prefix_distinct(e, m - 1);
        let pre = spec_versions_prefix(e, m - 1);
        let cur = spec_versions_prefix(e, m);
        let f = s[m - 1];
        match spec_flavor_of_entry(f) {
            Some(fl) => {
                if spec_eligible(f) && spec_retained(f, s) {
                    assert(cur == pre.push(spec_version_of(e, f, fl)));
                    assert forall|i1: int, i2: int|
                        0 <= i1 < i2 < cur.len() implies cur[i1].flavor != cur[i2].flavor by {
                        if i2 == cur.len() - 1 {
                            assert(cur[i1] == pre[i1]);
                            assert(cur[i2].flavor == fl);
                            if cur[i1].flavor == fl {
                                let j = choose|j: int|
                                    0 <= j < m - 1 && #[trigger] spec_eligible(s[j])
                                        && spec_retained(s[j], s) && spec_flavor_of_entry(s[j])
                                        == Some(pre[i1].flavor);
                                assert(s[m - 1].file_id <= s[j].file_id);
                                assert(s[j].file_id <= s[m - 1].file_id);
                                assert(s[j].file_id != s[m - 1].file_id);
                                assert(false);
                            }
                        } else {
                            assert(cur[i1] == pre[i1] && cur[i2] == pre[i2]);
                        }
                    }
                    assert forall|i: int|
                        #![trigger cur[i]]
                        0 <= i < cur.len() implies exists|j: int|
                        0 <= j < m && #[trigger] spec_eligible(s[j]) && spec_retained(s[j], s)
                            && spec_flavor_of_entry(s[j]) == Some(cur[i].flavor) by {
                        if i < pre.len() {
                            assert(cur[i] == pre[i]);
                            let j = choose|j: int|
                                0 <= j < m - 1 && #[trigger] spec_eligible(s[j]) && spec_retained(
                                    s[j],
                                    s,
                                ) && spec_flavor_of_entry(s[j]) == Some(pre[i].flavor);
                            assert(0 <= j < m && spec_eligible(s[j]) && spec_retained(s[j], s)
                                && spec_flavor_of_entry(s[j]) == Some(cur[i].flavor));
                        } else {
                            assert(cur[i].flavor == fl);
                            assert(0 <= m - 1 < m && spec_eligible(s[m - 1]) && spec_retained(
                                s[m - 1],
                                s,
                            ) && spec_flavor_of_entry(s[m - 1]) == Some(cur[i].flavor));
                        }
                    }
                } else {
                    assert(cur == pre);
                }
            },
            None => {
                assert(cur == pre);
            },
        }
    }
}

/// Within one mapped record the canonical versions carry pairwise distinct
/// flavors, provided the eligible index entries of the catalog entry carry
/// pairwise distinct file ids (file ids are unique identifiers within one
/// entry's index; two eligible entries sharing both flavor and file id would
/// both be retained).
pub proof fn lemma_versions_flavors_distinct(e: CatalogEntry)
    requires
        spec_distinct_eligible_ids(e.latest_files_indexes@),
    ensures
        forall|i1: int, i2: int|
            0 <= i1 < i2 < spec_map_entry(e).versions.len() ==> #[trigger] spec_map_entry(
                e,
            ).versions[i1].flavor != #[trigger] spec_map_entry(e).versions[i2].flavor,
{
    lemma_versions_prefix_distinct(e, e.latest_files_indexes@.len() as int);
    assert(spec_map_entry(e).versions == spec_versions(e));
}

} // verus!
