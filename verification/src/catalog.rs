use vstd::prelude::*;

use crate::flavor::{spec_flavor_of_id, GameFlavor};

verus! {

/// One category of an add-on, as the catalog reports it.  Only the name is
/// carried into the canonical record.
pub struct Category {
    pub name: String,
}

/// One module (folder) packed inside a released file.
pub struct Module {
    pub foldername: String,
    pub fingerprint: i64,
}

/// One entry of the per-flavor file index of a catalog entry.  The
/// game-variant-type id is nullable on the wire; absent or zero means the
/// file is not attributable to a known flavor.
pub struct FileIndexEntry {
    pub game_version: String,
    pub file_id: i64,
    pub filename: String,
    pub release_type: i64,
    pub game_version_type_id: Option<i64>,
}

/// One released file of a catalog entry, used here to resolve the date of a
/// selected file id.
pub struct FileSummary {
    pub id: i64,
    pub display_name: String,
    pub file_name: String,
    pub file_date: String,
    pub download_url: Option<String>,
    pub release_type: i64,
    pub modules: Vec<Module>,
    pub is_available: bool,
    pub game_versions: Vec<String>,
}

/// One raw catalog entry, as decoded from a page of the search endpoint.
/// The download count is a floating-point number on the wire; the caller
/// hands it over rounded to the nearest integer, and the mapper clamps a
/// negative value to zero.
pub struct CatalogEntry {
    pub id: i64,
    pub game_id: i64,
    pub name: String,
    pub slug: String,
    pub summary: String,
    pub download_count: i64,
    pub website_url: Option<String>,
    pub latest_files: Vec<FileSummary>,
    pub latest_files_indexes: Vec<FileIndexEntry>,
    pub categories: Vec<Category>,
}

/// A file index entry takes part in version selection exactly when its
/// release type is release (1) or beta (2) and its game-variant-type id is
/// present and non-zero.  Alpha builds and unattributable files are dropped
/// silently.
pub open spec fn spec_eligible(f: FileIndexEntry) -> bool {
    (f.release_type == 1 || f.release_type == 2) && (f.game_version_type_id matches Some(t)
        && t != 0)
}

/// The wire game-variant-type id of an index entry, with absence read as
/// zero (which no flavor is assigned to).
pub open spec fn spec_type_id_or_zero(f: FileIndexEntry) -> int {
    match f.game_version_type_id {
        Some(t) => t as int,
        None => 0,
    }
}

/// The flavor an index entry belongs to, if its id is a known one.
pub open spec fn spec_flavor_of_entry(f: FileIndexEntry) -> Option<GameFlavor> {
    spec_flavor_of_id(spec_type_id_or_zero(f))
}

/// Executable form of the eligibility filter.
pub fn is_eligible(f: &FileIndexEntry) -> (r: bool)
    ensures
        r == spec_eligible(*f),
{
    (f.release_type == 1 || f.release_type == 2) && (match f.game_version_type_id {
        Some(t) => t != 0,
        None => false,
    })
}

/// The game-variant-type id handed to the classifier for an index entry.
pub fn type_id_or_zero(f: &FileIndexEntry) -> (r: i64)
    ensures
        r as int == spec_type_id_or_zero(*f),
{
    match f.game_version_type_id {
        Some(t) => t,
        None => 0,
    }
}

} // verus!
