use curse_catalog::addon::{CanonicalAddon, Source};
use curse_catalog::catalog::{CatalogEntry, Category, FileIndexEntry, FileSummary};
use curse_catalog::error::Error;
use curse_catalog::flavor::{get_flavor_from_game_version_type_id, GameFlavor};

fn index_entry(
    game_version: &str,
    file_id: i64,
    filename: &str,
    release_type: i64,
    game_version_type_id: Option<i64>,
) -> FileIndexEntry {
    FileIndexEntry {
        game_version: game_version.to_string(),
        file_id,
        filename: filename.to_string(),
        release_type,
        game_version_type_id,
    }
}

fn file_summary(id: i64, file_date: &str) -> FileSummary {
    FileSummary {
        id,
        display_name: format!("file {}", id),
        file_name: format!("file-{}.zip", id),
        file_date: file_date.to_string(),
        download_url: None,
        release_type: 1,
        modules: Vec::new(),
        is_available: true,
        game_versions: Vec::new(),
    }
}

fn base_entry() -> CatalogEntry {
    CatalogEntry {
        id: 7,
        game_id: 1,
        name: "Example".to_string(),
        slug: "example".to_string(),
        summary: "an example add-on".to_string(),
        download_count: 10,
        website_url: None,
        latest_files: Vec::new(),
        latest_files_indexes: Vec::new(),
        categories: Vec::new(),
    }
}

fn map(e: &CatalogEntry) -> CanonicalAddon {
    CanonicalAddon::from_entry(e).expect("entry should map")
}

#[test]
fn classifier_known_ids() {
    assert_eq!(get_flavor_from_game_version_type_id(517), Ok(GameFlavor::Retail));
    assert_eq!(get_flavor_from_game_version_type_id(67408), Ok(GameFlavor::ClassicEra));
    assert_eq!(get_flavor_from_game_version_type_id(73246), Ok(GameFlavor::ClassicTbc));
    assert_eq!(get_flavor_from_game_version_type_id(73713), Ok(GameFlavor::ClassicWotlk));
}

#[test]
fn classifier_unknown_id_is_decode_error() {
    assert_eq!(get_flavor_from_game_version_type_id(999), Err(Error::Decode));
    assert_eq!(get_flavor_from_game_version_type_id(0), Err(Error::Decode));
    assert_eq!(get_flavor_from_game_version_type_id(-517), Err(Error::Decode));
}

#[test]
fn selects_newest_file_per_flavor() {
    let mut e = base_entry();
    e.latest_files_indexes = vec![
        index_entry("10.2.0", 100, "a.zip", 1, Some(517)),
        index_entry("10.1.0", 90, "b.zip", 1, Some(517)),
        index_entry("1.14.4", 120, "c.zip", 2, Some(67408)),
        index_entry("3.4.3", 50, "d.zip", 3, Some(73713)),
        index_entry("2.5.4", 70, "e.zip", 1, None),
        index_entry("2.5.4", 71, "f.zip", 1, Some(0)),
    ];
    e.latest_files = vec![file_summary(100, "2024-01-02T03:04:05.0Z")];
    let a = map(&e);
    assert_eq!(a.versions.len(), 2);
    assert_eq!(a.versions[0].flavor, GameFlavor::Retail);
    assert_eq!(a.versions[0].game_version.as_deref(), Some("10.2.0"));
    assert_eq!(a.versions[0].date, "2024-01-02T03:04:05.0Z");
    assert_eq!(a.versions[1].flavor, GameFlavor::ClassicEra);
    assert_eq!(a.versions[1].game_version.as_deref(), Some("1.14.4"));
}

#[test]
fn at_most_one_version_per_flavor() {
    let mut e = base_entry();
    e.latest_files_indexes = vec![
        index_entry("10.2.0", 100, "a.zip", 1, Some(517)),
        index_entry("10.1.0", 90, "b.zip", 2, Some(517)),
        index_entry("10.0.0", 80, "c.zip", 1, Some(517)),
        index_entry("3.4.3", 60, "d.zip", 1, Some(73713)),
        index_entry("3.4.2", 55, "e.zip", 2, Some(73713)),
    ];
    let a = map(&e);
    for i in 0..a.versions.len() {
        for j in 0..a.versions.len() {
            if i != j {
                assert_ne!(a.versions[i].flavor, a.versions[j].flavor);
            }
        }
    }
    assert_eq!(a.versions.len(), 2);
}

#[test]
fn mapping_is_idempotent() {
    let mut e = base_entry();
    e.latest_files_indexes = vec![
        index_entry("10.2.0", 100, "a.zip", 1, Some(517)),
        index_entry("1.14.4", 120, "c.zip", 2, Some(67408)),
    ];
    e.latest_files = vec![file_summary(100, "2024-01-02T03:04:05.0Z")];
    e.categories = vec![Category { name: "Quests".to_string() }];
    let a1 = map(&e);
    let a2 = map(&e);
    assert_eq!(a1, a2);
}

#[test]
fn unknown_game_version_type_id_fails_mapping() {
    let mut e = base_entry();
    e.latest_files_indexes = vec![index_entry("10.2.0", 100, "a.zip", 1, Some(999))];
    assert_eq!(CanonicalAddon::from_entry(&e), Err(Error::Decode));
}

#[test]
fn download_count_rounds_to_nearest() {
    let wire: f64 = 1234.9;
    let mut e = base_entry();
    e.download_count = wire.round() as i64;
    assert_eq!(map(&e).number_of_downloads, 1235);
}

#[test]
fn negative_download_count_clamps_to_zero() {
    let wire: f64 = -3.0;
    let mut e = base_entry();
    e.download_count = wire.round() as i64;
    assert_eq!(map(&e).number_of_downloads, 0);
}

#[test]
fn url_falls_back_to_slug() {
    let mut e = base_entry();
    e.website_url = None;
    e.slug = "my-addon".to_string();
    let a = map(&e);
    assert_eq!(a.url, "https://www.curseforge.com/wow/addons/my-addon");
    assert!(a.url.contains("my-addon"));
}

#[test]
fn url_uses_website_when_present() {
    let mut e = base_entry();
    e.website_url = Some("https://example.com/my-addon".to_string());
    assert_eq!(map(&e).url, "https://example.com/my-addon");
}

#[test]
fn empty_website_url_falls_back() {
    let mut e = base_entry();
    e.website_url = Some(String::new());
    e.slug = "my-addon".to_string();
    assert_eq!(map(&e).url, "https://www.curseforge.com/wow/addons/my-addon");
}

#[test]
fn missing_file_summary_yields_sentinel_date() {
    let mut e = base_entry();
    e.latest_files_indexes = vec![index_entry("1.14.4", 120, "c.zip", 2, Some(67408))];
    e.latest_files = vec![file_summary(100, "2024-01-02T03:04:05.0Z")];
    let a = map(&e);
    assert_eq!(a.versions.len(), 1);
    assert_eq!(a.versions[0].date, "1971-01-01T01:01:01.01Z");
}

#[test]
fn matching_file_summary_yields_its_date() {
    let mut e = base_entry();
    e.latest_files_indexes = vec![index_entry("10.2.0", 100, "a.zip", 1, Some(517))];
    e.latest_files = vec![
        file_summary(90, "2023-01-01T00:00:00.0Z"),
        file_summary(100, "2024-05-06T07:08:09.0Z"),
    ];
    assert_eq!(map(&e).versions[0].date, "2024-05-06T07:08:09.0Z");
}

#[test]
fn categories_project_names_in_order() {
    let mut e = base_entry();
    e.categories = vec![
        Category { name: "Quests".to_string() },
        Category { name: "Bags".to_string() },
        Category { name: "Map".to_string() },
    ];
    assert_eq!(map(&e).categories, vec!["Quests", "Bags", "Map"]);
}

#[test]
fn scalar_fields_carry_over() {
    let mut e = base_entry();
    e.id = 42;
    e.name = "My Addon".to_string();
    e.summary = "does things".to_string();
    let a = map(&e);
    assert_eq!(a.id, 42);
    assert_eq!(a.name, "My Addon");
    assert_eq!(a.summary, "does things");
    assert_eq!(a.source, Source::Curse);
}

#[test]
fn alpha_and_unattributed_files_are_dropped() {
    let mut e = base_entry();
    e.latest_files_indexes = vec![
        index_entry("10.2.0", 100, "a.zip", 3, Some(517)),
        index_entry("10.2.0", 101, "b.zip", 0, Some(517)),
        index_entry("10.2.0", 102, "c.zip", 1, None),
        index_entry("10.2.0", 103, "d.zip", 2, Some(0)),
    ];
    assert_eq!(map(&e).versions.len(), 0);
}
