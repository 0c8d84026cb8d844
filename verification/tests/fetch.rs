use curse_catalog::catalog::CatalogEntry;
use curse_catalog::endpoint::base_endpoint;
use curse_catalog::error::Error;
use curse_catalog::fetch::{FetchPhase, Fetcher};

fn entry(id: i64) -> CatalogEntry {
    CatalogEntry {
        id,
        game_id: 1,
        name: format!("addon {}", id),
        slug: format!("addon-{}", id),
        summary: String::new(),
        download_count: 0,
        website_url: None,
        latest_files: Vec::new(),
        latest_files_indexes: Vec::new(),
        categories: Vec::new(),
    }
}

fn page(first_id: i64, len: usize) -> Vec<CatalogEntry> {
    let mut v = Vec::new();
    for k in 0..len {
        v.push(entry(first_id + k as i64));
    }
    v
}

#[test]
fn missing_credential_is_configuration_error() {
    match Fetcher::new(50, None) {
        Err(e) => assert_eq!(e, Error::Configuration),
        Ok(_) => panic!("a fetcher must not be built without a credential"),
    }
}

#[test]
fn endpoint_carries_page_size_and_offset() {
    assert_eq!(
        base_endpoint(50, 100),
        "https://api.curseforge.com/v1/mods/search?gameId=1&pageSize=50&index=100"
    );
    assert_eq!(
        base_endpoint(0, 0),
        "https://api.curseforge.com/v1/mods/search?gameId=1&pageSize=0&index=0"
    );
}

#[test]
fn fetcher_requests_advance_by_page_size() {
    let mut f = Fetcher::new(50, Some("key".to_string())).unwrap();
    assert!(f.next_endpoint().ends_with("pageSize=50&index=0"));
    assert_eq!(f.on_page(&page(0, 50)), Ok(true));
    assert!(f.next_endpoint().ends_with("pageSize=50&index=50"));
    assert_eq!(f.on_page(&page(50, 50)), Ok(true));
    assert!(f.next_endpoint().ends_with("pageSize=50&index=100"));
}

#[test]
fn three_pages_short_last_terminates() {
    let mut f = Fetcher::new(50, Some("key".to_string())).unwrap();
    let mut requests = 0;
    for (start, len) in [(0i64, 50usize), (50, 50), (100, 37)] {
        requests += 1;
        let more = f.on_page(&page(start, len)).unwrap();
        if !more {
            break;
        }
    }
    assert_eq!(requests, 3);
    assert_eq!(f.phase, FetchPhase::Done);
    let addons = f.result().unwrap();
    assert_eq!(addons.len(), 137);
    assert_eq!(addons[0].id, 0);
    assert_eq!(addons[136].id, 136);
}

#[test]
fn empty_last_page_terminates_after_four_requests() {
    let mut f = Fetcher::new(50, Some("key".to_string())).unwrap();
    let mut requests = 0;
    for (start, len) in [(0i64, 50usize), (50, 50), (100, 50), (150, 0)] {
        requests += 1;
        let more = f.on_page(&page(start, len)).unwrap();
        if !more {
            break;
        }
    }
    assert_eq!(requests, 4);
    assert_eq!(f.result().unwrap().len(), 150);
}

#[test]
fn short_first_page_terminates_at_once() {
    let mut f = Fetcher::new(50, Some("key".to_string())).unwrap();
    assert_eq!(f.on_page(&page(0, 3)), Ok(false));
    assert_eq!(f.result().unwrap().len(), 3);
}

#[test]
fn protocol_failure_discards_accumulated_pages() {
    let mut f = Fetcher::new(50, Some("key".to_string())).unwrap();
    assert_eq!(f.on_page(&page(0, 50)), Ok(true));
    f.fail(Error::Protocol(500));
    assert_eq!(f.phase, FetchPhase::Failed);
    assert_eq!(f.addons.len(), 0);
    assert_eq!(f.result(), Err(Error::Protocol(500)));
}

#[test]
fn decode_failure_discards_accumulated_pages() {
    let mut f = Fetcher::new(2, Some("key".to_string())).unwrap();
    assert_eq!(f.on_page(&page(0, 2)), Ok(true));
    let mut bad = entry(2);
    bad.latest_files_indexes.push(curse_catalog::catalog::FileIndexEntry {
        game_version: "10.2.0".to_string(),
        file_id: 1,
        filename: "a.zip".to_string(),
        release_type: 1,
        game_version_type_id: Some(999),
    });
    let p = vec![bad, entry(3)];
    assert_eq!(f.on_page(&p), Err(Error::Decode));
    assert_eq!(f.result(), Err(Error::Decode));
}

#[test]
fn transport_failure_surfaces() {
    let mut f = Fetcher::new(50, Some("key".to_string())).unwrap();
    f.fail(Error::Transport);
    assert_eq!(f.result(), Err(Error::Transport));
}
