//! Tests for the pagination engine: eager accumulation, the lazy stream, and
//! their equivalence over the same mocked page sequence.

use crates_io_api::error::Error;
use crates_io_api::pagination::CrateStream;
use crates_io_api::pagination::CratesPager;
use crates_io_api::pagination::RdepsPager;
use crates_io_api::pagination::StreamStep;
use crates_io_api::query::CratesQuery;
use crates_io_api::types::Crate;
use crates_io_api::types::CrateLinks;
use crates_io_api::types::CratesPage;
use crates_io_api::rdeps::page_from_wire;
use crates_io_api::types::Dependency;
use crates_io_api::types::Meta;
use crates_io_api::types::ReverseDependencies;
use crates_io_api::types::ReverseDependenciesAsReceived;
use crates_io_api::types::Version;
use crates_io_api::types::VersionLinks;

fn pg_crate(name: &str) -> Crate {
    Crate {
        id: name.to_string(),
        name: name.to_string(),
        description: None,
        license: None,
        documentation: None,
        homepage: None,
        repository: None,
        downloads: 0,
        recent_downloads: None,
        categories: None,
        keywords: None,
        versions: None,
        max_version: "1.0.0".to_string(),
        max_stable_version: None,
        links: CrateLinks {
            owner_team: String::new(),
            owner_user: String::new(),
            owners: String::new(),
            reverse_dependencies: String::new(),
            version_downloads: String::new(),
            versions: None,
        },
        created_at: "2020-01-01T00:00:00Z".to_string(),
        updated_at: "2020-01-01T00:00:00Z".to_string(),
        exact_match: None,
    }
}

fn pg_page(names: &[&str], total: u64) -> CratesPage {
    CratesPage {
        crates: names.iter().map(|n| pg_crate(n)).collect(),
        versions: vec![],
        keywords: vec![],
        categories: vec![],
        meta: Meta { total },
    }
}

/// The mocked page sequence: two full pages of two, then an empty page.
fn pg_pages() -> Vec<CratesPage> {
    vec![
        pg_page(&["a", "b"], 4),
        pg_page(&["c", "d"], 4),
        pg_page(&[], 4),
    ]
}

#[test]
fn eager_pagination_concatenates_and_stops_on_the_empty_page() {
    let mut pager = CratesPager::new(CratesQuery::default());
    let mut requests = 0;
    let mut pages = pg_pages().into_iter();
    while !pager.finished {
        let asked_page = pager.query.page;
        requests += 1;
        assert_eq!(asked_page, requests);
        pager.feed(pages.next().expect("ran past the mocked pages"));
    }
    // Two full pages and the empty third: exactly three requests.
    assert_eq!(requests, 3);
    let names: Vec<&str> = pager.crates.iter().map(|c| c.name.as_str()).collect();
    assert_eq!(names, ["a", "b", "c", "d"]);
}

#[test]
fn lazy_stream_yields_the_same_items_with_one_page_in_flight() {
    // Eager run, for comparison.
    let mut pager = CratesPager::new(CratesQuery::default());
    let mut eager_requests = 0;
    {
        let mut pages = pg_pages().into_iter();
        while !pager.finished {
            eager_requests += 1;
            pager.feed(pages.next().unwrap());
        }
    }
    let eager_names: Vec<String> = pager.crates.iter().map(|c| c.name.clone()).collect();

    // Lazy run over the same mocked pages, pulled to exhaustion.
    let mut stream = CrateStream::new(CratesQuery::default());
    let mut pages = pg_pages().into_iter();
    let mut lazy_names: Vec<String> = Vec::new();
    let mut lazy_requests = 0;
    loop {
        match stream.step() {
            StreamStep::Done => break,
            StreamStep::Yield(c) => lazy_names.push(c.name),
            StreamStep::Fetch(q) => {
                lazy_requests += 1;
                assert_eq!(q.page, lazy_requests);
                let page = pages.next().expect("fetched past the mocked pages");
                if let Some(Ok(c)) = stream.on_page(Ok(page)) {
                    lazy_names.push(c.name);
                }
            }
            StreamStep::Wait => panic!("nothing is ever in flight in this test"),
        }
    }
    assert_eq!(lazy_names, eager_names);
    assert_eq!(lazy_requests, eager_requests);
    // Exhausted for good: no further request is made.
    assert!(matches!(stream.step(), StreamStep::Done));
}

#[test]
fn lazy_stream_yields_one_error_then_exhausts() {
    let mut stream = CrateStream::new(CratesQuery::default());
    match stream.step() {
        StreamStep::Fetch(q) => {
            assert_eq!(q.page, 1);
            let out = stream.on_page(Err(Error::Http("connection reset".to_string())));
            match out {
                Some(Err(Error::Http(m))) => assert_eq!(m, "connection reset"),
                other => panic!("expected the error back, got {:?}", other),
            }
        }
        other => panic!("expected a fetch, got {:?}", step_name(&other)),
    }
    assert!(matches!(stream.step(), StreamStep::Done));
}

fn step_name(s: &StreamStep) -> &'static str {
    match s {
        StreamStep::Yield(_) => "Yield",
        StreamStep::Fetch(_) => "Fetch",
        StreamStep::Wait => "Wait",
        StreamStep::Done => "Done",
    }
}

fn wire_page(ids: &[u64], total: u64) -> ReverseDependenciesAsReceived {
    ReverseDependenciesAsReceived {
        dependencies: ids
            .iter()
            .map(|id| Dependency {
                crate_id: "demo".to_string(),
                default_features: true,
                downloads: 0,
                features: vec![],
                id: *id,
                kind: "normal".to_string(),
                optional: false,
                req: "^1".to_string(),
                target: None,
                version_id: *id,
            })
            .collect(),
        versions: ids
            .iter()
            .map(|id| Version {
                crate_name: "dependent".to_string(),
                created_at: "2020-01-01T00:00:00Z".to_string(),
                updated_at: "2020-01-01T00:00:00Z".to_string(),
                dl_path: String::new(),
                downloads: 0,
                features: vec![],
                id: *id,
                num: "1.0.0".to_string(),
                yanked: false,
                license: None,
                readme_path: None,
                links: VersionLinks {
                    authors: String::new(),
                    dependencies: String::new(),
                    version_downloads: String::new(),
                },
                crate_size: None,
                published_by: None,
            })
            .collect(),
        meta: Meta { total },
    }
}

#[test]
fn a_second_pull_waits_while_a_page_is_in_flight() {
    let mut stream = CrateStream::new(CratesQuery::default());
    assert!(matches!(stream.step(), StreamStep::Fetch(_)));
    // The fetch has not resolved yet: further pulls must wait, and no second
    // page fetch is started.
    assert!(matches!(stream.step(), StreamStep::Wait));
    assert!(matches!(stream.step(), StreamStep::Wait));
    assert_eq!(stream.filter.page, 2);
}

#[test]
fn rdeps_pager_accumulates_and_keeps_the_last_total() {
    let wire_pages = vec![wire_page(&[1, 2], 3), wire_page(&[3], 3), wire_page(&[], 3)];
    let mut pager = RdepsPager::new();
    let mut requests = 0;
    let mut pages = wire_pages.into_iter();
    while !pager.finished {
        assert_eq!(pager.next_page, requests + 1);
        requests += 1;
        let joined: ReverseDependencies = page_from_wire(pages.next().unwrap());
        pager.feed(joined);
    }
    assert_eq!(requests, 3);
    assert_eq!(pager.acc.dependencies.len(), 3);
    assert_eq!(pager.acc.meta.total, 3);
    let ids: Vec<u64> = pager.acc.dependencies.iter().map(|p| p.dependency.id).collect();
    assert_eq!(ids, [1, 2, 3]);
}
