//! Scenario tests: client construction, the decoded summary, and the request
//! plan of a full-crate fetch against mocked pages.

use crates_io_api::client::assemble_full_crate;
use crates_io_api::client::assemble_full_version;
use crates_io_api::client::version_fetch_plan;
use crates_io_api::client::ClientConfig;
use crates_io_api::decode::decode_decision;
use crates_io_api::decode::ParseOutcome;
use crates_io_api::pagination::RdepsPager;
use crates_io_api::rdeps::page_from_wire;
use crates_io_api::types::Authors;
use crates_io_api::types::Crate;
use crates_io_api::types::CrateDownloads;
use crates_io_api::types::CrateDownloadsMeta;
use crates_io_api::types::CrateLinks;
use crates_io_api::types::CrateResponse;
use crates_io_api::types::Dependency;
use crates_io_api::types::Meta;
use crates_io_api::types::ReverseDependenciesAsReceived;
use crates_io_api::types::Summary;
use crates_io_api::types::User;
use crates_io_api::types::Version;
use crates_io_api::types::VersionLinks;
use crates_io_api::urls::build_crate_downloads_url;
use crates_io_api::urls::build_crate_owners_url;
use crates_io_api::urls::build_crate_reverse_deps_url;
use crates_io_api::urls::build_crate_url;
use crates_io_api::urls::build_crate_authors_url;
use crates_io_api::urls::build_crate_dependencies_url;

fn cl_crate(name: &str) -> Crate {
    Crate {
        id: name.to_string(),
        name: name.to_string(),
        description: Some("a crate".to_string()),
        license: None,
        documentation: None,
        homepage: None,
        repository: None,
        downloads: 10,
        recent_downloads: None,
        categories: None,
        keywords: None,
        versions: None,
        max_version: "2.0.0".to_string(),
        max_stable_version: Some("2.0.0".to_string()),
        links: CrateLinks {
            owner_team: String::new(),
            owner_user: String::new(),
            owners: String::new(),
            reverse_dependencies: String::new(),
            version_downloads: String::new(),
            versions: None,
        },
        created_at: "2020-01-01T00:00:00Z".to_string(),
        updated_at: "2021-01-01T00:00:00Z".to_string(),
        exact_match: None,
    }
}

fn cl_version(name: &str, num: &str, id: u64) -> Version {
    Version {
        crate_name: name.to_string(),
        created_at: "2020-01-01T00:00:00Z".to_string(),
        updated_at: "2020-06-01T00:00:00Z".to_string(),
        dl_path: format!("/api/v1/crates/{}/{}/download", name, num),
        downloads: 5,
        features: vec![("default".to_string(), vec!["std".to_string()])],
        id,
        num: num.to_string(),
        yanked: false,
        license: Some("MIT".to_string()),
        readme_path: None,
        links: VersionLinks {
            authors: String::new(),
            dependencies: String::new(),
            version_downloads: String::new(),
        },
        crate_size: None,
        published_by: None,
    }
}

#[test]
fn client_construction_validates_the_user_agent() {
    let c = ClientConfig::new("my_bot (help@my_bot.com)", 1000).unwrap();
    assert_eq!(c.base_url, "https://crates.io/api/v1/");
    assert_eq!(c.headers.user_agent, "my_bot (help@my_bot.com)");
    assert!(c.headers.authorization.is_none());
    assert_eq!(c.rate_limit, 1000);
    assert_eq!(c.limiter.last_start, None);

    let err = ClientConfig::new("bad\u{1}agent", 1000).unwrap_err();
    assert_eq!(err.value, "bad\u{1}agent");
}

#[test]
fn summary_scenario_decodes_the_mocked_body() {
    let summary = Summary {
        just_updated: vec![cl_crate("a")],
        most_downloaded: vec![
            cl_crate("one"),
            cl_crate("two"),
            cl_crate("three"),
            cl_crate("four"),
            cl_crate("five"),
        ],
        new_crates: vec![cl_crate("b")],
        most_recently_downloaded: vec![cl_crate("c")],
        num_crates: 1000,
        num_downloads: 123456,
        popular_categories: vec![],
        popular_keywords: vec![],
    };
    let decoded = decode_decision::<Summary>(None, ParseOutcome::Parsed(summary)).unwrap();
    assert_eq!(decoded.most_downloaded.len(), 5);
    assert_eq!(decoded.num_crates, 1000);
}

#[test]
fn full_version_assembles_from_its_parts() {
    let v = cl_version("demo", "1.0.0", 7);
    let authors = Authors {
        names: vec!["Ada".to_string()],
    };
    let deps = vec![Dependency {
        crate_id: "serde".to_string(),
        default_features: true,
        downloads: 0,
        features: vec![],
        id: 1,
        kind: "normal".to_string(),
        optional: false,
        req: "^1".to_string(),
        target: None,
        version_id: 7,
    }];
    let full = assemble_full_version(v, authors, deps);
    assert_eq!(full.num, "1.0.0");
    assert_eq!(full.id, 7);
    assert_eq!(full.license.as_deref(), Some("MIT"));
    assert_eq!(full.author_names, ["Ada"]);
    assert_eq!(full.dependencies.len(), 1);
    assert_eq!(full.dependencies[0].crate_id, "serde");
}

#[test]
fn full_crate_fetch_issues_exactly_the_planned_requests() {
    let base = "https://crates.io/api/v1/";
    let name = "demo";
    // The mocked crate detail: two published versions.
    let detail = CrateResponse {
        categories: vec![],
        crate_data: cl_crate(name),
        keywords: vec![],
        versions: vec![cl_version(name, "2.0.0", 2), cl_version(name, "1.0.0", 1)],
    };
    // Drive the fetch as a host program would, collecting every URL asked
    // for. With `resolve_all_versions` false only the first version is
    // resolved: authors and dependencies once each.
    let mut requested: Vec<String> = Vec::new();
    requested.push(build_crate_url(base, name).unwrap());

    let plan = version_fetch_plan(&detail.versions, false);
    assert_eq!(plan.len(), 1);
    assert_eq!(plan[0].0, "demo");
    assert_eq!(plan[0].1, "2.0.0");
    for (vname, vnum) in &plan {
        requested.push(build_crate_authors_url(base, vname, vnum).unwrap());
        requested.push(build_crate_dependencies_url(base, vname, vnum).unwrap());
    }

    requested.push(build_crate_downloads_url(base, name).unwrap());
    requested.push(build_crate_owners_url(base, name).unwrap());

    // Reverse dependencies paginate eagerly: one page with an edge, then the
    // empty page that ends the pagination.
    let mut pager = RdepsPager::new();
    let wire_pages = vec![
        ReverseDependenciesAsReceived {
            dependencies: vec![Dependency {
                crate_id: name.to_string(),
                default_features: true,
                downloads: 0,
                features: vec![],
                id: 1,
                kind: "normal".to_string(),
                optional: false,
                req: "^2".to_string(),
                target: None,
                version_id: 9,
            }],
            versions: vec![cl_version("dependent", "0.3.0", 9)],
            meta: Meta { total: 1 },
        },
        ReverseDependenciesAsReceived {
            dependencies: vec![],
            versions: vec![],
            meta: Meta { total: 1 },
        },
    ];
    let mut wire = wire_pages.into_iter();
    while !pager.finished {
        requested.push(build_crate_reverse_deps_url(base, name, pager.next_page).unwrap());
        pager.feed(page_from_wire(wire.next().unwrap()));
    }

    // 1 detail + 2 per-version + 1 downloads + 1 owners + 2 reverse-deps
    // pages: seven requests, no more.
    assert_eq!(requested.len(), 7);

    // Every part resolved; the composite is assembled whole.
    let versions = vec![assemble_full_version(
        cl_version(name, "2.0.0", 2),
        Authors { names: vec![] },
        vec![],
    )];
    let full = assemble_full_crate(
        detail,
        CrateDownloads {
            version_downloads: vec![],
            meta: CrateDownloadsMeta {
                extra_downloads: vec![],
            },
        },
        vec![User {
            avatar: None,
            email: None,
            id: 42,
            kind: None,
            login: "owner".to_string(),
            name: None,
            url: None,
        }],
        pager.acc,
        versions,
    );
    assert_eq!(full.name, "demo");
    assert_eq!(full.license.as_deref(), Some("MIT"));
    assert_eq!(full.owners.len(), 1);
    assert_eq!(full.reverse_dependencies.dependencies.len(), 1);
    assert_eq!(full.reverse_dependencies.meta.total, 1);
    assert_eq!(full.versions.len(), 1);
}

#[test]
fn version_plan_covers_every_version_when_asked() {
    let versions = vec![
        cl_version("demo", "2.0.0", 2),
        cl_version("demo", "1.1.0", 1),
        cl_version("demo", "1.0.0", 0),
    ];
    let plan = version_fetch_plan(&versions, true);
    let nums: Vec<&str> = plan.iter().map(|p| p.1.as_str()).collect();
    assert_eq!(nums, ["2.0.0", "1.1.0", "1.0.0"]);
    let none = version_fetch_plan(&Vec::new(), true);
    assert!(none.is_empty());
}
