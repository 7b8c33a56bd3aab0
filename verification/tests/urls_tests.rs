//! Tests for the endpoint mapper: exact URLs, and the rejection of crate
//! names carrying a path separator before any request is made.

use crates_io_api::error::Error;
use crates_io_api::urls::build_crate_authors_url;
use crates_io_api::urls::build_crate_dependencies_url;
use crates_io_api::urls::build_crate_downloads_url;
use crates_io_api::urls::build_crate_owners_url;
use crates_io_api::urls::build_crate_reverse_deps_url;
use crates_io_api::urls::build_crate_url;
use crates_io_api::urls::build_crate_url_nested;
use crates_io_api::urls::build_summary_url;
use crates_io_api::urls::build_user_url;

const BASE: &str = "https://crates.io/api/v1/";

#[test]
fn test_get_crate_with_slash() {
    match build_crate_url(BASE, "a/b") {
        Err(Error::NotFound(url)) => {
            assert!(url.contains("a/b"));
        }
        other => {
            panic!("Invalid response: expected NotFound error, got {:?}", other);
        }
    }
}

#[test]
fn every_endpoint_rejects_separator_names() {
    assert!(matches!(
        build_crate_url(BASE, "a/b"),
        Err(Error::NotFound(_))
    ));
    assert!(matches!(
        build_crate_url_nested(BASE, "a/b"),
        Err(Error::NotFound(_))
    ));
    assert!(matches!(
        build_crate_downloads_url(BASE, "a/b"),
        Err(Error::NotFound(_))
    ));
    assert!(matches!(
        build_crate_owners_url(BASE, "a/b"),
        Err(Error::NotFound(_))
    ));
    assert!(matches!(
        build_crate_reverse_deps_url(BASE, "a/b", 1),
        Err(Error::NotFound(_))
    ));
    assert!(matches!(
        build_crate_authors_url(BASE, "a/b", "1.0.0"),
        Err(Error::NotFound(_))
    ));
    assert!(matches!(
        build_crate_dependencies_url(BASE, "a/b", "1.0.0"),
        Err(Error::NotFound(_))
    ));
}

#[test]
fn detail_url_is_exact() {
    assert_eq!(
        build_crate_url(BASE, "serde").unwrap(),
        "https://crates.io/api/v1/crates/serde"
    );
}

#[test]
fn nested_urls_are_exact() {
    assert_eq!(
        build_crate_url_nested(BASE, "serde").unwrap(),
        "https://crates.io/api/v1/crates/serde/"
    );
    assert_eq!(
        build_crate_downloads_url(BASE, "serde").unwrap(),
        "https://crates.io/api/v1/crates/serde/downloads"
    );
    assert_eq!(
        build_crate_owners_url(BASE, "serde").unwrap(),
        "https://crates.io/api/v1/crates/serde/owners"
    );
    assert_eq!(
        build_crate_authors_url(BASE, "serde", "1.0.0").unwrap(),
        "https://crates.io/api/v1/crates/serde/1.0.0/authors"
    );
    assert_eq!(
        build_crate_dependencies_url(BASE, "serde", "1.0.0").unwrap(),
        "https://crates.io/api/v1/crates/serde/1.0.0/dependencies"
    );
}

#[test]
fn reverse_deps_url_coerces_page_zero() {
    assert_eq!(
        build_crate_reverse_deps_url(BASE, "serde", 0).unwrap(),
        "https://crates.io/api/v1/crates/serde/reverse_dependencies?per_page=100&page=1"
    );
    assert_eq!(
        build_crate_reverse_deps_url(BASE, "serde", 12345).unwrap(),
        "https://crates.io/api/v1/crates/serde/reverse_dependencies?per_page=100&page=12345"
    );
}

#[test]
fn summary_and_user_urls_are_exact() {
    assert_eq!(build_summary_url(BASE), "https://crates.io/api/v1/summary");
    assert_eq!(
        build_user_url(BASE, "theduke"),
        "https://crates.io/api/v1/users/theduke"
    );
}
