//! Endpoint mapping: pure construction of the URL for each API operation.
//!
//! A URL is modeled as the text the request line will carry; builders append
//! to a base URL that ends in a slash. Crate names containing a path
//! separator are rejected with [`Error::NotFound`] before any request is
//! made, since the remote API answers nonsensically for such names.

use vstd::prelude::*;
use crate::error::Error;
use crate::text::dec_str_of;
use crate::text::u64_to_string;

verus! {

/// Whether a name contains the path separator that endpoint paths cannot
/// carry.
pub open spec fn has_path_separator(s: Seq<char>) -> bool {
    exists|i: int| 0 <= i < s.len() && s[i] == '/'
}

/// Checks a name for a path separator.
pub fn contains_path_separator(s: &str) -> (b: bool)
    ensures
        b == has_path_separator(s@),
{
    let n = s.unicode_len();
    let mut i: usize = 0;
    while i < n
        invariant
            i <= n,
            n == s@.len(),
            forall|j: int| 0 <= j < i ==> s@[j] != '/',
        decreases n - i,
    {
        if s.get_char(i) == '/' {
            return true;
        }
        i += 1;
    }
    false
}

/// The URL of the crate-detail endpoint.
pub open spec fn crate_detail_url(base: Seq<char>, name: Seq<char>) -> Seq<char> {
    base + "crates/"@ + name
}

/// The slash-terminated base path under which a crate's sub-resources live.
pub open spec fn crate_nested_base(base: Seq<char>, name: Seq<char>) -> Seq<char> {
    base + "crates/"@ + name + "/"@
}

/// The URL of the summary endpoint.
pub open spec fn summary_url_of(base: Seq<char>) -> Seq<char> {
    base + "summary"@
}

/// The URL of the user endpoint.
pub open spec fn user_url_of(base: Seq<char>, username: Seq<char>) -> Seq<char> {
    base + "users/"@ + username
}

/// The page number a reverse-dependency request actually asks for: pages
/// below 1 are coerced to 1.
pub open spec fn coerced_page(page: u64) -> int {
    if page < 1 {
        1
    } else {
        page as int
    }
}

/// The URL of one reverse-dependencies page: a fixed page size of 100 and an
/// explicit, coerced page number.
pub open spec fn reverse_deps_url(base: Seq<char>, name: Seq<char>, page: u64) -> Seq<char> {
    crate_nested_base(base, name) + "reverse_dependencies?per_page=100&page="@ + dec_str_of(
        coerced_page(page),
    )
}

/// Builds the crate-detail URL, rejecting names with a path separator.
pub fn build_crate_url(base: &str, crate_name: &str) -> (r: Result<String, Error>)
    ensures
        !has_path_separator(crate_name@) ==> (r matches Ok(u) && u@ == crate_detail_url(
            base@,
            crate_name@,
        )),
        has_path_separator(crate_name@) ==> (r matches Err(Error::NotFound(u)) && u@
            == crate_detail_url(base@, crate_name@)),
{
    let mut u = base.to_owned();
    u.append("crates/");
    u.append(crate_name);
    if contains_path_separator(crate_name) {
        Err(Error::NotFound(u))
    } else {
        Ok(u)
    }
}

/// Builds the slash-terminated base path for a crate's sub-resources,
/// rejecting names with a path separator.
pub fn build_crate_url_nested(base: &str, crate_name: &str) -> (r: Result<String, Error>)
    ensures
        !has_path_separator(crate_name@) ==> (r matches Ok(u) && u@ == crate_nested_base(
            base@,
            crate_name@,
        )),
        has_path_separator(crate_name@) ==> (r matches Err(Error::NotFound(u)) && u@
            == crate_nested_base(base@, crate_name@)),
{
    let mut u = base.to_owned();
    u.append("crates/");
    u.append(crate_name);
    u.append("/");
    if contains_path_separator(crate_name) {
        Err(Error::NotFound(u))
    } else {
        Ok(u)
    }
}

/// Builds the URL of the download-stats endpoint of a crate.
pub fn build_crate_downloads_url(base: &str, crate_name: &str) -> (r: Result<String, Error>)
    ensures
        !has_path_separator(crate_name@) ==> (r matches Ok(u) && u@ == crate_nested_base(
            base@,
            crate_name@,
        ) + "downloads"@),
        has_path_separator(crate_name@) ==> (r matches Err(Error::NotFound(u)) && u@
            == crate_nested_base(base@, crate_name@)),
{
    match build_crate_url_nested(base, crate_name) {
        Ok(mut u) => {
            u.append("downloads");
            Ok(u)
        },
        Err(e) => Err(e),
    }
}

/// Builds the URL of the owners endpoint of a crate.
pub fn build_crate_owners_url(base: &str, crate_name: &str) -> (r: Result<String, Error>)
    ensures
        !has_path_separator(crate_name@) ==> (r matches Ok(u) && u@ == crate_nested_base(
            base@,
            crate_name@,
        ) + "owners"@),
        has_path_separator(crate_name@) ==> (r matches Err(Error::NotFound(u)) && u@
            == crate_nested_base(base@, crate_name@)),
{
    match build_crate_url_nested(base, crate_name) {
        Ok(mut u) => {
            u.append("owners");
            Ok(u)
        },
        Err(e) => Err(e),
    }
}

/// Builds the URL of one reverse-dependencies page of a crate; page numbers
/// below 1 are coerced to 1.
pub fn build_crate_reverse_deps_url(base: &str, crate_name: &str, page: u64) -> (r: Result<
    String,
    Error,
>)
    ensures
        !has_path_separator(crate_name@) ==> (r matches Ok(u) && u@ == reverse_deps_url(
            base@,
            crate_name@,
            page,
        )),
        has_path_separator(crate_name@) ==> (r matches Err(Error::NotFound(u)) && u@
            == crate_nested_base(base@, crate_name@)),
{
    match build_crate_url_nested(base, crate_name) {
        Ok(mut u) => {
            let p: u64 = if page < 1 {
                1
            } else {
                page
            };
            u.append("reverse_dependencies?per_page=100&page=");
            let digits = u64_to_string(p);
            u.append(digits.as_str());
            Ok(u)
        },
        Err(e) => Err(e),
    }
}

/// Builds the URL of the authors endpoint of a crate version.
pub fn build_crate_authors_url(base: &str, crate_name: &str, version: &str) -> (r: Result<
    String,
    Error,
>)
    ensures
        !has_path_separator(crate_name@) ==> (r matches Ok(u) && u@ == crate_nested_base(
            base@,
            crate_name@,
        ) + version@ + "/authors"@),
        has_path_separator(crate_name@) ==> (r matches Err(Error::NotFound(u)) && u@
            == crate_nested_base(base@, crate_name@)),
{
    match build_crate_url_nested(base, crate_name) {
        Ok(mut u) => {
            u.append(version);
            u.append("/authors");
            Ok(u)
        },
        Err(e) => Err(e),
    }
}

/// Builds the URL of the dependencies endpoint of a crate version.
pub fn build_crate_dependencies_url(base: &str, crate_name: &str, version: &str) -> (r: Result<
    String,
    Error,
>)
    ensures
        !has_path_separator(crate_name@) ==> (r matches Ok(u) && u@ == crate_nested_base(
            base@,
            crate_name@,
        ) + version@ + "/dependencies"@),
        has_path_separator(crate_name@) ==> (r matches Err(Error::NotFound(u)) && u@
            == crate_nested_base(base@, crate_name@)),
{
    match build_crate_url_nested(base, crate_name) {
        Ok(mut u) => {
            u.append(version);
            u.append("/dependencies");
            Ok(u)
        },
        Err(e) => Err(e),
    }
}

/// Builds the URL of the summary endpoint.
pub fn build_summary_url(base: &str) -> (u: String)
    ensures
        u@ == summary_url_of(base@),
{
    let mut u = base.to_owned();
    u.append("summary");
    u
}

/// Builds the URL of the user endpoint.
pub fn build_user_url(base: &str, username: &str) -> (u: String)
    ensures
        u@ == user_url_of(base@, username@),
{
    let mut u = base.to_owned();
    u.append("users/");
    u.append(username);
    u
}

} // verus!
