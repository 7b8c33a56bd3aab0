//! Types for the data that is available via the API.
//!
//! Wire structures are modeled with plain values: timestamps are kept as the
//! RFC 3339 text received on the wire, and feature maps are kept as ordered
//! association lists. The types that take part in the reverse-dependency join
//! additionally carry a mathematical view (`UserV`, `VersionV`, ...) over
//! which the join contracts are stated.

use vstd::prelude::*;

verus! {

/// Used to specify the registry being queried by a client.
#[derive(Debug, Clone)]
pub struct Registry {
    /// Url of the registry.
    pub url: String,
    /// Name of the registry.
    pub name: Option<String>,
    /// Token used to authenticate registry requests.
    pub token: Option<String>,
}

/// A single error reported by the registry API inside an error envelope.
#[derive(Debug, Clone)]
pub struct ApiError {
    /// Error message; the wire may omit it.
    pub detail: Option<String>,
}

/// The error envelope the registry API uses to report application-level
/// errors inside an otherwise successful response.
#[derive(Debug, Clone)]
pub struct ApiErrors {
    /// Individual errors.
    pub errors: Vec<ApiError>,
}

/// The message text of one envelope entry: its detail, or a fixed sentinel
/// when the wire omitted the detail.
pub open spec fn api_error_message(e: ApiError) -> Seq<char> {
    match e.detail {
        Some(d) => d@,
        None => "Unknown API Error"@,
    }
}

/// The joined message text of a whole envelope: the entry messages joined
/// with a separator, or the sentinel alone when the envelope is empty.
pub open spec fn joined_details(errors: Seq<ApiError>) -> Seq<char>
    decreases errors.len(),
{
    if errors.len() == 0 {
        "Unknown API Error"@
    } else if errors.len() == 1 {
        api_error_message(errors[0])
    } else {
        joined_details(errors.drop_last()) + ", "@ + api_error_message(errors.last())
    }
}

impl ApiError {
    /// The message of this entry, with the sentinel standing in for an
    /// omitted detail.
    pub fn message(&self) -> (r: String)
        ensures
            r@ == api_error_message(*self),
    {
        match &self.detail {
            Some(d) => d.clone(),
            None => "Unknown API Error".to_owned(),
        }
    }
}

impl ApiErrors {
    /// The joined detail messages of all entries, or the sentinel when the
    /// envelope carries none.
    pub fn message(&self) -> (r: String)
        ensures
            r@ == joined_details(self.errors@),
    {
        if self.errors.len() == 0 {
            return "Unknown API Error".to_owned();
        }
        let mut out = self.errors[0].message();
        let mut i: usize = 1;
        while i < self.errors.len()
            invariant
                1 <= i <= self.errors@.len(),
                out@ == joined_details(self.errors@.take(i as int)),
            decreases self.errors@.len() - i,
        {
            proof {
                lemma_joined_details_take(self.errors@, i as int);
            }
            out.append(", ");
            let m = self.errors[i].message();
            out.append(m.as_str());
            i += 1;
        }
        proof {
            assert(self.errors@.take(self.errors@.len() as int) =~= self.errors@);
        }
        out
    }
}

proof fn lemma_joined_details_take(errors: Seq<ApiError>, i: int)
    requires
        1 <= i < errors.len(),
    ensures
        joined_details(errors.take(i + 1)) == joined_details(errors.take(i)) + ", "@
            + api_error_message(errors[i]),
{
    let t = errors.take(i + 1);
    assert(t.drop_last() =~= errors.take(i));
    assert(t.last() == errors[i]);
}

/// Pagination information.
#[derive(Debug, Clone, Copy, PartialEq, Eq, Structural)]
pub struct Meta {
    /// The total amount of results.
    pub total: u64,
}

/// Links to individual API endpoints that provide crate details.
#[derive(Debug, Clone)]
pub struct CrateLinks {
    pub owner_team: String,
    pub owner_user: String,
    pub owners: String,
    pub reverse_dependencies: String,
    pub version_downloads: String,
    pub versions: Option<String>,
}

/// A Rust crate published to the registry.
#[derive(Debug, Clone)]
pub struct Crate {
    pub id: String,
    pub name: String,
    pub description: Option<String>,
    pub license: Option<String>,
    pub documentation: Option<String>,
    pub homepage: Option<String>,
    pub repository: Option<String>,
    pub downloads: u64,
    pub recent_downloads: Option<u64>,
    /// Not set if the crate was loaded via a list query.
    pub categories: Option<Vec<String>>,
    /// Not set if the crate was loaded via a list query.
    pub keywords: Option<Vec<String>>,
    pub versions: Option<Vec<u64>>,
    pub max_version: String,
    pub max_stable_version: Option<String>,
    pub links: CrateLinks,
    /// Creation timestamp, as the RFC 3339 text received on the wire.
    pub created_at: String,
    /// Update timestamp, as the RFC 3339 text received on the wire.
    pub updated_at: String,
    pub exact_match: Option<bool>,
}

/// Full data for one page of a crate listing.
#[derive(Debug, Clone)]
pub struct CratesPage {
    pub crates: Vec<Crate>,
    pub versions: Vec<Version>,
    pub keywords: Vec<Keyword>,
    pub categories: Vec<Category>,
    pub meta: Meta,
}

/// Links to API endpoints providing extra data for a crate version.
#[derive(Debug)]
pub struct VersionLinks {
    pub authors: String,
    pub dependencies: String,
    pub version_downloads: String,
}

/// A [`Crate`] version.
#[derive(Debug)]
pub struct Version {
    pub crate_name: String,
    /// Creation timestamp, as the RFC 3339 text received on the wire.
    pub created_at: String,
    /// Update timestamp, as the RFC 3339 text received on the wire.
    pub updated_at: String,
    pub dl_path: String,
    pub downloads: u64,
    /// Feature map as an ordered association list of
    /// `(feature, enabled features)` entries.
    pub features: Vec<(String, Vec<String>)>,
    pub id: u64,
    pub num: String,
    pub yanked: bool,
    pub license: Option<String>,
    pub readme_path: Option<String>,
    pub links: VersionLinks,
    pub crate_size: Option<u64>,
    pub published_by: Option<User>,
}

/// A crate category.
#[derive(Debug, Clone)]
pub struct Category {
    pub category: String,
    pub crates_cnt: u64,
    /// Creation timestamp, as the RFC 3339 text received on the wire.
    pub created_at: String,
    pub description: String,
    pub id: String,
    pub slug: String,
}

/// A keyword available on the registry.
#[derive(Debug, Clone)]
pub struct Keyword {
    pub id: String,
    pub keyword: String,
    pub crates_cnt: u64,
    /// Creation timestamp, as the RFC 3339 text received on the wire.
    pub created_at: String,
}

/// Full data for a crate.
#[derive(Debug)]
pub struct CrateResponse {
    pub categories: Vec<Category>,
    pub crate_data: Crate,
    pub keywords: Vec<Keyword>,
    pub versions: Vec<Version>,
}

/// Summary with registry-wide information.
#[derive(Debug)]
pub struct Summary {
    pub just_updated: Vec<Crate>,
    pub most_downloaded: Vec<Crate>,
    pub new_crates: Vec<Crate>,
    pub most_recently_downloaded: Vec<Crate>,
    pub num_crates: u64,
    pub num_downloads: u64,
    pub popular_categories: Vec<Category>,
    pub popular_keywords: Vec<Keyword>,
}

/// Download data for a single crate version.
#[derive(Debug, Clone)]
pub struct VersionDownloads {
    /// Day of the downloads, as the date text received on the wire.
    pub date: String,
    pub downloads: u64,
    pub version: u64,
}

/// Crate downloads that don't fit a particular date; only required for old
/// download data.
#[derive(Debug, Clone)]
pub struct ExtraDownloads {
    /// Day of the downloads, as the date text received on the wire.
    pub date: String,
    pub downloads: u64,
}

/// Additional data for crate downloads.
#[derive(Debug, Clone)]
pub struct CrateDownloadsMeta {
    pub extra_downloads: Vec<ExtraDownloads>,
}

/// Download data for all versions of a [`Crate`].
#[derive(Debug, Clone)]
pub struct CrateDownloads {
    pub version_downloads: Vec<VersionDownloads>,
    pub meta: CrateDownloadsMeta,
}

/// A registry user.
#[derive(Debug)]
pub struct User {
    pub avatar: Option<String>,
    pub email: Option<String>,
    pub id: u64,
    pub kind: Option<String>,
    pub login: String,
    pub name: Option<String>,
    pub url: Option<String>,
}

/// Additional crate author metadata.
#[derive(Debug, Clone)]
pub struct AuthorsMeta {
    pub names: Vec<String>,
}

/// API response for authors data.
#[derive(Debug, Clone)]
pub struct AuthorsResponse {
    pub meta: AuthorsMeta,
}

/// Crate author names.
#[derive(Debug, Clone)]
pub struct Authors {
    pub names: Vec<String>,
}

/// Crate owners.
#[derive(Debug)]
pub struct Owners {
    pub users: Vec<User>,
}

/// A crate dependency; specifies the crate and features.
#[derive(Debug)]
pub struct Dependency {
    pub crate_id: String,
    pub default_features: bool,
    pub downloads: u64,
    pub features: Vec<String>,
    pub id: u64,
    pub kind: String,
    pub optional: bool,
    pub req: String,
    pub target: Option<String>,
    pub version_id: u64,
}

/// List of dependencies of a crate.
#[derive(Debug)]
pub struct Dependencies {
    pub dependencies: Vec<Dependency>,
}

/// Single reverse dependency (aka a dependent) of a crate: the joined record
/// of a dependent version and the dependency edge pointing at the queried
/// crate. Invariant of the join: `dependency.version_id == crate_version.id`.
#[derive(Debug)]
pub struct ReverseDependency {
    pub crate_version: Version,
    pub dependency: Dependency,
}

/// Reverse dependencies as received on the wire: a flat list of dependency
/// edges and a flat list of the versions they belong to.
#[derive(Debug)]
pub struct ReverseDependenciesAsReceived {
    pub dependencies: Vec<Dependency>,
    pub versions: Vec<Version>,
    pub meta: Meta,
}

/// Full list of reverse dependencies for a crate, after joining the wire's
/// flat lists.
#[derive(Debug)]
pub struct ReverseDependencies {
    pub dependencies: Vec<ReverseDependency>,
    pub meta: Meta,
}

/// Complete information for a crate version.
#[derive(Debug)]
pub struct FullVersion {
    /// Creation timestamp, as the RFC 3339 text received on the wire.
    pub created_at: String,
    /// Update timestamp, as the RFC 3339 text received on the wire.
    pub updated_at: String,
    pub dl_path: String,
    pub downloads: u64,
    /// Feature map as an ordered association list.
    pub features: Vec<(String, Vec<String>)>,
    pub id: u64,
    pub num: String,
    pub yanked: bool,
    pub license: Option<String>,
    pub readme_path: Option<String>,
    pub links: VersionLinks,
    pub author_names: Vec<String>,
    pub dependencies: Vec<Dependency>,
}

/// Complete information for a crate.
#[derive(Debug)]
pub struct FullCrate {
    pub id: String,
    pub name: String,
    pub description: Option<String>,
    pub license: Option<String>,
    pub documentation: Option<String>,
    pub homepage: Option<String>,
    pub repository: Option<String>,
    pub total_downloads: u64,
    pub max_version: String,
    pub max_stable_version: Option<String>,
    /// Creation timestamp, as the RFC 3339 text received on the wire.
    pub created_at: String,
    /// Update timestamp, as the RFC 3339 text received on the wire.
    pub updated_at: String,
    pub categories: Vec<Category>,
    pub keywords: Vec<Keyword>,
    pub downloads: CrateDownloads,
    pub owners: Vec<User>,
    pub reverse_dependencies: ReverseDependencies,
    pub versions: Vec<FullVersion>,
}

/// API response wrapping a single user.
#[derive(Debug)]
pub struct UserResponse {
    pub user: User,
}

// ---------------------------------------------------------------------------
// Mathematical views of the types that take part in the reverse-dependency
// join. Strings become character sequences and vectors become sequences, so
// the join contracts can be stated independently of allocation.
// ---------------------------------------------------------------------------

/// View of a [`User`].
pub struct UserV {
    pub avatar: Option<Seq<char>>,
    pub email: Option<Seq<char>>,
    pub id: u64,
    pub kind: Option<Seq<char>>,
    pub login: Seq<char>,
    pub name: Option<Seq<char>>,
    pub url: Option<Seq<char>>,
}

/// View of a [`VersionLinks`].
pub struct VersionLinksV {
    pub authors: Seq<char>,
    pub dependencies: Seq<char>,
    pub version_downloads: Seq<char>,
}

/// View of a [`Version`].
pub struct VersionV {
    pub crate_name: Seq<char>,
    pub created_at: Seq<char>,
    pub updated_at: Seq<char>,
    pub dl_path: Seq<char>,
    pub downloads: u64,
    pub features: Seq<(Seq<char>, Seq<Seq<char>>)>,
    pub id: u64,
    pub num: Seq<char>,
    pub yanked: bool,
    pub license: Option<Seq<char>>,
    pub readme_path: Option<Seq<char>>,
    pub links: VersionLinksV,
    pub crate_size: Option<u64>,
    pub published_by: Option<UserV>,
}

/// View of a [`Dependency`].
pub struct DependencyV {
    pub crate_id: Seq<char>,
    pub default_features: bool,
    pub downloads: u64,
    pub features: Seq<Seq<char>>,
    pub id: u64,
    pub kind: Seq<char>,
    pub optional: bool,
    pub req: Seq<char>,
    pub target: Option<Seq<char>>,
    pub version_id: u64,
}

/// View of a [`ReverseDependency`].
pub struct ReverseDependencyV {
    pub crate_version: VersionV,
    pub dependency: DependencyV,
}

impl View for User {
    type V = UserV;

    open spec fn view(&self) -> UserV {
        UserV {
            avatar: self.avatar.deep_view(),
            email: self.email.deep_view(),
            id: self.id,
            kind: self.kind.deep_view(),
            login: self.login@,
            name: self.name.deep_view(),
            url: self.url.deep_view(),
        }
    }
}

impl DeepView for User {
    type V = UserV;

    open spec fn deep_view(&self) -> UserV {
        self.view()
    }
}

impl View for VersionLinks {
    type V = VersionLinksV;

    open spec fn view(&self) -> VersionLinksV {
        VersionLinksV {
            authors: self.authors@,
            dependencies: self.dependencies@,
            version_downloads: self.version_downloads@,
        }
    }
}

impl DeepView for VersionLinks {
    type V = VersionLinksV;

    open spec fn deep_view(&self) -> VersionLinksV {
        self.view()
    }
}

impl View for Version {
    type V = VersionV;

    open spec fn view(&self) -> VersionV {
        VersionV {
            crate_name: self.crate_name@,
            created_at: self.created_at@,
            updated_at: self.updated_at@,
            dl_path: self.dl_path@,
            downloads: self.downloads,
            features: self.features.deep_view(),
            id: self.id,
            num: self.num@,
            yanked: self.yanked,
            license: self.license.deep_view(),
            readme_path: self.readme_path.deep_view(),
            links: self.links.deep_view(),
            crate_size: self.crate_size,
            published_by: self.published_by.deep_view(),
        }
    }
}

impl DeepView for Version {
    type V = VersionV;

    open spec fn deep_view(&self) -> VersionV {
        self.view()
    }
}

impl View for Dependency {
    type V = DependencyV;

    open spec fn view(&self) -> DependencyV {
        DependencyV {
            crate_id: self.crate_id@,
            default_features: self.default_features,
            downloads: self.downloads,
            features: self.features.deep_view(),
            id: self.id,
            kind: self.kind@,
            optional: self.optional,
            req: self.req@,
            target: self.target.deep_view(),
            version_id: self.version_id,
        }
    }
}

impl DeepView for Dependency {
    type V = DependencyV;

    open spec fn deep_view(&self) -> DependencyV {
        self.view()
    }
}

impl View for ReverseDependency {
    type V = ReverseDependencyV;

    open spec fn view(&self) -> ReverseDependencyV {
        ReverseDependencyV {
            crate_version: self.crate_version@,
            dependency: self.dependency@,
        }
    }
}

impl DeepView for ReverseDependency {
    type V = ReverseDependencyV;

    open spec fn deep_view(&self) -> ReverseDependencyV {
        self.view()
    }
}

// ---------------------------------------------------------------------------
// Clone implementations with contracts. The join duplicates versions and
// dependency edges, so their clones must provably preserve the views above.
// ---------------------------------------------------------------------------

/// The deep view of a sequence: every element replaced by its own deep view.
pub open spec fn deep_of<T: DeepView>(s: Seq<T>) -> Seq<T::V> {
    Seq::new(s.len(), |i: int| s[i].deep_view())
}

/// A vector's deep view is the deep view of its element sequence.
pub proof fn lemma_vec_deep_view<T: DeepView>(v: &Vec<T>)
    ensures
        v.deep_view() == deep_of(v@),
{
    assert(v.deep_view() =~= deep_of(v@));
}

/// Pushing an element pushes its deep view.
pub proof fn lemma_deep_of_push<T: DeepView>(s: Seq<T>, x: T)
    ensures
        deep_of(s.push(x)) == deep_of(s).push(x.deep_view()),
{
    assert forall|i: int| 0 <= i < s.len() + 1 implies deep_of(s.push(x))[i] == deep_of(s).push(
        x.deep_view(),
    )[i] by {
        if i < s.len() {
            assert(s.push(x)[i] == s[i]);
        } else {
            assert(s.push(x)[i] == x);
        }
    }
    assert(deep_of(s.push(x)) =~= deep_of(s).push(x.deep_view()));
}

/// Clones an optional string, preserving the value exactly.
pub(crate) fn clone_opt_string(o: &Option<String>) -> (r: Option<String>)
    ensures
        r == *o,
{
    match o {
        Some(s) => Some(s.clone()),
        None => None,
    }
}

/// Clones a vector of strings, preserving its sequence of values.
pub(crate) fn clone_string_vec(v: &Vec<String>) -> (r: Vec<String>)
    ensures
        r@ == v@,
{
    let mut out: Vec<String> = Vec::new();
    let mut i: usize = 0;
    while i < v.len()
        invariant
            i <= v@.len(),
            out@ == v@.take(i as int),
        decreases v@.len() - i,
    {
        out.push(v[i].clone());
        proof {
            assert(v@.take(i + 1 as int) =~= v@.take(i as int).push(v@[i as int]));
        }
        i += 1;
    }
    proof {
        assert(v@.take(v@.len() as int) =~= v@);
    }
    out
}

/// Clones a feature association list, preserving its view.
pub(crate) fn clone_features(v: &Vec<(String, Vec<String>)>) -> (r: Vec<(String, Vec<String>)>)
    ensures
        r.deep_view() == v.deep_view(),
{
    let mut out: Vec<(String, Vec<String>)> = Vec::new();
    let mut i: usize = 0;
    while i < v.len()
        invariant
            i <= v@.len(),
            out@.len() == i,
            out.deep_view() == v.deep_view().take(i as int),
        decreases v@.len() - i,
    {
        let name = v[i].0.clone();
        let enabled = clone_string_vec(&v[i].1);
        proof {
            assert((name, enabled).deep_view() == v@[i as int].deep_view()) by {
                assert(enabled.deep_view() =~~= v@[i as int].1.deep_view());
            }
        }
        let ghost prev_seq = out@;
        let ghost prev_deep = out.deep_view();
        let ghost pair = (name, enabled);
        out.push((name, enabled));
        proof {
            assert forall|j: int| 0 <= j < out@.len() implies out.deep_view()[j] == v.deep_view().take(
                i + 1 as int,
            )[j] by {
                if j < i as int {
                    assert(out@ == prev_seq.push(pair));
                    assert(prev_seq.push(pair)[j] == prev_seq[j]);
                    assert(out.deep_view()[j] == prev_deep[j]);
                    assert(prev_deep[j] == v.deep_view()[j]);
                } else {
                    assert(out@[j] == pair);
                    assert(out@[j].deep_view() == v@[j].deep_view());
                }
            }
            assert(out.deep_view() =~~= v.deep_view().take(i + 1 as int));
        }
        i += 1;
    }
    proof {
        assert(v.deep_view().take(v@.len() as int) =~~= v.deep_view());
    }
    out
}

impl Clone for VersionLinks {
    /// Clones the links, preserving the value exactly.
    fn clone(&self) -> (r: Self)
        ensures
            r == *self,
    {
        VersionLinks {
            authors: self.authors.clone(),
            dependencies: self.dependencies.clone(),
            version_downloads: self.version_downloads.clone(),
        }
    }
}

impl Clone for User {
    /// Clones the user, preserving the value exactly.
    fn clone(&self) -> (r: Self)
        ensures
            r == *self,
    {
        User {
            avatar: clone_opt_string(&self.avatar),
            email: clone_opt_string(&self.email),
            id: self.id,
            kind: clone_opt_string(&self.kind),
            login: self.login.clone(),
            name: clone_opt_string(&self.name),
            url: clone_opt_string(&self.url),
        }
    }
}

impl Clone for Dependency {
    /// Clones the dependency edge, preserving its view.
    fn clone(&self) -> (r: Self)
        ensures
            r@ == self@,
    {
        Dependency {
            crate_id: self.crate_id.clone(),
            default_features: self.default_features,
            downloads: self.downloads,
            features: clone_string_vec(&self.features),
            id: self.id,
            kind: self.kind.clone(),
            optional: self.optional,
            req: self.req.clone(),
            target: clone_opt_string(&self.target),
            version_id: self.version_id,
        }
    }
}

impl Clone for Version {
    /// Clones the version record, preserving its view.
    fn clone(&self) -> (r: Self)
        ensures
            r@ == self@,
    {
        let published_by = match &self.published_by {
            Some(u) => Some(u.clone()),
            None => None,
        };
        Version {
            crate_name: self.crate_name.clone(),
            created_at: self.created_at.clone(),
            updated_at: self.updated_at.clone(),
            dl_path: self.dl_path.clone(),
            downloads: self.downloads,
            features: clone_features(&self.features),
            id: self.id,
            num: self.num.clone(),
            yanked: self.yanked,
            license: clone_opt_string(&self.license),
            readme_path: clone_opt_string(&self.readme_path),
            links: self.links.clone(),
            crate_size: self.crate_size,
            published_by,
        }
    }
}

} // verus!
