//! Client construction and the composition of a full crate record.
//!
//! A client is configured once — base URL, headers, pacing interval — and a
//! full-crate fetch composes several independent endpoint results into one
//! record. The host program performs the fetches; the functions here decide
//! what to fetch and assemble the record from the already resolved parts,
//! so a composite is only ever built whole.

use vstd::prelude::*;
use crate::helper::HeaderPlan;
use crate::helper::InvalidHeaderValue;
use crate::helper::base_url;
use crate::helper::planned_auth;
use crate::helper::setup_headers;
use crate::helper::valid_header_value;
use crate::limiter::RateLimitState;
use crate::types::Authors;
use crate::types::CrateDownloads;
use crate::types::CrateResponse;
use crate::types::Dependency;
use crate::types::FullCrate;
use crate::types::FullVersion;
use crate::types::Registry;
use crate::types::ReverseDependencies;
use crate::types::User;
use crate::types::Version;
use crate::types::clone_opt_string;
use crate::types::deep_of;
use crate::types::lemma_deep_of_push;
use crate::types::lemma_vec_deep_view;

verus! {

/// Everything a client needs to issue requests: where to send them, which
/// headers they carry, and how their starts are paced.
#[derive(Debug)]
pub struct ClientConfig {
    /// The base URL every endpoint path is appended to.
    pub base_url: String,
    /// The headers every request carries.
    pub headers: HeaderPlan,
    /// The minimum spacing between request starts, in clock units.
    pub rate_limit: u64,
    /// The pacing state, shared by all calls of this client.
    pub limiter: RateLimitState,
}

impl ClientConfig {
    /// Configures a client against the default registry. Fails exactly when
    /// the user agent cannot be carried as a header value.
    pub fn new(user_agent: &str, rate_limit: u64) -> (r: Result<Self, InvalidHeaderValue>)
        ensures
            !valid_header_value(user_agent@) ==> (r matches Err(e) && e.value@ == user_agent@),
            valid_header_value(user_agent@) ==> (r matches Ok(c) && c.base_url@
                == "https://crates.io/api/v1/"@ && c.headers.user_agent@ == user_agent@
                && c.headers.authorization is None && c.rate_limit == rate_limit
                && c.limiter.last_start is None),
    {
        Self::build(user_agent, rate_limit, None, None)
    }

    /// Configures a client, optionally against a private registry whose
    /// token, for a named registry, was read from the environment by the
    /// caller (`env_token`). Fails exactly when the user agent, or the token
    /// that would be sent, cannot be carried as a header value.
    pub fn build(
        user_agent: &str,
        rate_limit: u64,
        registry: Option<&Registry>,
        env_token: Option<String>,
    ) -> (r: Result<Self, InvalidHeaderValue>)
        ensures
            !valid_header_value(user_agent@) ==> (r matches Err(e) && e.value@ == user_agent@),
            valid_header_value(user_agent@) ==> match planned_auth(registry, env_token) {
                Some(t) => {
                    &&& valid_header_value(t) ==> (r matches Ok(c) && c.headers.user_agent@
                        == user_agent@ && (c.headers.authorization matches Some(a) && a@ == t)
                        && config_matches(c, registry, rate_limit))
                    &&& !valid_header_value(t) ==> (r matches Err(e) && e.value@ == t)
                },
                None => (r matches Ok(c) && c.headers.user_agent@ == user_agent@
                    && c.headers.authorization is None && config_matches(c, registry, rate_limit)),
            },
    {
        let headers = match setup_headers(user_agent, registry, env_token) {
            Ok(h) => h,
            Err(e) => {
                return Err(e);
            },
        };
        let base = base_url(registry);
        Ok(ClientConfig {
            base_url: base,
            headers,
            rate_limit,
            limiter: RateLimitState::new(),
        })
    }
}

/// Whether a configuration points at the given registry with the given
/// pacing, before its first request.
pub open spec fn config_matches(c: ClientConfig, registry: Option<&Registry>, rate_limit: u64) -> bool {
    &&& c.base_url@ == match registry {
        Some(reg) => reg.url@,
        None => "https://crates.io/api/v1/"@,
    }
    &&& c.rate_limit == rate_limit
    &&& c.limiter.last_start is None
}

/// Assembles the complete record of one version from the version itself and
/// the separately fetched authors and dependencies.
pub fn assemble_full_version(version: Version, authors: Authors, dependencies: Vec<Dependency>) -> (v:
    FullVersion)
    ensures
        v.created_at == version.created_at,
        v.updated_at == version.updated_at,
        v.dl_path == version.dl_path,
        v.downloads == version.downloads,
        v.features == version.features,
        v.id == version.id,
        v.num == version.num,
        v.yanked == version.yanked,
        v.license == version.license,
        v.readme_path == version.readme_path,
        v.links == version.links,
        v.author_names == authors.names,
        v.dependencies == dependencies,
{
    FullVersion {
        created_at: version.created_at,
        updated_at: version.updated_at,
        dl_path: version.dl_path,
        downloads: version.downloads,
        features: version.features,
        id: version.id,
        num: version.num,
        yanked: version.yanked,
        license: version.license,
        readme_path: version.readme_path,
        links: version.links,
        author_names: authors.names,
        dependencies,
    }
}

/// The versions a full-crate fetch resolves, each as the `(crate, version)`
/// pair whose authors and dependencies endpoints must both be fetched: every
/// version when `all_versions` is set, else only the first listed one.
pub open spec fn version_plan_of(versions: Seq<Version>, all_versions: bool) -> Seq<
    (Seq<char>, Seq<char>),
> {
    if versions.len() == 0 {
        Seq::empty()
    } else if all_versions {
        Seq::new(versions.len(), |i: int| (versions[i].crate_name@, versions[i].num@))
    } else {
        seq![(versions[0].crate_name@, versions[0].num@)]
    }
}

/// Plans the per-version sub-fetches of a full-crate fetch: the `(crate,
/// version)` pairs to resolve, each needing an authors fetch and a
/// dependencies fetch.
pub fn version_fetch_plan(versions: &Vec<Version>, all_versions: bool) -> (plan: Vec<
    (String, String),
>)
    ensures
        plan.deep_view() == version_plan_of(versions@, all_versions),
{
    let mut plan: Vec<(String, String)> = Vec::new();
    proof {
        assert(plan.deep_view() =~= Seq::<(Seq<char>, Seq<char>)>::empty());
    }
    if versions.len() == 0 {
        return plan;
    }
    if all_versions {
        let mut i: usize = 0;
        while i < versions.len()
            invariant
                i <= versions@.len(),
                plan.deep_view() == version_plan_of(versions@, true).take(i as int),
                versions@.len() > 0,
            decreases versions@.len() - i,
        {
            let ghost pre = plan@;
            let name = versions[i].crate_name.clone();
            let num = versions[i].num.clone();
            let ghost pair = (name, num);
            plan.push((name, num));
            proof {
                lemma_deep_of_push(pre, pair);
                assert(plan.deep_view() =~= deep_of(plan@));
                assert(deep_of(pre) =~= version_plan_of(versions@, true).take(i as int));
                assert(version_plan_of(versions@, true).take(i + 1 as int) =~= version_plan_of(
                    versions@,
                    true,
                ).take(i as int).push((versions@[i as int].crate_name@, versions@[i as int].num@)));
            }
            i += 1;
        }
        proof {
            assert(version_plan_of(versions@, true).take(versions@.len() as int)
                =~= version_plan_of(versions@, true));
        }
        plan
    } else {
        let ghost pre = plan@;
        let name = versions[0].crate_name.clone();
        let num = versions[0].num.clone();
        let ghost pair = (name, num);
        plan.push((name, num));
        proof {
            lemma_deep_of_push(pre, pair);
            assert(plan.deep_view() =~= deep_of(plan@));
            assert(deep_of(pre) =~= Seq::<(Seq<char>, Seq<char>)>::empty());
            assert(plan.deep_view() =~= version_plan_of(versions@, false));
        }
        plan
    }
}

/// Assembles the composite record of one crate from its detail response and
/// the separately fetched download stats, owners, reverse dependencies, and
/// resolved versions. Nothing partial is ever built: every part must already
/// be complete, and at least one resolved version must be present, whose
/// license the composite carries.
pub fn assemble_full_crate(
    resp: CrateResponse,
    downloads: CrateDownloads,
    owners: Vec<User>,
    reverse_dependencies: ReverseDependencies,
    versions: Vec<FullVersion>,
) -> (f: FullCrate)
    requires
        versions@.len() > 0,
    ensures
        f.id == resp.crate_data.id,
        f.name == resp.crate_data.name,
        f.description == resp.crate_data.description,
        f.license == versions@[0].license,
        f.documentation == resp.crate_data.documentation,
        f.homepage == resp.crate_data.homepage,
        f.repository == resp.crate_data.repository,
        f.total_downloads == resp.crate_data.downloads,
        f.max_version == resp.crate_data.max_version,
        f.max_stable_version == resp.crate_data.max_stable_version,
        f.created_at == resp.crate_data.created_at,
        f.updated_at == resp.crate_data.updated_at,
        f.categories == resp.categories,
        f.keywords == resp.keywords,
        f.downloads == downloads,
        f.owners == owners,
        f.reverse_dependencies == reverse_dependencies,
        f.versions == versions,
{
    let license = clone_opt_string(&versions[0].license);
    let data = resp.crate_data;
    FullCrate {
        id: data.id,
        name: data.name,
        description: data.description,
        license,
        documentation: data.documentation,
        homepage: data.homepage,
        repository: data.repository,
        total_downloads: data.downloads,
        max_version: data.max_version,
        max_stable_version: data.max_stable_version,
        created_at: data.created_at,
        updated_at: data.updated_at,
        categories: resp.categories,
        keywords: resp.keywords,
        downloads,
        owners,
        reverse_dependencies,
        versions,
    }
}

} // verus!
