//! Reverse-dependency normalization.
//!
//! The wire delivers reverse dependencies as two flat lists: dependency edges
//! and the versions they belong to. Normalization is an inner join of the two
//! lists on the version id: for every edge, in order, every version whose id
//! equals the edge's foreign key yields one pair. No uniqueness of version
//! ids is assumed; should the wire ever repeat an id, the join faithfully
//! emits one pair per repetition.

use vstd::prelude::*;
use crate::types::DependencyV;
use crate::types::Meta;
use crate::types::ReverseDependenciesAsReceived;
use crate::types::ReverseDependency;
use crate::types::ReverseDependencyV;
use crate::types::ReverseDependencies;
use crate::types::VersionV;

verus! {

/// The pairs produced for one dependency edge: one pair for every version in
/// `versions`, in order, whose id equals the edge's version foreign key.
pub open spec fn matches_of(d: DependencyV, versions: Seq<VersionV>) -> Seq<ReverseDependencyV>
    decreases versions.len(),
{
    if versions.len() == 0 {
        Seq::empty()
    } else {
        let init = matches_of(d, versions.drop_last());
        if versions.last().id == d.version_id {
            init.push(ReverseDependencyV { crate_version: versions.last(), dependency: d })
        } else {
            init
        }
    }
}

/// The inner join of dependency edges with version records: the concatenation
/// of every edge's matches, in edge order.
pub open spec fn join_of(deps: Seq<DependencyV>, versions: Seq<VersionV>) -> Seq<
    ReverseDependencyV,
>
    decreases deps.len(),
{
    if deps.len() == 0 {
        Seq::empty()
    } else {
        join_of(deps.drop_last(), versions) + matches_of(deps.last(), versions)
    }
}

proof fn lemma_matches_of_take(d: DependencyV, vs: Seq<VersionV>, j: int)
    requires
        0 <= j < vs.len(),
    ensures
        vs[j].id == d.version_id ==> matches_of(d, vs.take(j + 1)) == matches_of(d, vs.take(j)).push(
            ReverseDependencyV { crate_version: vs[j], dependency: d },
        ),
        vs[j].id != d.version_id ==> matches_of(d, vs.take(j + 1)) == matches_of(d, vs.take(j)),
{
    let t = vs.take(j + 1);
    assert(t.drop_last() =~= vs.take(j));
    assert(t.last() == vs[j]);
}

proof fn lemma_join_of_take(deps: Seq<DependencyV>, vs: Seq<VersionV>, j: int)
    requires
        0 <= j < deps.len(),
    ensures
        join_of(deps.take(j + 1), vs) == join_of(deps.take(j), vs) + matches_of(deps[j], vs),
{
    let t = deps.take(j + 1);
    assert(t.drop_last() =~= deps.take(j));
    assert(t.last() == deps[j]);
}

/// Normalizes one wire page: its dependency edges joined with its version
/// records, under the page's reported total.
pub fn page_from_wire(rdeps: ReverseDependenciesAsReceived) -> (r: ReverseDependencies)
    ensures
        r.dependencies.deep_view() == join_of(
            rdeps.dependencies.deep_view(),
            rdeps.versions.deep_view(),
        ),
        r.meta == rdeps.meta,
{
    let ghost joined = join_of(rdeps.dependencies.deep_view(), rdeps.versions.deep_view());
    let mut deps = ReverseDependencies {
        dependencies: Vec::new(),
        meta: Meta { total: rdeps.meta.total },
    };
    proof {
        assert(deps.dependencies.deep_view() =~= Seq::<ReverseDependencyV>::empty());
    }
    deps.extend(rdeps);
    proof {
        assert(Seq::<ReverseDependencyV>::empty() + joined =~= joined);
    }
    deps
}

impl ReverseDependencies {
    /// Fills the pair list from one wire page by joining its dependency edges
    /// with its version records. The already accumulated pairs keep their
    /// places; the reported total is left untouched.
    pub fn extend(&mut self, rdeps: ReverseDependenciesAsReceived)
        ensures
            final(self).dependencies.deep_view() == old(self).dependencies.deep_view() + join_of(
                rdeps.dependencies.deep_view(),
                rdeps.versions.deep_view(),
            ),
            final(self).meta == old(self).meta,
    {
        let ghost orig = self.dependencies.deep_view();
        let ghost dv = rdeps.dependencies.deep_view();
        let ghost vv = rdeps.versions.deep_view();
        let mut di: usize = 0;
        while di < rdeps.dependencies.len()
            invariant
                di <= dv.len(),
                dv == rdeps.dependencies.deep_view(),
                vv == rdeps.versions.deep_view(),
                orig == old(self).dependencies.deep_view(),
                self.meta == old(self).meta,
                self.dependencies.deep_view() == orig + join_of(dv.take(di as int), vv),
            decreases dv.len() - di,
        {
            let d = &rdeps.dependencies[di];
            let mut vi: usize = 0;
            proof {
                assert(vv.take(0) =~= Seq::<VersionV>::empty());
                assert(matches_of(d@, vv.take(0)) =~= Seq::<ReverseDependencyV>::empty());
                assert(self.dependencies.deep_view() =~= orig + join_of(dv.take(di as int), vv)
                    + matches_of(dv[di as int], vv.take(0)));
            }
            while vi < rdeps.versions.len()
                invariant
                    vi <= vv.len(),
                    di < dv.len(),
                    dv == rdeps.dependencies.deep_view(),
                    vv == rdeps.versions.deep_view(),
                    d == &rdeps.dependencies[di as int],
                    d@ == dv[di as int],
                    orig == old(self).dependencies.deep_view(),
                    self.meta == old(self).meta,
                    self.dependencies.deep_view() == orig + join_of(dv.take(di as int), vv)
                        + matches_of(dv[di as int], vv.take(vi as int)),
                decreases vv.len() - vi,
            {
                let v = &rdeps.versions[vi];
                if v.id == d.version_id {
                    let pair = ReverseDependency { crate_version: v.clone(), dependency: d.clone() };
                    let ghost gp = pair;
                    let ghost prev_seq = self.dependencies@;
                    let ghost prev_deep = self.dependencies.deep_view();
                    self.dependencies.push(pair);
                    proof {
                        assert(gp@ == ReverseDependencyV {
                            crate_version: vv[vi as int],
                            dependency: dv[di as int],
                        });
                        assert forall|j: int|
                            0 <= j < self.dependencies@.len() implies self.dependencies.deep_view()[j]
                            == prev_deep.push(gp@)[j] by {
                            assert(self.dependencies@ == prev_seq.push(gp));
                            if j < prev_seq.len() {
                                assert(prev_seq.push(gp)[j] == prev_seq[j]);
                                assert(self.dependencies.deep_view()[j] == prev_deep[j]);
                            } else {
                                assert(self.dependencies@[j] == gp);
                            }
                        }
                        assert(self.dependencies.deep_view() =~~= prev_deep.push(gp@));
                        lemma_matches_of_take(dv[di as int], vv, vi as int);
                        assert(self.dependencies.deep_view() =~~= orig + join_of(
                            dv.take(di as int),
                            vv,
                        ) + matches_of(dv[di as int], vv.take(vi + 1 as int)));
                    }
                } else {
                    proof {
                        lemma_matches_of_take(dv[di as int], vv, vi as int);
                    }
                }
                vi += 1;
            }
            proof {
                assert(vv.take(vv.len() as int) =~= vv);
                lemma_join_of_take(dv, vv, di as int);
                assert(orig + join_of(dv.take(di as int), vv) + matches_of(dv[di as int], vv)
                    =~~= orig + join_of(dv.take(di + 1 as int), vv));
            }
            di += 1;
        }
        proof {
            assert(dv.take(dv.len() as int) =~= dv);
        }
    }
}

} // verus!
