//! The flat, invariant-free form of a policy set: templates by value and
//! links as plain identifier triples. It is the serialization surface; a
//! validating reification step converts it back into a live `PolicySet`,
//! rejecting any link whose template is missing.

use vstd::prelude::*;

use crate::id_map::IdMap;
use crate::ids::PolicyID;
use crate::policy::{Policy, PolicyView, SlotEnv, SlotEnvView, Template, TemplateView};
use crate::policy_set::{PolicySet, PolicySetView};
use std::sync::Arc;

verus! {

/// Mathematical model of a flat link.
pub struct LiteralPolicyView {
    pub template_id: Seq<char>,
    pub env: SlotEnvView,
    pub id: Seq<char>,
}

/// A link in flat form: the identifier of the template it instantiates,
/// the slot environment, and the link's own identifier. Nothing guarantees
/// that the named template exists.
#[derive(Debug)]
pub struct LiteralPolicy {
    template_id: PolicyID,
    env: SlotEnv,
    id: PolicyID,
}

impl View for LiteralPolicy {
    type V = LiteralPolicyView;

    closed spec fn view(&self) -> LiteralPolicyView {
        LiteralPolicyView { template_id: self.template_id@, env: self.env@, id: self.id@ }
    }
}

impl LiteralPolicy {
    /// Assemble a flat link from its parts.
    pub fn new(template_id: PolicyID, env: SlotEnv, id: PolicyID) -> (r: LiteralPolicy)
        ensures
            r@ == (LiteralPolicyView { template_id: template_id@, env: env@, id: id@ }),
    {
        LiteralPolicy { template_id, env, id }
    }

    /// The identifier of the template this link names.
    pub fn template_id(&self) -> (r: &PolicyID)
        ensures
            r@ == self@.template_id,
    {
        &self.template_id
    }

    /// The link's own identifier.
    pub fn id(&self) -> (r: &PolicyID)
        ensures
            r@ == self@.id,
    {
        &self.id
    }

    /// The link's slot environment.
    pub fn env(&self) -> (r: &SlotEnv)
        ensures
            r@ == self@.env,
    {
        &self.env
    }
}

impl DeepView for LiteralPolicy {
    type V = LiteralPolicyView;

    open spec fn deep_view(&self) -> LiteralPolicyView {
        self.view()
    }
}

impl Clone for LiteralPolicy {
    fn clone(&self) -> (r: Self)
        ensures
            r@ == self@,
    {
        LiteralPolicy {
            template_id: self.template_id.clone(),
            env: self.env.clone(),
            id: self.id.clone(),
        }
    }
}

/// Mathematical model of a flat policy set.
#[verifier::ext_equal]
pub struct LiteralPolicySetView {
    pub templates: Map<Seq<char>, TemplateView>,
    pub links: Map<Seq<char>, LiteralPolicyView>,
}

/// The flat link a live link degrades to.
pub open spec fn literal_of_link(p: PolicyView) -> LiteralPolicyView {
    LiteralPolicyView { template_id: p.template.id, env: p.env, id: p.id }
}

/// The flat form of a policy set: templates unwrapped by value, links as
/// identifier triples. Total, and loses no information.
pub open spec fn literal_of(ps: PolicySetView) -> LiteralPolicySetView {
    LiteralPolicySetView {
        templates: ps.templates,
        links: ps.links.map_values(|p: PolicyView| literal_of_link(p)),
    }
}

/// True when some flat link names a template absent from the flat
/// template map.
pub open spec fn dangling(l: LiteralPolicySetView) -> bool {
    exists|k: Seq<char>| #[trigger]
        l.links.contains_key(k) && !l.templates.contains_key(l.links[k].template_id)
}

/// The live link a flat link reifies to, once its template is resolved.
pub open spec fn reify_link(l: LiteralPolicySetView, k: Seq<char>) -> PolicyView {
    PolicyView {
        id: l.links[k].id,
        template: l.templates[l.links[k].template_id],
        env: l.links[k].env,
    }
}

/// The live set a flat set without dangling links reifies to.
pub open spec fn reified(l: LiteralPolicySetView) -> PolicySetView {
    PolicySetView {
        templates: l.templates,
        links: Map::new(|k: Seq<char>| l.links.contains_key(k), |k: Seq<char>| reify_link(l, k)),
    }
}

/// Failure of reification.
#[derive(Debug)]
pub enum ReificationError {
    /// A flat link names this template identifier, which the flat template
    /// map does not contain.
    NoSuchTemplate { id: PolicyID },
}

/// A policy set in flat form. It enforces no cross-map invariant: a link
/// may name a template that is not present.
#[derive(Debug)]
pub struct LiteralPolicySet {
    templates: IdMap<Template>,
    links: IdMap<LiteralPolicy>,
}

impl View for LiteralPolicySet {
    type V = LiteralPolicySetView;

    closed spec fn view(&self) -> LiteralPolicySetView {
        LiteralPolicySetView { templates: self.templates@, links: self.links@ }
    }
}

impl LiteralPolicySet {
    /// The representation keeps each key at most once, and each entry is
    /// stored under its own identifier.
    pub closed spec fn wf(&self) -> bool {
        &&& self.templates.wf()
        &&& self.links.wf()
        &&& forall|k: Seq<char>| #[trigger]
            self@.templates.contains_key(k) ==> self@.templates[k].id == k
        &&& forall|k: Seq<char>| #[trigger] self@.links.contains_key(k) ==> self@.links[k].id == k
    }

    /// An empty flat set.
    pub fn new() -> (r: LiteralPolicySet)
        ensures
            r.wf(),
            r@ == (LiteralPolicySetView { templates: Map::empty(), links: Map::empty() }),
    {
        LiteralPolicySet { templates: IdMap::new(), links: IdMap::new() }
    }

    /// Store a template body under its identifier, replacing any previous
    /// entry there.
    pub fn insert_template(&mut self, t: Template)
        requires
            old(self).wf(),
        ensures
            final(self).wf(),
            final(self)@.templates == old(self)@.templates.insert(t@.id, t@),
            final(self)@.links == old(self)@.links,
    {
        let tid = t.id().clone();
        self.templates.set(tid, t);
    }

    /// Store a flat link under its own identifier, replacing any previous
    /// entry there.
    pub fn insert_link(&mut self, p: LiteralPolicy)
        requires
            old(self).wf(),
        ensures
            final(self).wf(),
            final(self)@.templates == old(self)@.templates,
            final(self)@.links == old(self)@.links.insert(p@.id, p@),
    {
        let pid = p.id().clone();
        self.links.set(pid, p);
    }

    /// Every stored template body, in unspecified order, each exactly once.
    pub fn templates(&self) -> (r: Vec<&Template>)
        requires
            self.wf(),
        ensures
            crate::policy_set::enumerates(r.deep_view(), self@.templates, |t: TemplateView| t.id),
    {
        let ents = self.templates.entries();
        let n = ents.len();
        let mut out: Vec<&Template> = Vec::new();
        let mut i: usize = 0;
        while i < n
            invariant
                n == ents@.len(),
                0 <= i <= n,
                out@.len() == i,
                forall|j: int| 0 <= j < i ==> (#[trigger] out@[j])@ == ents@[j].1@,
            decreases n - i,
        {
            out.push(ents[i].1);
            i = i + 1;
        }
        proof {
            let s = out.deep_view();
            assert forall|j: int| 0 <= j < s.len() implies self@.templates.contains_pair(
                (#[trigger] s[j]).id,
                s[j],
            ) by {
                assert(s[j] == ents@[j].1@);
                assert(self@.templates.contains_pair(ents@[j].0@, ents@[j].1@));
                assert(self@.templates.contains_key(ents@[j].0@));
                assert(s[j].id == ents@[j].0@);
            }
            assert forall|k: Seq<char>| #[trigger]
                self@.templates.contains_key(k) implies exists|j: int|
                0 <= j < s.len() && (#[trigger] s[j]).id == k by {
                let j = choose|j: int| 0 <= j < ents@.len() && ents@[j].0@ == k;
                assert(s[j] == ents@[j].1@);
                assert(s[j].id == k);
            }
        }
        out
    }

    /// Every stored flat link, in unspecified order, each exactly once.
    pub fn links(&self) -> (r: Vec<&LiteralPolicy>)
        requires
            self.wf(),
        ensures
            crate::policy_set::enumerates(
                r.deep_view(),
                self@.links,
                |p: LiteralPolicyView| p.id,
            ),
    {
        let ents = self.links.entries();
        let n = ents.len();
        let mut out: Vec<&LiteralPolicy> = Vec::new();
        let mut i: usize = 0;
        while i < n
            invariant
                n == ents@.len(),
                0 <= i <= n,
                out@.len() == i,
                forall|j: int| 0 <= j < i ==> (#[trigger] out@[j])@ == ents@[j].1@,
            decreases n - i,
        {
            out.push(ents[i].1);
            i = i + 1;
        }
        proof {
            let s = out.deep_view();
            assert forall|j: int| 0 <= j < s.len() implies self@.links.contains_pair(
                (#[trigger] s[j]).id,
                s[j],
            ) by {
                assert(s[j] == ents@[j].1@);
                assert(self@.links.contains_pair(ents@[j].0@, ents@[j].1@));
                assert(self@.links.contains_key(ents@[j].0@));
                assert(s[j].id == ents@[j].0@);
            }
            assert forall|k: Seq<char>| #[trigger]
                self@.links.contains_key(k) implies exists|j: int|
                0 <= j < s.len() && (#[trigger] s[j]).id == k by {
                let j = choose|j: int| 0 <= j < ents@.len() && ents@[j].0@ == k;
                assert(s[j] == ents@[j].1@);
                assert(s[j].id == k);
            }
        }
        out
    }

    /// Flatten a policy set: unwrap each shared template by value, degrade
    /// each link to its identifier triple. Total, and loses no
    /// information.
    pub fn from(pset: PolicySet) -> (r: LiteralPolicySet)
        requires
            pset.wf(),
        ensures
            r.wf(),
            r@ == literal_of(pset@),
    {
        let mut out = LiteralPolicySet::new();
        let ts = pset.all_templates();
        let n = ts.len();
        let mut i: usize = 0;
        while i < n
            invariant
                pset.wf(),
                out.wf(),
                n == ts@.len(),
                0 <= i <= n,
                crate::policy_set::enumerates(
                    ts.deep_view(),
                    pset@.templates,
                    |t: TemplateView| t.id,
                ),
                out@.links == Map::<Seq<char>, LiteralPolicyView>::empty(),
                forall|k: Seq<char>| #[trigger]
                    out@.templates.contains_key(k) ==> pset@.templates.contains_pair(
                        k,
                        out@.templates[k],
                    ),
                forall|j: int|
                    0 <= j < i ==> out@.templates.contains_key(
                        (#[trigger] ts.deep_view()[j]).id,
                    ),
            decreases n - i,
        {
            out.insert_template(ts[i].clone());
            proof {
                assert(ts.deep_view()[i as int] == ts@[i as int]@);
                assert(pset@.templates.contains_pair(
                    ts.deep_view()[i as int].id,
                    ts.deep_view()[i as int],
                ));
            }
            i = i + 1;
        }
        proof {
            assert forall|k: Seq<char>| #[trigger]
                pset@.templates.contains_key(k) implies out@.templates.contains_key(k) by {
                let j = choose|j: int|
                    0 <= j < ts.deep_view().len() && (#[trigger] ts.deep_view()[j]).id == k;
                assert(out@.templates.contains_key(ts.deep_view()[j].id));
            }
            assert(out@.templates =~= pset@.templates);
        }
        let ps = pset.policies();
        let m = ps.len();
        let mut i: usize = 0;
        while i < m
            invariant
                pset.wf(),
                out.wf(),
                m == ps@.len(),
                0 <= i <= m,
                crate::policy_set::enumerates(ps.deep_view(), pset@.links, |p: PolicyView| p.id),
                out@.templates == pset@.templates,
                forall|k: Seq<char>| #[trigger]
                    out@.links.contains_key(k) ==> pset@.links.contains_key(k)
                        && out@.links[k] == literal_of_link(pset@.links[k]),
                forall|j: int|
                    0 <= j < i ==> out@.links.contains_key((#[trigger] ps.deep_view()[j]).id),
            decreases m - i,
        {
            let p: &Policy = ps[i];
            let lp = LiteralPolicy {
                template_id: p.template().id().clone(),
                env: p.env().clone(),
                id: p.id().clone(),
            };
            proof {
                assert(ps.deep_view()[i as int] == ps@[i as int]@);
                let ghost pv = ps.deep_view()[i as int];
                assert(pset@.links.contains_pair(pv.id, pv));
                assert(lp@ == literal_of_link(p@));
            }
            out.insert_link(lp);
            i = i + 1;
        }
        proof {
            assert forall|k: Seq<char>| #[trigger]
                pset@.links.contains_key(k) implies out@.links.contains_key(k) by {
                let j = choose|j: int|
                    0 <= j < ps.deep_view().len() && (#[trigger] ps.deep_view()[j]).id == k;
                assert(out@.links.contains_key(ps.deep_view()[j].id));
            }
            assert(out@.links =~= pset@.links.map_values(|p: PolicyView| literal_of_link(p)));
            assert(out@ =~= literal_of(pset@));
        }
        out
    }
}

impl PolicySet {
    /// Reify a flat set into a live one: wrap each template in a shared
    /// handle, then resolve every flat link against the template map. A
    /// link naming an absent template fails the whole conversion with that
    /// identifier, and no partial set is exposed.
    pub fn try_from(pset: LiteralPolicySet) -> (r: Result<PolicySet, ReificationError>)
        requires
            pset.wf(),
        ensures
            match r {
                Ok(s) => {
                    &&& s.wf()
                    &&& !dangling(pset@)
                    &&& s@ == reified(pset@)
                },
                Err(e) => {
                    &&& dangling(pset@)
                    &&& e matches ReificationError::NoSuchTemplate { id }
                        && !pset@.templates.contains_key(id@) && exists|k: Seq<char>| #[trigger]
                        pset@.links.contains_key(k) && pset@.links[k].template_id == id@
                },
            },
    {
        let mut s = PolicySet::new();
        let ts = pset.templates.entries();
        let n = ts.len();
        let mut i: usize = 0;
        while i < n
            invariant
                pset.wf(),
                s.wf(),
                n == ts@.len(),
                0 <= i <= n,
                forall|j: int| 0 <= j < n ==> pset@.templates.contains_pair(
                    (#[trigger] ts@[j].0)@,
                    ts@[j].1@,
                ),
                forall|j1: int, j2: int| 0 <= j1 < j2 < n ==> ts@[j1].0@ != ts@[j2].0@,
                forall|k: Seq<char>| #[trigger]
                    pset@.templates.contains_key(k) ==> exists|j: int|
                        0 <= j < n && (#[trigger] ts@[j].0)@ == k,
                s@.links == Map::<Seq<char>, PolicyView>::empty(),
                forall|k: Seq<char>| #[trigger]
                    s@.templates.contains_key(k) ==> pset@.templates.contains_pair(
                        k,
                        s@.templates[k],
                    ),
                forall|k: Seq<char>| #[trigger]
                    s@.templates.contains_key(k) ==> exists|j: int|
                        0 <= j < i && (#[trigger] ts@[j].0)@ == k,
                forall|j: int| 0 <= j < i ==> s@.templates.contains_key((#[trigger] ts@[j].0)@),
            decreases n - i,
        {
            let t: Template = (*ts[i].1).clone();
            proof {
                assert(pset@.templates.contains_pair(ts@[i as int].0@, ts@[i as int].1@));
                assert(t@ == ts@[i as int].1@);
                assert(t@.id == ts@[i as int].0@);
                assert(!s@.templates.contains_key(t@.id)) by {
                    if s@.templates.contains_key(t@.id) {
                        let j = choose|j: int| 0 <= j < i && (#[trigger] ts@[j].0)@ == t@.id;
                        assert(ts@[j].0@ == ts@[i as int].0@);
                    }
                }
            }
            let ghost s_pre = s@;
            let res = s.add_template(t);
            match res {
                Ok(()) => {},
                Err(_) => {
                    proof {
                        assert(false);
                    }
                },
            }
            proof {
                assert forall|k: Seq<char>| #[trigger]
                    s@.templates.contains_key(k) implies exists|j: int|
                    0 <= j < i + 1 && (#[trigger] ts@[j].0)@ == k by {
                    if k == ts@[i as int].0@ {
                        assert((i as int) < i + 1 && ts@[i as int].0@ == k);
                    } else {
                        assert(s_pre.templates.contains_key(k));
                    }
                }
            }
            i = i + 1;
        }
        proof {
            assert forall|k: Seq<char>| #[trigger]
                pset@.templates.contains_key(k) implies s@.templates.contains_key(k) by {
                let j = choose|j: int| 0 <= j < n && (#[trigger] ts@[j].0)@ == k;
                assert(s@.templates.contains_key(ts@[j].0@));
            }
            assert(s@.templates =~= pset@.templates);
        }
        let ls = pset.links.entries();
        let m = ls.len();
        let mut i: usize = 0;
        while i < m
            invariant
                pset.wf(),
                s.wf(),
                m == ls@.len(),
                0 <= i <= m,
                forall|j: int| 0 <= j < m ==> pset@.links.contains_pair(
                    (#[trigger] ls@[j].0)@,
                    ls@[j].1@,
                ),
                forall|j1: int, j2: int| 0 <= j1 < j2 < m ==> ls@[j1].0@ != ls@[j2].0@,
                forall|k: Seq<char>| #[trigger]
                    pset@.links.contains_key(k) ==> exists|j: int|
                        0 <= j < m && (#[trigger] ls@[j].0)@ == k,
                s@.templates == pset@.templates,
                forall|k: Seq<char>| #[trigger]
                    s@.links.contains_key(k) ==> pset@.links.contains_key(k) && s@.links[k]
                        == reify_link(pset@, k),
                forall|k: Seq<char>| #[trigger]
                    s@.links.contains_key(k) ==> exists|j: int|
                        0 <= j < i && (#[trigger] ls@[j].0)@ == k,
                forall|j: int| 0 <= j < i ==> s@.links.contains_key((#[trigger] ls@[j].0)@),
                forall|j: int| 0 <= j < i ==> pset@.templates.contains_key(
                    (#[trigger] ls@[j].1)@.template_id,
                ),
            decreases m - i,
        {
            let lp: &LiteralPolicy = ls[i].1;
            let ghost k = ls@[i as int].0@;
            proof {
                assert(pset@.links.contains_pair(k, lp@));
                assert(lp@.id == k);
            }
            let arc: Arc<Template> = match s.get_template(&lp.template_id) {
                Some(a) => a,
                None => {
                    proof {
                        assert(!pset@.templates.contains_key(lp@.template_id));
                        assert(dangling(pset@));
                    }
                    return Err(ReificationError::NoSuchTemplate { id: lp.template_id.clone() });
                },
            };
            let p = Policy::assemble(lp.id.clone(), arc, lp.env.clone());
            proof {
                assert(p@.template == s@.templates[lp@.template_id]);
                assert(s@.templates.contains_key(lp@.template_id));
                assert(p@.template.id == lp@.template_id);
                assert(s@.templates.contains_pair(p@.template.id, p@.template));
                assert(p@ == reify_link(pset@, k));
                assert(!s@.links.contains_key(p@.id)) by {
                    if s@.links.contains_key(k) {
                        let j = choose|j: int| 0 <= j < i && (#[trigger] ls@[j].0)@ == k;
                        assert(ls@[j].0@ == ls@[i as int].0@);
                    }
                }
            }
            let ghost s_pre = s@;
            let res = s.add(p);
            match res {
                Ok(()) => {},
                Err(_) => {
                    proof {
                        assert(false);
                    }
                },
            }
            proof {
                assert(s@.templates =~= s_pre.templates);
                assert forall|k2: Seq<char>| #[trigger]
                    s@.links.contains_key(k2) implies exists|j: int|
                    0 <= j < i + 1 && (#[trigger] ls@[j].0)@ == k2 by {
                    if k2 == k {
                        assert((i as int) < i + 1 && ls@[i as int].0@ == k2);
                    } else {
                        assert(s_pre.links.contains_key(k2));
                    }
                }
            }
            i = i + 1;
        }
        proof {
            assert forall|k: Seq<char>| #[trigger]
                pset@.links.contains_key(k) implies s@.links.contains_key(k)
                && pset@.templates.contains_key(pset@.links[k].template_id) by {
                let j = choose|j: int| 0 <= j < m && (#[trigger] ls@[j].0)@ == k;
                assert(s@.links.contains_key(ls@[j].0@));
                assert(pset@.links.contains_pair(ls@[j].0@, ls@[j].1@));
                assert(pset@.templates.contains_key(ls@[j].1@.template_id));
            }
            assert(!dangling(pset@));
            assert(s@.links =~= reified(pset@).links);
            assert(s@ =~= reified(pset@));
        }
        Ok(s)
    }
}

} // verus!
