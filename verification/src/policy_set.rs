//! The policy set: the template map and link map, the invariant tying them
//! together, and the transactional operations over them. Every mutating
//! operation either fully succeeds or leaves the set exactly as it was.

use vstd::prelude::*;

use crate::id_map::IdMap;
use crate::ids::PolicyID;
use crate::policy::{
    env_is_empty, env_len, env_matches, policy_text, template_slot_count, template_text,
    LinkingError, LinkingErrorView, Policy, PolicyView, SlotEnv, SlotEnvView, StaticPolicy,
    Template, TemplateView,
};
use crate::policy::empty_env;
use vstd::string::StringExecFns;
use std::sync::Arc;

verus! {

/// Mathematical model of a policy set: its template map and its link map,
/// each keyed by the identifier's text.
#[verifier::ext_equal]
pub struct PolicySetView {
    pub templates: Map<Seq<char>, TemplateView>,
    pub links: Map<Seq<char>, PolicyView>,
}

impl PolicySetView {
    /// The model of the empty set.
    pub open spec fn empty() -> PolicySetView {
        PolicySetView { templates: Map::empty(), links: Map::empty() }
    }

    /// The cross-map invariant: every entry is stored under its own
    /// identifier, and every link's template is present in the template map
    /// with identical content.
    pub open spec fn inv(self) -> bool {
        &&& forall|k: Seq<char>| #[trigger]
            self.templates.contains_key(k) ==> self.templates[k].id == k
        &&& forall|k: Seq<char>| #[trigger]
            self.links.contains_key(k) ==> self.links[k].id == k
                && self.templates.contains_key(self.links[k].template.id)
                && self.templates[self.links[k].template.id] == self.links[k].template
    }
}

/// What `add` does to the model: fails with the occupied identifier when
/// the template map holds different content under the policy's template
/// identifier, or when the link map holds anything under the policy's own
/// identifier; otherwise stores both the template and the link.
pub open spec fn add_result(ps: PolicySetView, p: PolicyView) -> Result<PolicySetView, Seq<char>> {
    if ps.templates.contains_key(p.template.id) && ps.templates[p.template.id] != p.template {
        Err(p.template.id)
    } else if ps.links.contains_key(p.id) {
        Err(p.id)
    } else {
        Ok(
            PolicySetView {
                templates: ps.templates.insert(p.template.id, p.template),
                links: ps.links.insert(p.id, p),
            },
        )
    }
}

/// What `add_static` does to the model: fails with the occupied identifier
/// unless both maps are vacant at the static policy's identifier; on
/// success stores the zero-slot template and its companion link together.
pub open spec fn add_static_result(ps: PolicySetView, t: TemplateView) -> Result<
    PolicySetView,
    Seq<char>,
> {
    if ps.templates.contains_key(t.id) || ps.links.contains_key(t.id) {
        Err(t.id)
    } else {
        Ok(
            PolicySetView {
                templates: ps.templates.insert(t.id, t),
                links: ps.links.insert(
                    t.id,
                    PolicyView { id: t.id, template: t, env: empty_env() },
                ),
            },
        )
    }
}

/// What `add_template` does to the model: fails with the occupied
/// identifier when the template map is occupied there; otherwise stores the
/// template and creates no link.
pub open spec fn add_template_result(ps: PolicySetView, t: TemplateView) -> Result<
    PolicySetView,
    Seq<char>,
> {
    if ps.templates.contains_key(t.id) {
        Err(t.id)
    } else {
        Ok(PolicySetView { templates: ps.templates.insert(t.id, t), links: ps.links })
    }
}

/// What `link` does to the model: fails when the template is absent, when
/// the environment does not bind exactly the template's slots, or when the
/// new identifier is in use in either map; otherwise stores the produced
/// link, and only the link.
pub open spec fn link_result(
    ps: PolicySetView,
    tid: Seq<char>,
    lid: Seq<char>,
    env: SlotEnvView,
) -> Result<(PolicySetView, PolicyView), LinkingErrorView> {
    if !ps.templates.contains_key(tid) {
        Err(LinkingErrorView::NoSuchTemplate { id: tid })
    } else {
        let t = ps.templates[tid];
        if !env_matches(t, env) {
            Err(
                LinkingErrorView::ArityError {
                    slots: template_slot_count(t),
                    vals: env_len(env),
                },
            )
        } else if ps.links.contains_key(lid) || ps.templates.contains_key(lid) {
            Err(LinkingErrorView::PolicyIdConflict { id: lid })
        } else {
            let p = PolicyView { id: lid, template: t, env };
            Ok((PolicySetView { templates: ps.templates, links: ps.links.insert(lid, p) }, p))
        }
    }
}

/// What `try_from_iter` does to the model: fold `add` over the sequence
/// starting from the empty set; the first failure is the whole result.
pub open spec fn try_from_iter_result(s: Seq<PolicyView>) -> Result<PolicySetView, Seq<char>>
    decreases s.len(),
{
    if s.len() == 0 {
        Ok(PolicySetView::empty())
    } else {
        match try_from_iter_result(s.drop_last()) {
            Ok(ps) => add_result(ps, s.last()),
            Err(e) => Err(e),
        }
    }
}

/// True when the sequence lists each entry of the map exactly once, in some
/// order, under the given key function.
pub open spec fn enumerates<T>(s: Seq<T>, m: Map<Seq<char>, T>, key: spec_fn(T) -> Seq<char>) -> bool {
    &&& forall|i: int| 0 <= i < s.len() ==> m.contains_pair(key(#[trigger] s[i]), s[i])
    &&& forall|i: int, j: int| 0 <= i < j < s.len() ==> key(#[trigger] s[i]) != key(#[trigger] s[j])
    &&& forall|k: Seq<char>| #[trigger]
        m.contains_key(k) ==> exists|i: int| 0 <= i < s.len() && key(#[trigger] s[i]) == k
}

/// The template map restricted to the templates that reference a slot.
pub open spec fn slotted_templates(m: Map<Seq<char>, TemplateView>) -> Map<Seq<char>, TemplateView> {
    m.filter_keys(|k: Seq<char>| template_slot_count(m[k]) != 0)
}

/// The link map restricted to the links binding no slot.
pub open spec fn static_links(m: Map<Seq<char>, PolicyView>) -> Map<Seq<char>, PolicyView> {
    m.filter_keys(|k: Seq<char>| env_is_empty(m[k].env))
}

/// Failure of an insertion into a policy set.
#[derive(Debug)]
pub enum PolicySetError {
    /// The identifier is already in use in the set of templates or the set
    /// of policies.
    Occupied { id: PolicyID },
}

/// A set of policies: the templates and the concrete links produced from
/// them, with every link's template present with identical content.
#[derive(Debug)]
pub struct PolicySet {
    templates: IdMap<Arc<Template>>,
    links: IdMap<Policy>,
}

impl View for PolicySet {
    type V = PolicySetView;

    closed spec fn view(&self) -> PolicySetView {
        PolicySetView { templates: self.templates@, links: self.links@ }
    }
}

impl PolicySet {
    /// The representation keeps each key at most once.
    pub closed spec fn rep_wf(&self) -> bool {
        self.templates.wf() && self.links.wf()
    }

    /// Well-formedness: the representation invariant and the cross-map
    /// invariant of the model. Every operation preserves it.
    pub open spec fn wf(&self) -> bool {
        self.rep_wf() && self@.inv()
    }

    /// Create a fresh empty set.
    pub fn new() -> (r: PolicySet)
        ensures
            r.wf(),
            r@ == PolicySetView::empty(),
    {
        PolicySet { templates: IdMap::new(), links: IdMap::new() }
    }

    /// Add a concrete policy, implicitly adding its template when the
    /// template is not yet present. Re-adding a template with identical
    /// content is not an error; re-using a link identifier always is. On
    /// error the set is left exactly as it was.
    pub fn add(&mut self, policy: Policy) -> (r: Result<(), PolicySetError>)
        requires
            old(self).wf(),
        ensures
            final(self).wf(),
            match r {
                Ok(()) => add_result(old(self)@, policy@) == Ok::<PolicySetView, Seq<char>>(
                    final(self)@,
                ),
                Err(e) => {
                    &&& *final(self) == *old(self)
                    &&& e matches PolicySetError::Occupied { id } && add_result(
                        old(self)@,
                        policy@,
                    ) == Err::<PolicySetView, Seq<char>>(id@)
                },
            },
    {
        let t = policy.template_arc();
        let template_absent: bool = match self.templates.get(policy.template().id()) {
            Some(stored) => {
                if !(**stored == **t) {
                    return Err(PolicySetError::Occupied { id: policy.template().id().clone() });
                }
                false
            },
            None => true,
        };
        if self.links.contains(policy.id()) {
            return Err(PolicySetError::Occupied { id: policy.id().clone() });
        }
        let ghost ps0 = self@;
        if template_absent {
            let tid = policy.template().id().clone();
            self.templates.insert(tid, Arc::clone(policy.template_arc()));
        }
        let pid = policy.id().clone();
        self.links.insert(pid, policy);
        proof {
            if !template_absent {
                assert(self@.templates =~= ps0.templates.insert(
                    policy@.template.id,
                    policy@.template,
                ));
            }
            assert(add_result(ps0, policy@) == Ok::<PolicySetView, Seq<char>>(self@));
            assert(self@.inv());
        }
        Ok(())
    }

    /// Add a static policy: its zero-slot template and its companion link
    /// are stored together under the policy's identifier, which must be
    /// vacant in both maps. On error the set is left exactly as it was.
    pub fn add_static(&mut self, policy: StaticPolicy) -> (r: Result<(), PolicySetError>)
        requires
            old(self).wf(),
        ensures
            final(self).wf(),
            match r {
                Ok(()) => add_static_result(old(self)@, policy@) == Ok::<PolicySetView, Seq<char>>(
                    final(self)@,
                ),
                Err(e) => {
                    &&& *final(self) == *old(self)
                    &&& e matches PolicySetError::Occupied { id } && add_static_result(
                        old(self)@,
                        policy@,
                    ) == Err::<PolicySetView, Seq<char>>(id@)
                },
            },
    {
        let (t, p) = Template::link_static_policy(policy);
        if self.templates.contains((*t).id()) {
            return Err(PolicySetError::Occupied { id: (*t).id().clone() });
        }
        if self.links.contains((*t).id()) {
            return Err(PolicySetError::Occupied { id: (*t).id().clone() });
        }
        let tid = (*t).id().clone();
        let pid = p.id().clone();
        self.templates.insert(tid, t);
        self.links.insert(pid, p);
        proof {
            assert(self@.inv());
        }
        Ok(())
    }

    /// Add a bare template, which must not collide with any stored template
    /// identifier. No link is created. On error the set is left exactly as
    /// it was.
    pub fn add_template(&mut self, t: Template) -> (r: Result<(), PolicySetError>)
        requires
            old(self).wf(),
        ensures
            final(self).wf(),
            match r {
                Ok(()) => add_template_result(old(self)@, t@) == Ok::<PolicySetView, Seq<char>>(
                    final(self)@,
                ),
                Err(e) => {
                    &&& *final(self) == *old(self)
                    &&& e matches PolicySetError::Occupied { id } && add_template_result(
                        old(self)@,
                        t@,
                    ) == Err::<PolicySetView, Seq<char>>(id@)
                },
            },
    {
        if self.templates.contains(t.id()) {
            return Err(PolicySetError::Occupied { id: t.id().clone() });
        }
        let tid = t.id().clone();
        self.templates.insert(tid, Arc::new(t));
        proof {
            assert(self@.inv());
        }
        Ok(())
    }

    /// Create a new link of a stored template and add it to the set,
    /// returning a reference to the stored link. Fails when the template is
    /// absent, when the environment does not bind exactly the template's
    /// slots, or when the new identifier is in use in either map. On error
    /// the set is left exactly as it was.
    pub fn link(&mut self, template_id: PolicyID, new_id: PolicyID, values: SlotEnv) -> (r: Result<
        &Policy,
        LinkingError,
    >)
        requires
            old(self).wf(),
        ensures
            final(self).wf(),
            match r {
                Ok(p) => link_result(old(self)@, template_id@, new_id@, values@) == Ok::<
                    (PolicySetView, PolicyView),
                    LinkingErrorView,
                >((final(self)@, p@)),
                Err(e) => {
                    &&& *final(self) == *old(self)
                    &&& link_result(old(self)@, template_id@, new_id@, values@) == Err::<
                        (PolicySetView, PolicyView),
                        LinkingErrorView,
                    >(e@)
                },
            },
    {
        let arc: Arc<Template> = match self.templates.get(&template_id) {
            None => {
                return Err(LinkingError::NoSuchTemplate { id: template_id });
            },
            Some(a) => Arc::clone(a),
        };
        let p = match Template::link(arc, new_id.clone(), values) {
            Ok(p) => p,
            Err(e) => {
                return Err(e);
            },
        };
        if self.links.contains(&new_id) {
            return Err(LinkingError::PolicyIdConflict { id: new_id });
        }
        if self.templates.contains(&new_id) {
            return Err(LinkingError::PolicyIdConflict { id: new_id });
        }
        let key = new_id.clone();
        self.links.insert(new_id, p);
        proof {
            assert(self@.inv());
        }
        match self.links.get(&key) {
            Some(stored) => Ok(stored),
            None => {
                proof {
                    assert(false);
                }
                Err(LinkingError::PolicyIdConflict { id: key })
            },
        }
    }

    /// All stored links, static and template-linked alike, in unspecified
    /// order, each exactly once.
    pub fn policies(&self) -> (r: Vec<&Policy>)
        requires
            self.wf(),
        ensures
            r@.len() == self@.links.dom().len(),
            enumerates(r.deep_view(), self@.links, |p: PolicyView| p.id),
    {
        let ents = self.links.entries();
        let n = ents.len();
        let mut out: Vec<&Policy> = Vec::new();
        let mut i: usize = 0;
        while i < n
            invariant
                n == ents@.len(),
                0 <= i <= n,
                out@.len() == i,
                forall|j: int| 0 <= j < i ==> out@[j] == ents@[j].1,
            decreases n - i,
        {
            out.push(ents[i].1);
            i = i + 1;
        }
        proof {
            let s = out.deep_view();
            assert forall|j: int| 0 <= j < s.len() implies self@.links.contains_pair(
                (#[trigger] s[j]).id,
                s[j],
            ) by {
                assert(s[j] == ents@[j].1@);
                assert(self@.links.contains_pair(ents@[j].0@, ents@[j].1@));
                assert(self@.links.contains_key(ents@[j].0@));
                assert(s[j].id == ents@[j].0@);
            }
            assert forall|k: Seq<char>| #[trigger]
                self@.links.contains_key(k) implies exists|j: int|
                0 <= j < s.len() && (#[trigger] s[j]).id == k by {
                let j = choose|j: int| 0 <= j < ents@.len() && ents@[j].0@ == k;
                assert(s[j] == ents@[j].1@);
                assert(s[j].id == k);
            }
        }
        out
    }

    /// Every stored template body, including the zero-slot bodies backing
    /// static policies, in unspecified order, each exactly once.
    pub fn all_templates(&self) -> (r: Vec<&Template>)
        requires
            self.wf(),
        ensures
            r@.len() == self@.templates.dom().len(),
            enumerates(r.deep_view(), self@.templates, |t: TemplateView| t.id),
    {
        let ents = self.templates.entries();
        let n = ents.len();
        let mut out: Vec<&Template> = Vec::new();
        let mut i: usize = 0;
        while i < n
            invariant
                n == ents@.len(),
                0 <= i <= n,
                out@.len() == i,
                forall|j: int| 0 <= j < i ==> (#[trigger] out@[j])@ == ents@[j].1@,
            decreases n - i,
        {
            let a: &Arc<Template> = ents[i].1;
            out.push(&**a);
            i = i + 1;
        }
        proof {
            let s = out.deep_view();
            assert forall|j: int| 0 <= j < s.len() implies self@.templates.contains_pair(
                (#[trigger] s[j]).id,
                s[j],
            ) by {
                assert(s[j] == ents@[j].1@);
                assert(self@.templates.contains_pair(ents@[j].0@, ents@[j].1@));
                assert(self@.templates.contains_key(ents@[j].0@));
                assert(s[j].id == ents@[j].0@);
            }
            assert forall|k: Seq<char>| #[trigger]
                self@.templates.contains_key(k) implies exists|j: int|
                0 <= j < s.len() && (#[trigger] s[j]).id == k by {
                let j = choose|j: int| 0 <= j < ents@.len() && ents@[j].0@ == k;
                assert(s[j] == ents@[j].1@);
                assert(s[j].id == k);
            }
        }
        out
    }

    /// The stored templates that reference a slot, in unspecified order,
    /// each exactly once.
    pub fn templates(&self) -> (r: Vec<&Template>)
        requires
            self.wf(),
        ensures
            enumerates(r.deep_view(), slotted_templates(self@.templates), |t: TemplateView| t.id),
    {
        let all = self.all_templates();
        let n = all.len();
        let mut out: Vec<&Template> = Vec::new();
        let mut i: usize = 0;
        while i < n
            invariant
                self.wf(),
                n == all@.len(),
                0 <= i <= n,
                enumerates(all.deep_view(), self@.templates, |t: TemplateView| t.id),
                forall|j: int|
                    0 <= j < out@.len() ==> exists|l: int|
                        0 <= l < i && (#[trigger] out@[j])@ == all.deep_view()[l],
                forall|j: int|
                    0 <= j < out@.len() ==> template_slot_count((#[trigger] out@[j])@) != 0,
                forall|j1: int, j2: int|
                    0 <= j1 < j2 < out@.len() ==> (#[trigger] out@[j1])@.id != (
                    #[trigger] out@[j2])@.id,
                forall|l: int|
                    0 <= l < i && template_slot_count(#[trigger] all.deep_view()[l]) != 0
                        ==> exists|j: int|
                        0 <= j < out@.len() && (#[trigger] out@[j])@ == all.deep_view()[l],
            decreases n - i,
        {
            let ghost a = all.deep_view();
            let ghost out0 = out@;
            if all[i].slot_count() != 0 {
                out.push(all[i]);
                proof {
                    assert(a[i as int] == all@[i as int]@);
                    assert(out@ == out0.push(all@[i as int]));
                    assert forall|j1: int, j2: int| 0 <= j1 < j2 < out@.len() implies (
                    #[trigger] out@[j1])@.id != (#[trigger] out@[j2])@.id by {
                        if j2 == out@.len() - 1 {
                            let l = choose|l: int| 0 <= l < i && (out0[j1])@ == a[l];
                            assert(a[l].id != a[i as int].id);
                        }
                    }
                    assert forall|j: int| 0 <= j < out@.len() implies exists|l: int|
                        0 <= l < i + 1 && (#[trigger] out@[j])@ == a[l] by {
                        if j == out@.len() - 1 {
                            assert((i as int) < i + 1 && out@[j]@ == a[i as int]);
                        } else {
                            let l = choose|l: int| 0 <= l < i && (out0[j])@ == a[l];
                            assert(0 <= l < i + 1 && out@[j]@ == a[l]);
                        }
                    }
                    assert forall|l: int|
                        0 <= l < i + 1 && template_slot_count(#[trigger] a[l]) != 0 implies exists|
                        j: int,
                    | 0 <= j < out@.len() && (#[trigger] out@[j])@ == a[l] by {
                        if l == i as int {
                            assert(out@[out@.len() - 1]@ == a[l]);
                        } else {
                            let j = choose|j: int| 0 <= j < out0.len() && (out0[j])@ == a[l];
                            assert(out@[j]@ == a[l]);
                        }
                    }
                }
            } else {
                proof {
                    assert(a[i as int] == all@[i as int]@);
                    assert(template_slot_count(a[i as int]) == 0);
                    assert forall|l: int|
                        0 <= l < i + 1 && template_slot_count(#[trigger] a[l]) != 0 implies exists|
                        j: int,
                    | 0 <= j < out@.len() && (#[trigger] out@[j])@ == a[l] by {
                        assert(l < i);
                        let j = choose|j: int| 0 <= j < out@.len() && (out@[j])@ == a[l];
                        assert(out@[j]@ == a[l]);
                    }
                }
            }
            i = i + 1;
        }
        proof {
            let s = out.deep_view();
            let m = slotted_templates(self@.templates);
            let a = all.deep_view();
            assert forall|j: int| 0 <= j < s.len() implies m.contains_pair(
                (#[trigger] s[j]).id,
                s[j],
            ) by {
                assert(s[j] == out@[j]@);
                let l = choose|l: int| 0 <= l < n && (out@[j])@ == a[l];
                assert(self@.templates.contains_pair(a[l].id, a[l]));
                assert(template_slot_count(out@[j]@) != 0);
            }
            assert forall|j1: int, j2: int| 0 <= j1 < j2 < s.len() implies (#[trigger] s[j1]).id
                != (#[trigger] s[j2]).id by {
                assert(s[j1] == out@[j1]@ && s[j2] == out@[j2]@);
            }
            assert forall|k: Seq<char>| #[trigger] m.contains_key(k) implies exists|j: int|
                0 <= j < s.len() && (#[trigger] s[j]).id == k by {
                assert(self@.templates.contains_key(k));
                let l = choose|l: int| 0 <= l < a.len() && (#[trigger] a[l]).id == k;
                assert(self@.templates.contains_pair(a[l].id, a[l]));
                assert(a[l] == self@.templates[k]);
                assert(template_slot_count(a[l]) != 0);
                let j = choose|j: int| 0 <= j < out@.len() && (out@[j])@ == a[l];
                assert(s[j].id == k);
            }
        }
        out
    }

    /// The stored links that bind no slot, in unspecified order, each
    /// exactly once.
    pub fn static_policies(&self) -> (r: Vec<&Policy>)
        requires
            self.wf(),
        ensures
            enumerates(r.deep_view(), static_links(self@.links), |p: PolicyView| p.id),
    {
        let all = self.policies();
        let n = all.len();
        let mut out: Vec<&Policy> = Vec::new();
        let mut i: usize = 0;
        while i < n
            invariant
                self.wf(),
                n == all@.len(),
                0 <= i <= n,
                enumerates(all.deep_view(), self@.links, |p: PolicyView| p.id),
                forall|j: int|
                    0 <= j < out@.len() ==> exists|l: int|
                        0 <= l < i && (#[trigger] out@[j])@ == all.deep_view()[l],
                forall|j: int|
                    0 <= j < out@.len() ==> env_is_empty((#[trigger] out@[j])@.env),
                forall|j1: int, j2: int|
                    0 <= j1 < j2 < out@.len() ==> (#[trigger] out@[j1])@.id != (
                    #[trigger] out@[j2])@.id,
                forall|l: int|
                    0 <= l < i && env_is_empty((#[trigger] all.deep_view()[l]).env) ==> exists|
                        j: int,
                    | 0 <= j < out@.len() && (#[trigger] out@[j])@ == all.deep_view()[l],
            decreases n - i,
        {
            let ghost a = all.deep_view();
            let ghost out0 = out@;
            if all[i].is_static() {
                out.push(all[i]);
                proof {
                    assert(a[i as int] == all@[i as int]@);
                    assert(out@ == out0.push(all@[i as int]));
                    assert forall|j1: int, j2: int| 0 <= j1 < j2 < out@.len() implies (
                    #[trigger] out@[j1])@.id != (#[trigger] out@[j2])@.id by {
                        if j2 == out@.len() - 1 {
                            let l = choose|l: int| 0 <= l < i && (out0[j1])@ == a[l];
                            assert(a[l].id != a[i as int].id);
                        }
                    }
                    assert forall|j: int| 0 <= j < out@.len() implies exists|l: int|
                        0 <= l < i + 1 && (#[trigger] out@[j])@ == a[l] by {
                        if j == out@.len() - 1 {
                            assert((i as int) < i + 1 && out@[j]@ == a[i as int]);
                        } else {
                            let l = choose|l: int| 0 <= l < i && (out0[j])@ == a[l];
                            assert(0 <= l < i + 1 && out@[j]@ == a[l]);
                        }
                    }
                    assert forall|l: int|
                        0 <= l < i + 1 && env_is_empty((#[trigger] a[l]).env) implies exists|
                        j: int,
                    | 0 <= j < out@.len() && (#[trigger] out@[j])@ == a[l] by {
                        if l == i as int {
                            assert(out@[out@.len() - 1]@ == a[l]);
                        } else {
                            let j = choose|j: int| 0 <= j < out0.len() && (out0[j])@ == a[l];
                            assert(out@[j]@ == a[l]);
                        }
                    }
                }
            } else {
                proof {
                    assert(a[i as int] == all@[i as int]@);
                    assert(!env_is_empty(a[i as int].env));
                    assert forall|l: int|
                        0 <= l < i + 1 && env_is_empty((#[trigger] a[l]).env) implies exists|
                        j: int,
                    | 0 <= j < out@.len() && (#[trigger] out@[j])@ == a[l] by {
                        assert(l < i);
                        let j = choose|j: int| 0 <= j < out@.len() && (out@[j])@ == a[l];
                        assert(out@[j]@ == a[l]);
                    }
                }
            }
            i = i + 1;
        }
        proof {
            let s = out.deep_view();
            let m = static_links(self@.links);
            let a = all.deep_view();
            assert forall|j: int| 0 <= j < s.len() implies m.contains_pair(
                (#[trigger] s[j]).id,
                s[j],
            ) by {
                assert(s[j] == out@[j]@);
                let l = choose|l: int| 0 <= l < n && (out@[j])@ == a[l];
                assert(self@.links.contains_pair(a[l].id, a[l]));
                assert(env_is_empty(out@[j]@.env));
            }
            assert forall|j1: int, j2: int| 0 <= j1 < j2 < s.len() implies (#[trigger] s[j1]).id
                != (#[trigger] s[j2]).id by {
                assert(s[j1] == out@[j1]@ && s[j2] == out@[j2]@);
            }
            assert forall|k: Seq<char>| #[trigger] m.contains_key(k) implies exists|j: int|
                0 <= j < s.len() && (#[trigger] s[j]).id == k by {
                assert(self@.links.contains_key(k));
                let l = choose|l: int| 0 <= l < a.len() && (#[trigger] a[l]).id == k;
                assert(self@.links.contains_pair(a[l].id, a[l]));
                assert(a[l] == self@.links[k]);
                assert(env_is_empty(a[l].env));
                let j = choose|j: int| 0 <= j < out@.len() && (out@[j])@ == a[l];
                assert(s[j].id == k);
            }
        }
        out
    }

    /// True exactly when the set holds neither templates nor links.
    pub fn is_empty(&self) -> (r: bool)
        requires
            self.wf(),
        ensures
            r == (self@ == PolicySetView::empty()),
    {
        let r = self.templates.is_empty() && self.links.is_empty();
        proof {
            if r {
                assert(self@ =~= PolicySetView::empty());
            }
        }
        r
    }

    /// Look up a stored template body by identifier, as a shared handle.
    pub fn get_template(&self, id: &PolicyID) -> (r: Option<Arc<Template>>)
        requires
            self.wf(),
        ensures
            match r {
                Some(t) => self@.templates.contains_key(id@) && t@ == self@.templates[id@],
                None => !self@.templates.contains_key(id@),
            },
    {
        match self.templates.get(id) {
            Some(t) => Some(Arc::clone(t)),
            None => None,
        }
    }

    /// Look up a stored link by identifier. An identifier under which only
    /// a template is stored yields nothing.
    pub fn get(&self, id: &PolicyID) -> (r: Option<&Policy>)
        requires
            self.wf(),
        ensures
            match r {
                Some(p) => self@.links.contains_key(id@) && p@ == self@.links[id@],
                None => !self@.links.contains_key(id@),
            },
    {
        self.links.get(id)
    }

    /// Collect policies into a fresh set by `add`, in order; the first
    /// failure aborts the whole construction and is returned, and no
    /// partially built set is exposed.
    pub fn try_from_iter(policies: Vec<Policy>) -> (r: Result<PolicySet, PolicySetError>)
        ensures
            match r {
                Ok(set) => set.wf() && try_from_iter_result(policies.deep_view()) == Ok::<
                    PolicySetView,
                    Seq<char>,
                >(set@),
                Err(e) => e matches PolicySetError::Occupied { id } && try_from_iter_result(
                    policies.deep_view(),
                ) == Err::<PolicySetView, Seq<char>>(id@),
            },
    {
        let mut set = PolicySet::new();
        let n = policies.len();
        let mut i: usize = 0;
        while i < n
            invariant
                n == policies@.len(),
                0 <= i <= n,
                set.wf(),
                try_from_iter_result(policies.deep_view().take(i as int)) == Ok::<
                    PolicySetView,
                    Seq<char>,
                >(set@),
            decreases n - i,
        {
            let ghost pre = set@;
            let p = policies[i].clone();
            let res = set.add(p);
            proof {
                assert(policies.deep_view().take(i + 1 as int).drop_last() =~= policies.deep_view()
                    .take(i as int));
                assert(policies.deep_view().take(i + 1 as int).last() == policies.deep_view()[
                    i as int]);
            }
            match res {
                Ok(()) => {},
                Err(e) => {
                    proof {
                        lemma_try_from_iter_err(policies.deep_view(), i as int);
                    }
                    return Err(e);
                },
            }
            i = i + 1;
        }
        proof {
            assert(policies.deep_view().take(n as int) =~= policies.deep_view());
        }
        Ok(set)
    }
}

proof fn lemma_try_from_iter_err(s: Seq<PolicyView>, i: int)
    requires
        0 <= i < s.len(),
        try_from_iter_result(s.take(i)) is Ok,
        add_result(try_from_iter_result(s.take(i))->Ok_0, s[i]) is Err,
    ensures
        try_from_iter_result(s) == add_result(try_from_iter_result(s.take(i))->Ok_0, s[i]),
    decreases s.len(),
{
    if i == s.len() - 1 {
        assert(s.take(i) =~= s.drop_last());
    } else {
        assert(s.drop_last().take(i) =~= s.take(i));
        lemma_try_from_iter_err(s.drop_last(), i);
    }
}

impl Default for PolicySet {
    /// The default set is the empty set.
    fn default() -> (r: Self)
        ensures
            r.wf(),
            r@ == PolicySetView::empty(),
    {
        PolicySet::new()
    }
}

impl Clone for PolicySet {
    /// A snapshot: a well-formed clone observes the same model.
    fn clone(&self) -> (r: Self)
        ensures
            self.wf() ==> r.wf() && r@ == self@,
    {
        PolicySet { templates: self.templates.clone(), links: self.links.clone() }
    }
}


/// The given texts joined by the separator.
pub open spec fn joined(texts: Seq<Seq<char>>, sep: Seq<char>) -> Seq<char>
    decreases texts.len(),
{
    if texts.len() == 0 {
        Seq::empty()
    } else if texts.len() == 1 {
        texts[0]
    } else {
        joined(texts.drop_last(), sep) + sep + texts.last()
    }
}

/// The rendering of a whole set from an enumeration of its templates and
/// one of its links: the templates one per line, then the links one per
/// line.
pub open spec fn set_text(ts: Seq<TemplateView>, ls: Seq<PolicyView>) -> Seq<char> {
    "Templates:\n"@ + joined(ts.map_values(|t: TemplateView| template_text(t)), "\n"@)
        + ", Template Linked Policies:\n"@ + joined(
        ls.map_values(|p: PolicyView| policy_text(p)),
        "\n"@,
    )
}

fn join_template_texts(v: &Vec<&Template>) -> (r: String)
    ensures
        r@ == joined(v.deep_view().map_values(|t: TemplateView| template_text(t)), "\n"@),
{
    let ghost m = v.deep_view().map_values(|t: TemplateView| template_text(t));
    let n = v.len();
    let mut out = String::new();
    let mut i: usize = 0;
    proof {
        assert(m.take(0) =~= Seq::<Seq<char>>::empty());
    }
    while i < n
        invariant
            n == v@.len(),
            0 <= i <= n,
            m == v.deep_view().map_values(|t: TemplateView| template_text(t)),
            m.len() == n,
            out@ == joined(m.take(i as int), "\n"@),
        decreases n - i,
    {
        let t = v[i].to_text();
        proof {
            assert(m.take(i + 1 as int).drop_last() =~= m.take(i as int));
            assert(m.take(i + 1 as int).last() == m[i as int]);
            assert(m[i as int] == template_text(v.deep_view()[i as int]));
            assert(v.deep_view()[i as int] == v@[i as int]@);
        }
        if i == 0 {
            proof {
                assert(out@ =~= Seq::<char>::empty());
                assert(Seq::<char>::empty() + t@ =~= t@);
            }
            out.append(t.as_str());
            proof {
                assert(out@ =~= m.take(1)[0]);
                assert(out@ == joined(m.take(1), "\n"@));
            }
        } else {
            out.append("\n");
            out.append(t.as_str());
        }
        i = i + 1;
    }
    proof {
        assert(m.take(n as int) =~= m);
    }
    out
}

fn join_policy_texts(v: &Vec<&Policy>) -> (r: String)
    ensures
        r@ == joined(v.deep_view().map_values(|p: PolicyView| policy_text(p)), "\n"@),
{
    let ghost m = v.deep_view().map_values(|p: PolicyView| policy_text(p));
    let n = v.len();
    let mut out = String::new();
    let mut i: usize = 0;
    proof {
        assert(m.take(0) =~= Seq::<Seq<char>>::empty());
    }
    while i < n
        invariant
            n == v@.len(),
            0 <= i <= n,
            m == v.deep_view().map_values(|p: PolicyView| policy_text(p)),
            m.len() == n,
            out@ == joined(m.take(i as int), "\n"@),
        decreases n - i,
    {
        let t = v[i].to_text();
        proof {
            assert(m.take(i + 1 as int).drop_last() =~= m.take(i as int));
            assert(m.take(i + 1 as int).last() == m[i as int]);
            assert(m[i as int] == policy_text(v.deep_view()[i as int]));
            assert(v.deep_view()[i as int] == v@[i as int]@);
        }
        if i == 0 {
            proof {
                assert(out@ =~= Seq::<char>::empty());
                assert(Seq::<char>::empty() + t@ =~= t@);
            }
            out.append(t.as_str());
            proof {
                assert(out@ =~= m.take(1)[0]);
                assert(out@ == joined(m.take(1), "\n"@));
            }
        } else {
            out.append("\n");
            out.append(t.as_str());
        }
        i = i + 1;
    }
    proof {
        assert(m.take(n as int) =~= m);
    }
    out
}

impl PolicySet {
    /// Render the whole set for diagnostics: a fixed sentinel when empty,
    /// else every template one per line followed by every link one per
    /// line, in unspecified order.
    pub fn to_text(&self) -> (r: String)
        requires
            self.wf(),
        ensures
            (self@ == PolicySetView::empty()) ==> r@ == "<empty policyset>"@,
            (self@ != PolicySetView::empty()) ==> (exists|
                ts: Seq<TemplateView>,
                ls: Seq<PolicyView>,
            |
                enumerates(ts, self@.templates, |t: TemplateView| t.id) && enumerates(
                    ls,
                    self@.links,
                    |p: PolicyView| p.id,
                ) && r@ == set_text(ts, ls)),
    {
        if self.is_empty() {
            return "<empty policyset>".to_string();
        }
        let ts = self.all_templates();
        let ls = self.policies();
        let mut out = "Templates:\n".to_string();
        let jt = join_template_texts(&ts);
        out.append(jt.as_str());
        out.append(", Template Linked Policies:\n");
        let jl = join_policy_texts(&ls);
        out.append(jl.as_str());
        proof {
            assert(out@ == set_text(ts.deep_view(), ls.deep_view()));
        }
        out
    }
}

} // verus!
