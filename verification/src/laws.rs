//! General properties of the store, stated over the mathematical models and
//! the transition functions that the executable operations are specified
//! against, and proved once for all inputs.

use vstd::prelude::*;

use crate::literal::{dangling, literal_of, reified, reify_link};
use crate::policy::{
    empty_env, env_is_empty, template_slot_count, PolicyView, SlotEnvView, TemplateView,
};
use crate::policy_set::{
    add_result, add_static_result, link_result, static_links, PolicySetView,
};

verus! {

/// Template sharing: two successful link operations against the same stored
/// template leave the template map exactly as it was, so the template is
/// stored once, and both produced links carry that one stored content.
pub proof fn lemma_template_sharing(
    ps: PolicySetView,
    tid: Seq<char>,
    id1: Seq<char>,
    env1: SlotEnvView,
    id2: Seq<char>,
    env2: SlotEnvView,
)
    requires
        link_result(ps, tid, id1, env1) is Ok,
        link_result(link_result(ps, tid, id1, env1)->Ok_0.0, tid, id2, env2) is Ok,
    ensures
        ({
            let once = link_result(ps, tid, id1, env1)->Ok_0;
            let twice = link_result(once.0, tid, id2, env2)->Ok_0;
            &&& twice.0.templates == ps.templates
            &&& once.1.template == ps.templates[tid]
            &&& twice.1.template == ps.templates[tid]
        }),
{
}

/// Static-policy duality: after a successful `add_static` of a zero-slot
/// body, that body is present as a template with zero slots, its companion
/// link is present with an empty environment under the same identifier, and
/// that link is among the static policies.
pub proof fn lemma_static_policy_duality(ps: PolicySetView, t: TemplateView)
    requires
        template_slot_count(t) == 0,
        add_static_result(ps, t) is Ok,
    ensures
        ({
            let ps2 = add_static_result(ps, t)->Ok_0;
            &&& ps2.templates.contains_key(t.id)
            &&& template_slot_count(ps2.templates[t.id]) == 0
            &&& ps2.links.contains_key(t.id)
            &&& ps2.links[t.id].env == empty_env()
            &&& static_links(ps2.links).contains_key(t.id)
        }),
{
    let ps2 = add_static_result(ps, t)->Ok_0;
    assert(env_is_empty(ps2.links[t.id].env));
    assert(static_links(ps2.links).contains_key(t.id));
}

/// Round-trip: reifying the flat form of a set that satisfies the cross-map
/// invariant rejects nothing and yields the set itself.
pub proof fn lemma_round_trip(ps: PolicySetView)
    requires
        ps.inv(),
    ensures
        !dangling(literal_of(ps)),
        reified(literal_of(ps)) == ps,
{
    let l = literal_of(ps);
    assert forall|k: Seq<char>| #[trigger] l.links.contains_key(k) implies l.templates.contains_key(
        l.links[k].template_id,
    ) by {
        assert(ps.links.contains_key(k));
        assert(l.links[k].template_id == ps.links[k].template.id);
    }
    assert forall|k: Seq<char>| #[trigger]
        reified(l).links.contains_key(k) implies reified(l).links[k] == ps.links[k] by {
        assert(ps.links.contains_key(k));
        assert(reify_link(l, k) == (PolicyView {
            id: ps.links[k].id,
            template: ps.templates[ps.links[k].template.id],
            env: ps.links[k].env,
        }));
        assert(ps.templates[ps.links[k].template.id] == ps.links[k].template);
        assert(ps.links[k].id == k);
    }
    assert(reified(l).links =~= ps.links);
    assert(reified(l) =~= ps);
}

/// Idempotent re-add: adding the exact same policy twice fails the second
/// time with the link's own identifier, even though the template half of
/// the re-add matches the stored content.
pub proof fn lemma_readd_fails(ps: PolicySetView, p: PolicyView)
    requires
        add_result(ps, p) is Ok,
    ensures
        add_result(add_result(ps, p)->Ok_0, p) == Err::<PolicySetView, Seq<char>>(p.id),
{
}

} // verus!
