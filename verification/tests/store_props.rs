use std::sync::Arc;

use policyset::ids::{EntityUID, PolicyID, SlotId};
use policyset::json_err::{EscapeKind, JsonDeserializationErrorContext};
use policyset::literal::{LiteralPolicy, LiteralPolicySet, ReificationError};
use policyset::policy::{
    ActionConstraint, Effect, Expr, LinkingError, Policy, PrincipalConstraint, ResourceConstraint,
    SlotEnv, StaticPolicy, Template, UnexpectedSlotError,
};
use policyset::policy_set::{PolicySet, PolicySetError};

fn pid(s: &str) -> PolicyID {
    PolicyID::from_string(s)
}

fn plain_static(id: &str) -> StaticPolicy {
    StaticPolicy::new(
        pid(id),
        Effect::Permit,
        PrincipalConstraint::any(),
        ActionConstraint::any(),
        ResourceConstraint::any(),
        Expr::val(true),
    )
    .expect("static policy has no slots")
}

fn principal_slot_template(id: &str) -> Template {
    Template::new(
        pid(id),
        Effect::Permit,
        PrincipalConstraint::is_eq_slot(),
        ActionConstraint::any(),
        ResourceConstraint::any(),
        Expr::val(true),
    )
}

#[test]
fn link_id_reuse_rejected() {
    let mut s = PolicySet::new();
    s.add_template(principal_slot_template("t")).unwrap();

    let mut env1 = SlotEnv::new();
    env1.insert(SlotId::principal(), EntityUID::with_eid("e1"));
    s.link(pid("t"), pid("l1"), env1).expect("first link");

    let mut env2 = SlotEnv::new();
    env2.insert(SlotId::principal(), EntityUID::with_eid("e2"));
    match s.link(pid("t"), pid("l1"), env2.clone()) {
        Err(LinkingError::PolicyIdConflict { id }) => assert_eq!(id, pid("l1")),
        r => panic!("expected an id conflict, got {r:?}"),
    }

    s.link(pid("t"), pid("l2"), env2).expect("distinct id links");
    assert_eq!(s.templates().len(), 1);
    assert_eq!(s.policies().len(), 2);
}

#[test]
fn two_slot_link_fully_bound() {
    let mut s = PolicySet::new();
    let t = Template::new(
        pid("t"),
        Effect::Permit,
        PrincipalConstraint::is_eq_slot(),
        ActionConstraint::any(),
        ResourceConstraint::is_eq_slot(),
        Expr::val(true),
    );
    assert_eq!(t.slot_count(), 2);
    assert_eq!(t.slots(), vec![SlotId::Principal, SlotId::Resource]);
    s.add_template(t).unwrap();

    let p_ent = EntityUID::with_eid("p");
    let r_ent = EntityUID::with_eid("r");
    let mut env = SlotEnv::new();
    env.insert(SlotId::principal(), p_ent.clone());
    env.insert(SlotId::resource(), r_ent.clone());
    s.link(pid("t"), pid("l"), env).expect("fully bound");

    let link = s.get(&pid("l")).expect("link stored");
    assert_eq!(link.template().id(), &pid("t"));
    assert_eq!(link.env().get(&SlotId::principal()), Some(&p_ent));
    assert_eq!(link.env().get(&SlotId::resource()), Some(&r_ent));
    assert_eq!(link.env().len(), 2);
}

#[test]
fn fresh_set_then_one_template() {
    let mut s = PolicySet::new();
    assert!(s.is_empty());
    s.add_template(principal_slot_template("t")).unwrap();
    assert!(!s.is_empty());
    assert_eq!(s.templates().len(), 1);
    assert_eq!(s.policies().len(), 0);
}

#[test]
fn atomicity_of_failed_operations() {
    let mut s = PolicySet::new();
    s.add_static(plain_static("id")).unwrap();
    s.add_template(principal_slot_template("t")).unwrap();

    let before_templates = s.all_templates().len();
    let before_policies = s.policies().len();

    assert!(s.add_static(plain_static("id")).is_err());
    assert!(s.add_template(principal_slot_template("t")).is_err());
    assert!(s
        .link(pid("missing"), pid("x"), SlotEnv::new())
        .is_err());
    assert!(s.link(pid("t"), pid("id"), SlotEnv::new()).is_err());

    assert_eq!(s.all_templates().len(), before_templates);
    assert_eq!(s.policies().len(), before_policies);
    assert_eq!(s.templates().len(), 1);
    assert_eq!(s.static_policies().len(), 1);
    assert!(s.get(&pid("id")).is_some());
    assert!(s.get_template(&pid("t")).is_some());
    assert!(s.get(&pid("x")).is_none());
}

#[test]
fn static_policy_duality() {
    let mut s = PolicySet::new();
    s.add_static(plain_static("id")).unwrap();

    let t = s.get_template(&pid("id")).expect("template half present");
    assert_eq!(t.slot_count(), 0);
    let link = s.get(&pid("id")).expect("link half present");
    assert!(link.env().is_empty());
    assert!(link.is_static());
    let statics = s.static_policies();
    assert_eq!(statics.len(), 1);
    assert_eq!(statics[0].id(), &pid("id"));
}

#[test]
fn idempotent_readd_fails() {
    let mut s = PolicySet::new();
    let p = Policy::from_static(plain_static("p"));
    s.add(p.clone()).expect("first add");
    match s.add(p) {
        Err(PolicySetError::Occupied { id }) => assert_eq!(id, pid("p")),
        r => panic!("re-adding the same policy must fail, got {r:?}"),
    }
}

#[test]
fn readd_identical_template_content_is_ok() {
    let mut s = PolicySet::new();
    let template = Arc::new(principal_slot_template("t"));
    let mut env1 = SlotEnv::new();
    env1.insert(SlotId::principal(), EntityUID::with_eid("a"));
    let mut env2 = SlotEnv::new();
    env2.insert(SlotId::principal(), EntityUID::with_eid("b"));
    let p1 = Template::link(Arc::clone(&template), pid("l1"), env1).unwrap();
    let p2 = Template::link(Arc::clone(&template), pid("l2"), env2).unwrap();
    s.add(p1).expect("first add brings the template");
    s.add(p2).expect("identical template content is not an error");
    assert_eq!(s.all_templates().len(), 1);
    assert_eq!(s.policies().len(), 2);
}

#[test]
fn arity_error_on_missing_binding() {
    let mut s = PolicySet::new();
    s.add_template(principal_slot_template("t")).unwrap();
    match s.link(pid("t"), pid("l"), SlotEnv::new()) {
        Err(LinkingError::ArityError {
            num_of_template_slots,
            num_of_provided_vals,
        }) => {
            assert_eq!(num_of_template_slots, 1);
            assert_eq!(num_of_provided_vals, 0);
        }
        r => panic!("expected an arity error, got {r:?}"),
    }
}

#[test]
fn arity_error_on_extra_binding() {
    let mut s = PolicySet::new();
    s.add_template(principal_slot_template("t")).unwrap();
    let mut env = SlotEnv::new();
    env.insert(SlotId::principal(), EntityUID::with_eid("p"));
    env.insert(SlotId::resource(), EntityUID::with_eid("r"));
    match s.link(pid("t"), pid("l"), env) {
        Err(LinkingError::ArityError {
            num_of_template_slots,
            num_of_provided_vals,
        }) => {
            assert_eq!(num_of_template_slots, 1);
            assert_eq!(num_of_provided_vals, 2);
        }
        r => panic!("expected an arity error, got {r:?}"),
    }
}

#[test]
fn static_policy_rejects_slots() {
    let r = StaticPolicy::new(
        pid("p"),
        Effect::Permit,
        PrincipalConstraint::is_eq_slot(),
        ActionConstraint::any(),
        ResourceConstraint::is_in_slot(),
        Expr::val(true),
    );
    match r {
        Err(UnexpectedSlotError::FoundSlot(slot)) => assert_eq!(slot, SlotId::Principal),
        Ok(_) => panic!("a slotted static policy must be rejected"),
    }
    let r = StaticPolicy::new(
        pid("p"),
        Effect::Permit,
        PrincipalConstraint::any(),
        ActionConstraint::any(),
        ResourceConstraint::is_in_slot(),
        Expr::val(true),
    );
    match r {
        Err(UnexpectedSlotError::FoundSlot(slot)) => assert_eq!(slot, SlotId::Resource),
        Ok(_) => panic!("a slotted static policy must be rejected"),
    }
}

#[test]
fn round_trip_through_literal_form() {
    let mut s = PolicySet::new();
    s.add_static(plain_static("static")).unwrap();
    s.add_template(principal_slot_template("t")).unwrap();
    let mut env = SlotEnv::new();
    let ent = EntityUID::with_eid("e");
    env.insert(SlotId::principal(), ent.clone());
    s.link(pid("t"), pid("l"), env).expect("link");

    let flat = LiteralPolicySet::from(s);
    let back = PolicySet::try_from(flat).expect("no link dangles");

    assert_eq!(back.all_templates().len(), 2);
    assert_eq!(back.templates().len(), 1);
    assert_eq!(back.policies().len(), 2);
    assert_eq!(back.static_policies().len(), 1);

    let t = back.get_template(&pid("t")).expect("template kept");
    assert_eq!(t.id(), &pid("t"));
    assert!(t.has_principal_slot());

    let link = back.get(&pid("l")).expect("link kept");
    assert_eq!(link.template().id(), &pid("t"));
    assert_eq!(link.env().get(&SlotId::principal()), Some(&ent));

    let st = back.get(&pid("static")).expect("static kept");
    assert!(st.is_static());
    assert_eq!(st.effect(), Effect::Permit);
}

#[test]
fn reification_rejects_dangling_link() {
    let mut flat = LiteralPolicySet::new();
    flat.insert_template(principal_slot_template("present"));
    let mut env = SlotEnv::new();
    env.insert(SlotId::principal(), EntityUID::with_eid("e"));
    flat.insert_link(LiteralPolicy::new(pid("missing"), env, pid("l")));
    match PolicySet::try_from(flat) {
        Err(ReificationError::NoSuchTemplate { id }) => assert_eq!(id, pid("missing")),
        Ok(_) => panic!("a dangling link must fail reification"),
    }
}

#[test]
fn reification_resolves_links() {
    let mut flat = LiteralPolicySet::new();
    flat.insert_template(principal_slot_template("t"));
    let mut env = SlotEnv::new();
    let ent = EntityUID::with_eid("e");
    env.insert(SlotId::principal(), ent.clone());
    flat.insert_link(LiteralPolicy::new(pid("t"), env, pid("l")));

    let s = PolicySet::try_from(flat).expect("all links resolve");
    let link = s.get(&pid("l")).expect("link present");
    assert_eq!(link.id(), &pid("l"));
    assert_eq!(link.template().id(), &pid("t"));
    assert_eq!(link.env().get(&SlotId::principal()), Some(&ent));
    assert!(s.get_template(&pid("t")).is_some());
}

#[test]
fn try_from_iter_builds_a_set() {
    let template = Arc::new(principal_slot_template("t"));
    let mut env = SlotEnv::new();
    env.insert(SlotId::principal(), EntityUID::with_eid("e"));
    let p1 = Policy::from_static(plain_static("a"));
    let p2 = Template::link(Arc::clone(&template), pid("l"), env).unwrap();
    let s = PolicySet::try_from_iter(vec![p1, p2]).expect("no conflicts");
    assert_eq!(s.policies().len(), 2);
    assert_eq!(s.all_templates().len(), 2);
}

#[test]
fn try_from_iter_reports_first_conflict() {
    let p = Policy::from_static(plain_static("a"));
    let q = Policy::from_static(plain_static("a"));
    match PolicySet::try_from_iter(vec![p, q]) {
        Err(PolicySetError::Occupied { id }) => assert_eq!(id, pid("a")),
        Ok(_) => panic!("duplicate ids must fail the fold"),
    }
}

#[test]
fn slot_env_behaves_like_a_map() {
    let mut env = SlotEnv::new();
    assert!(env.is_empty());
    assert_eq!(env.len(), 0);
    assert_eq!(env.get(&SlotId::principal()), None);
    let a = EntityUID::with_eid("a");
    let b = EntityUID::with_eid("b");
    env.insert(SlotId::principal(), a.clone());
    assert_eq!(env.get(&SlotId::principal()), Some(&a));
    assert_eq!(env.get(&SlotId::resource()), None);
    assert_eq!(env.len(), 1);
    env.insert(SlotId::principal(), b.clone());
    assert_eq!(env.get(&SlotId::principal()), Some(&b));
    assert_eq!(env.len(), 1);
    assert!(!env.is_empty());
}

#[test]
fn empty_set_renders_sentinel() {
    let s = PolicySet::new();
    assert_eq!(s.to_text(), "<empty policyset>");
}

#[test]
fn template_renders_policy_text() {
    let t = Template::new(
        pid("t"),
        Effect::Forbid,
        PrincipalConstraint::is_eq(EntityUID::from_components(
            "Test".to_string(),
            "a".to_string(),
        )),
        ActionConstraint::any(),
        ResourceConstraint::is_in_slot(),
        Expr::val(false),
    );
    assert_eq!(
        t.to_text(),
        "forbid(principal == Test::\"a\", action, resource in ?resource) when { false };"
    );
}

#[test]
fn link_renders_with_slots_filled() {
    let template = Arc::new(principal_slot_template("t"));
    let mut env = SlotEnv::new();
    env.insert(
        SlotId::principal(),
        EntityUID::from_components("Test".to_string(), "x".to_string()),
    );
    let p = Template::link(Arc::clone(&template), pid("l"), env).unwrap();
    assert_eq!(
        p.to_text(),
        "permit(principal == Test::\"x\", action, resource) when { true };"
    );
    assert_eq!(
        template.to_text(),
        "permit(principal == ?principal, action, resource) when { true };"
    );
}

#[test]
fn set_renders_templates_then_links() {
    let mut s = PolicySet::new();
    s.add_static(plain_static("only")).unwrap();
    assert_eq!(
        s.to_text(),
        "Templates:\npermit(principal, action, resource) when { true };, \
         Template Linked Policies:\npermit(principal, action, resource) when { true };"
    );
}

#[test]
fn escape_kinds_render() {
    assert_eq!(EscapeKind::Expr.to_text(), "__expr");
    assert_eq!(EscapeKind::Entity.to_text(), "__entity");
    assert_eq!(EscapeKind::Extension.to_text(), "__extn");
}

#[test]
fn json_error_contexts_render() {
    let uid = EntityUID::from_components("User".to_string(), "alice".to_string());
    let ctx = JsonDeserializationErrorContext::EntityAttribute {
        uid: uid.clone(),
        attr: "age".to_string(),
    };
    assert_eq!(ctx.to_text(), "in attribute `age` on `User::\"alice\"`");
    let ctx = JsonDeserializationErrorContext::EntityParents { uid };
    assert_eq!(ctx.to_text(), "in parents field of `User::\"alice\"`");
    assert_eq!(
        JsonDeserializationErrorContext::EntityUid.to_text(),
        "in uid field of <unknown entity>"
    );
    assert_eq!(
        JsonDeserializationErrorContext::Context.to_text(),
        "while parsing context"
    );
}

#[test]
fn identifiers_keep_their_text() {
    let id = pid("some-policy-id");
    assert_eq!(id.as_text(), "some-policy-id");
    assert_eq!(id, id.clone());
    assert_ne!(pid("a"), pid("b"));
    assert_eq!(SlotId::principal().to_text(), "?principal");
    assert_eq!(SlotId::resource().to_text(), "?resource");
    let e = EntityUID::with_eid("eid");
    assert_eq!(e.to_text(), "test_entity_type::\"eid\"");
}
