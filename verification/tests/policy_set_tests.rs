use std::sync::Arc;

use policyset::ids::{EntityUID, PolicyID, SlotId};
use policyset::policy::{
    ActionConstraint, Effect, Expr, LinkingError, Policy, PrincipalConstraint, ResourceConstraint,
    SlotEnv, StaticPolicy, Template,
};
use policyset::policy_set::{PolicySet, PolicySetError};

fn euid(ty: &str, eid: &str) -> EntityUID {
    EntityUID::from_components(ty.to_string(), eid.to_string())
}

#[test]
fn link_conflicts() {
    let mut pset = PolicySet::new();
    let p1 = StaticPolicy::new(
        PolicyID::from_string("id"),
        Effect::Permit,
        PrincipalConstraint::any(),
        ActionConstraint::any(),
        ResourceConstraint::any(),
        Expr::val(true),
    )
    .expect("Failed to parse");
    pset.add_static(p1).expect("Failed to add!");
    let template = Template::new(
        PolicyID::from_string("t"),
        Effect::Permit,
        PrincipalConstraint::is_eq_slot(),
        ActionConstraint::any(),
        ResourceConstraint::any(),
        Expr::val(true),
    );
    pset.add_template(template).expect("Add failed");

    let mut env = SlotEnv::new();
    env.insert(SlotId::principal(), euid("Test", "test"));

    let r = pset.link(PolicyID::from_string("t"), PolicyID::from_string("id"), env);

    match r {
        Ok(_) => panic!("Should have failed due to conflict"),
        Err(LinkingError::PolicyIdConflict { id }) => {
            assert_eq!(id, PolicyID::from_string("id"))
        }
        Err(e) => panic!("Incorrect error: {e:?}"),
    };
}

#[test]
fn policyset_add() {
    let mut pset = PolicySet::new();
    let static_policy = StaticPolicy::new(
        PolicyID::from_string("id"),
        Effect::Permit,
        PrincipalConstraint::any(),
        ActionConstraint::any(),
        ResourceConstraint::any(),
        Expr::val(true),
    )
    .expect("Failed to parse");
    let static_policy: Policy = Policy::from_static(static_policy);
    pset.add(static_policy)
        .expect("Adding static policy in Policy form should succeed");

    let template = Arc::new(Template::new(
        PolicyID::from_string("t"),
        Effect::Permit,
        PrincipalConstraint::is_eq_slot(),
        ActionConstraint::any(),
        ResourceConstraint::any(),
        Expr::val(true),
    ));
    let mut env1 = SlotEnv::new();
    env1.insert(SlotId::principal(), euid("Test", "test1"));

    let p1 = Template::link(Arc::clone(&template), PolicyID::from_string("link"), env1)
        .expect("Failed to link");
    pset.add(p1).expect(
        "Adding link should succeed, even though the template wasn't previously in the pset",
    );
    assert!(
        pset.get_template(&PolicyID::from_string("t")).is_some(),
        "Adding link should implicitly add the template"
    );

    let mut env2 = SlotEnv::new();
    env2.insert(SlotId::principal(), euid("Test", "test2"));

    let p2 = Template::link(
        Arc::clone(&template),
        PolicyID::from_string("link"),
        env2.clone(),
    )
    .expect("Failed to link");
    match pset.add(p2) {
        Ok(_) => panic!("Should have failed due to conflict with existing link id"),
        Err(PolicySetError::Occupied { id }) => assert_eq!(id, PolicyID::from_string("link")),
    }

    let p3 = Template::link(Arc::clone(&template), PolicyID::from_string("link2"), env2)
        .expect("Failed to link");
    pset.add(p3).expect(
        "Adding link should succeed, even though the template already existed in the pset",
    );

    let template2 = Arc::new(Template::new(
        PolicyID::from_string("t"),
        Effect::Forbid,
        PrincipalConstraint::any(),
        ActionConstraint::any(),
        ResourceConstraint::is_eq_slot(),
        Expr::val(true),
    ));
    let mut env3 = SlotEnv::new();
    env3.insert(SlotId::resource(), euid("Test", "test3"));

    let p4 = Template::link(
        Arc::clone(&template2),
        PolicyID::from_string("unique3"),
        env3,
    )
    .expect("Failed to link");
    match pset.add(p4) {
        Ok(_) => panic!("Should have failed due to conflict on template id"),
        Err(PolicySetError::Occupied { id }) => {
            assert_eq!(id, PolicyID::from_string("t"))
        }
    }
}

#[test]
fn policy_conflicts() {
    let mut pset = PolicySet::new();
    let p1 = StaticPolicy::new(
        PolicyID::from_string("id"),
        Effect::Permit,
        PrincipalConstraint::any(),
        ActionConstraint::any(),
        ResourceConstraint::any(),
        Expr::val(true),
    )
    .expect("Failed to parse");
    let p2 = StaticPolicy::new(
        PolicyID::from_string("id"),
        Effect::Permit,
        PrincipalConstraint::any(),
        ActionConstraint::any(),
        ResourceConstraint::any(),
        Expr::val(false),
    )
    .expect("Failed to parse");
    pset.add_static(p1).expect("Failed to add!");
    match pset.add_static(p2) {
        Ok(_) => panic!("Should have failed to due name conflict"),
        Err(PolicySetError::Occupied { id }) => assert_eq!(id, PolicyID::from_string("id")),
    }
}

#[test]
fn template_filtering() {
    let template = Template::new(
        PolicyID::from_string("template"),
        Effect::Permit,
        PrincipalConstraint::is_eq_slot(),
        ActionConstraint::any(),
        ResourceConstraint::any(),
        Expr::val(true),
    );
    let static_policy = StaticPolicy::new(
        PolicyID::from_string("static"),
        Effect::Permit,
        PrincipalConstraint::any(),
        ActionConstraint::any(),
        ResourceConstraint::any(),
        Expr::val(true),
    )
    .expect("Static parse failure");
    let mut set = PolicySet::new();
    set.add_template(template).unwrap();
    set.add_static(static_policy).unwrap();

    assert_eq!(set.all_templates().len(), 2);
    assert_eq!(set.templates().len(), 1);
    assert_eq!(set.static_policies().len(), 1);
    assert_eq!(set.policies().len(), 1);
    let mut env = SlotEnv::new();
    env.insert(SlotId::principal(), EntityUID::with_eid("eid"));
    set.link(
        PolicyID::from_string("template"),
        PolicyID::from_string("id"),
        env,
    )
    .expect("Linking failed!");
    assert_eq!(set.static_policies().len(), 1);
    assert_eq!(set.policies().len(), 2);
}

#[test]
fn linking_missing_template() {
    let tid = PolicyID::from_string("template");
    let lid = PolicyID::from_string("link");
    let t = Template::new(
        tid.clone(),
        Effect::Permit,
        PrincipalConstraint::any(),
        ActionConstraint::any(),
        ResourceConstraint::any(),
        Expr::val(true),
    );

    let mut s = PolicySet::new();
    let e = s
        .link(tid.clone(), lid.clone(), SlotEnv::new())
        .expect_err("Should fail");

    match e {
        LinkingError::NoSuchTemplate { id } => assert_eq!(tid, id),
        e => panic!("Wrong error {e:?}"),
    };

    s.add_template(t).unwrap();
    s.link(tid, lid, SlotEnv::new()).expect("Should succeed");
}

#[test]
fn linkinv_valid_link() {
    let tid = PolicyID::from_string("template");
    let lid = PolicyID::from_string("link");
    let t = Template::new(
        tid.clone(),
        Effect::Permit,
        PrincipalConstraint::is_eq_slot(),
        ActionConstraint::any(),
        ResourceConstraint::is_in_slot(),
        Expr::val(true),
    );

    let mut s = PolicySet::new();
    s.add_template(t).unwrap();

    let mut vals = SlotEnv::new();
    vals.insert(SlotId::principal(), EntityUID::with_eid("p"));
    vals.insert(SlotId::resource(), EntityUID::with_eid("a"));

    s.link(tid.clone(), lid.clone(), vals).expect("Should link");

    let v: Vec<_> = s.policies();

    assert_eq!(v[0].id(), &lid);
    assert_eq!(v[0].template().id(), &tid);
}

#[test]
fn linking_empty_set() {
    let s = PolicySet::new();
    assert_eq!(s.policies().len(), 0);
}

#[test]
fn linking_raw_policy() {
    let mut s = PolicySet::new();
    let id = PolicyID::from_string("id");
    let p = StaticPolicy::new(
        id.clone(),
        Effect::Forbid,
        PrincipalConstraint::any(),
        ActionConstraint::any(),
        ResourceConstraint::any(),
        Expr::val(true),
    )
    .expect("Policy Creation Failed");
    s.add_static(p).unwrap();

    let pols = s.policies();
    match pols.first() {
        Some(pol) => {
            assert_eq!(pol.id(), &id);
            assert_eq!(pol.effect(), Effect::Forbid);
            assert!(pol.env().is_empty())
        }
        None => panic!("Linked Record Not Present"),
    };
}

#[test]
fn link_slotmap() {
    let mut s = PolicySet::new();
    let template_id = PolicyID::from_string("template");
    let link_id = PolicyID::from_string("link");
    let t = Template::new(
        template_id.clone(),
        Effect::Forbid,
        PrincipalConstraint::is_eq_slot(),
        ActionConstraint::any(),
        ResourceConstraint::any(),
        Expr::val(true),
    );
    s.add_template(t).unwrap();

    let mut v = SlotEnv::new();
    let entity = EntityUID::with_eid("eid");
    v.insert(SlotId::principal(), entity.clone());
    s.link(template_id.clone(), link_id.clone(), v)
        .expect("Linking failed!");

    let link = s.get(&link_id).expect("Link should exist");
    assert_eq!(&link_id, link.id());
    assert_eq!(&template_id, link.template().id());
    assert_eq!(
        &entity,
        link.env()
            .get(&SlotId::principal())
            .expect("Mapping was incorrect")
    );
}

#[test]
fn policy_sets() {
    let mut pset = PolicySet::new();
    assert!(pset.is_empty());
    let id1 = PolicyID::from_string("id1");
    let tid1 = PolicyID::from_string("template");
    let policy1 = StaticPolicy::new(
        id1.clone(),
        Effect::Permit,
        PrincipalConstraint::any(),
        ActionConstraint::any(),
        ResourceConstraint::any(),
        Expr::val(true),
    )
    .expect("Policy Creation Failed");
    let template1 = Template::new(
        tid1.clone(),
        Effect::Permit,
        PrincipalConstraint::any(),
        ActionConstraint::any(),
        ResourceConstraint::any(),
        Expr::val(true),
    );
    let added = pset.add_static(policy1.clone()).is_ok();
    assert!(added);
    let added = pset.add_static(policy1).is_ok();
    assert!(!added);
    let added = pset.add_template(template1.clone()).is_ok();
    assert!(added);
    let added = pset.add_template(template1).is_ok();
    assert!(!added);
    assert!(!pset.is_empty());
    let id2 = PolicyID::from_string("id2");
    let policy2 = StaticPolicy::new(
        id2.clone(),
        Effect::Forbid,
        PrincipalConstraint::is_eq(EntityUID::with_eid("jane")),
        ActionConstraint::any(),
        ResourceConstraint::any(),
        Expr::val(true),
    )
    .expect("Policy Creation Failed");
    let added = pset.add_static(policy2).is_ok();
    assert!(added);

    let tid2 = PolicyID::from_string("template2");
    let template2 = Template::new(
        tid2.clone(),
        Effect::Permit,
        PrincipalConstraint::is_eq_slot(),
        ActionConstraint::any(),
        ResourceConstraint::any(),
        Expr::val(true),
    );
    let id3 = PolicyID::from_string("link");
    let added = pset.add_template(template2).is_ok();
    assert!(added);

    let mut env = SlotEnv::new();
    env.insert(SlotId::principal(), EntityUID::with_eid("example"));
    let r = pset.link(tid2.clone(), id3.clone(), env);
    r.expect("Linking failed");

    assert_eq!(pset.get(&id1).expect("should find the policy").id(), &id1);
    assert_eq!(pset.get(&id2).expect("should find the policy").id(), &id2);
    assert_eq!(pset.get(&id3).expect("should find link").id(), &id3);
    assert_eq!(
        pset.get(&id3).expect("should find link").template().id(),
        &tid2
    );
    assert!(pset.get(&tid2).is_none());
    assert!(pset.get_template(&id1).is_some()); // Static policies are also templates
    assert!(pset.get_template(&id2).is_some()); // Static policies are also templates
    assert!(pset.get_template(&tid2).is_some());
    assert_eq!(pset.policies().len(), 3);

    assert_eq!(
        pset.get_template(&tid1)
            .expect("should find the template")
            .id(),
        &tid1
    );
    assert!(pset.get(&tid1).is_none());
    assert_eq!(pset.all_templates().len(), 4);
}
