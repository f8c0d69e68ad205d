//! Policy bodies: templates with placeholder slots, static (slot-free)
//! policies, and concrete links binding every slot of a template to an
//! entity identifier.

use vstd::prelude::*;
use vstd::string::StringExecFns;

use crate::ids::{euid_text, EntityUID, EntityUidView, PolicyID, SlotId};
use std::sync::Arc;

verus! {

/// The effect a policy has when it applies to a request.
#[derive(Debug, Clone, Copy, PartialEq, Eq, Structural)]
pub enum Effect {
    Permit,
    Forbid,
}

/// A policy's condition expression. Conditions are produced by an external
/// parser and are never evaluated by this store; it only carries them and
/// compares them for exact equality.
#[derive(Debug, Clone, Copy, PartialEq, Eq, Structural)]
pub enum Expr {
    Lit(bool),
}

impl Expr {
    /// A literal boolean condition.
    pub fn val(b: bool) -> (r: Expr)
        ensures
            r == Expr::Lit(b),
    {
        Expr::Lit(b)
    }
}

/// Mathematical model of a principal or resource scope constraint.
pub enum ScopeView {
    Any,
    Eq(EntityUidView),
    EqSlot,
    In(EntityUidView),
    InSlot,
}

/// True when the constraint references a placeholder slot.
pub open spec fn scope_has_slot(s: ScopeView) -> bool {
    s is EqSlot || s is InSlot
}

/// Constraint on the principal or resource of a template: unconstrained,
/// equal to or descendant of a concrete entity, or equal to or descendant
/// of a placeholder slot.
#[derive(Debug)]
pub enum ScopeConstraint {
    Any,
    Eq(EntityUID),
    EqSlot,
    In(EntityUID),
    InSlot,
}

impl View for ScopeConstraint {
    type V = ScopeView;

    closed spec fn view(&self) -> ScopeView {
        match self {
            ScopeConstraint::Any => ScopeView::Any,
            ScopeConstraint::Eq(e) => ScopeView::Eq(e@),
            ScopeConstraint::EqSlot => ScopeView::EqSlot,
            ScopeConstraint::In(e) => ScopeView::In(e@),
            ScopeConstraint::InSlot => ScopeView::InSlot,
        }
    }
}

impl ScopeConstraint {
    /// True when this constraint references a placeholder slot.
    pub fn has_slot(&self) -> (r: bool)
        ensures
            r == scope_has_slot(self@),
    {
        match self {
            ScopeConstraint::EqSlot => true,
            ScopeConstraint::InSlot => true,
            _ => false,
        }
    }
}

impl Clone for ScopeConstraint {
    fn clone(&self) -> (r: Self)
        ensures
            r == *self,
    {
        match self {
            ScopeConstraint::Any => ScopeConstraint::Any,
            ScopeConstraint::Eq(e) => ScopeConstraint::Eq(e.clone()),
            ScopeConstraint::EqSlot => ScopeConstraint::EqSlot,
            ScopeConstraint::In(e) => ScopeConstraint::In(e.clone()),
            ScopeConstraint::InSlot => ScopeConstraint::InSlot,
        }
    }
}

impl PartialEq for ScopeConstraint {
    fn eq(&self, other: &Self) -> (r: bool) {
        match (self, other) {
            (ScopeConstraint::Any, ScopeConstraint::Any) => true,
            (ScopeConstraint::Eq(a), ScopeConstraint::Eq(b)) => *a == *b,
            (ScopeConstraint::EqSlot, ScopeConstraint::EqSlot) => true,
            (ScopeConstraint::In(a), ScopeConstraint::In(b)) => *a == *b,
            (ScopeConstraint::InSlot, ScopeConstraint::InSlot) => true,
            _ => false,
        }
    }
}

impl vstd::std_specs::cmp::PartialEqSpecImpl for ScopeConstraint {
    open spec fn obeys_eq_spec() -> bool {
        true
    }

    open spec fn eq_spec(&self, other: &Self) -> bool {
        self@ == other@
    }
}

/// Constraint on the principal a template applies to.
#[derive(Debug)]
pub struct PrincipalConstraint {
    constraint: ScopeConstraint,
}

impl View for PrincipalConstraint {
    type V = ScopeView;

    closed spec fn view(&self) -> ScopeView {
        self.constraint@
    }
}

impl PrincipalConstraint {
    /// Unconstrained principal.
    pub fn any() -> (r: Self)
        ensures
            r@ == ScopeView::Any,
    {
        PrincipalConstraint { constraint: ScopeConstraint::Any }
    }

    /// Principal equal to a concrete entity.
    pub fn is_eq(euid: EntityUID) -> (r: Self)
        ensures
            r@ == ScopeView::Eq(euid@),
    {
        PrincipalConstraint { constraint: ScopeConstraint::Eq(euid) }
    }

    /// Principal equal to the principal slot.
    pub fn is_eq_slot() -> (r: Self)
        ensures
            r@ == ScopeView::EqSlot,
    {
        PrincipalConstraint { constraint: ScopeConstraint::EqSlot }
    }

    /// Principal in the hierarchy of a concrete entity.
    pub fn is_in(euid: EntityUID) -> (r: Self)
        ensures
            r@ == ScopeView::In(euid@),
    {
        PrincipalConstraint { constraint: ScopeConstraint::In(euid) }
    }

    /// Principal in the hierarchy of the principal slot.
    pub fn is_in_slot() -> (r: Self)
        ensures
            r@ == ScopeView::InSlot,
    {
        PrincipalConstraint { constraint: ScopeConstraint::InSlot }
    }

    /// True when this constraint references the principal slot.
    pub fn has_slot(&self) -> (r: bool)
        ensures
            r == scope_has_slot(self@),
    {
        self.constraint.has_slot()
    }

    /// The underlying scope constraint.
    pub fn as_inner(&self) -> (r: &ScopeConstraint)
        ensures
            r@ == self@,
    {
        &self.constraint
    }
}

impl Clone for PrincipalConstraint {
    fn clone(&self) -> (r: Self)
        ensures
            r == *self,
    {
        PrincipalConstraint { constraint: self.constraint.clone() }
    }
}

impl PartialEq for PrincipalConstraint {
    fn eq(&self, other: &Self) -> (r: bool) {
        self.constraint == other.constraint
    }
}

impl vstd::std_specs::cmp::PartialEqSpecImpl for PrincipalConstraint {
    open spec fn obeys_eq_spec() -> bool {
        true
    }

    open spec fn eq_spec(&self, other: &Self) -> bool {
        self@ == other@
    }
}

/// Constraint on the resource a template applies to.
#[derive(Debug)]
pub struct ResourceConstraint {
    constraint: ScopeConstraint,
}

impl View for ResourceConstraint {
    type V = ScopeView;

    closed spec fn view(&self) -> ScopeView {
        self.constraint@
    }
}

impl ResourceConstraint {
    /// Unconstrained resource.
    pub fn any() -> (r: Self)
        ensures
            r@ == ScopeView::Any,
    {
        ResourceConstraint { constraint: ScopeConstraint::Any }
    }

    /// Resource equal to a concrete entity.
    pub fn is_eq(euid: EntityUID) -> (r: Self)
        ensures
            r@ == ScopeView::Eq(euid@),
    {
        ResourceConstraint { constraint: ScopeConstraint::Eq(euid) }
    }

    /// Resource equal to the resource slot.
    pub fn is_eq_slot() -> (r: Self)
        ensures
            r@ == ScopeView::EqSlot,
    {
        ResourceConstraint { constraint: ScopeConstraint::EqSlot }
    }

    /// Resource in the hierarchy of a concrete entity.
    pub fn is_in(euid: EntityUID) -> (r: Self)
        ensures
            r@ == ScopeView::In(euid@),
    {
        ResourceConstraint { constraint: ScopeConstraint::In(euid) }
    }

    /// Resource in the hierarchy of the resource slot.
    pub fn is_in_slot() -> (r: Self)
        ensures
            r@ == ScopeView::InSlot,
    {
        ResourceConstraint { constraint: ScopeConstraint::InSlot }
    }

    /// True when this constraint references the resource slot.
    pub fn has_slot(&self) -> (r: bool)
        ensures
            r == scope_has_slot(self@),
    {
        self.constraint.has_slot()
    }

    /// The underlying scope constraint.
    pub fn as_inner(&self) -> (r: &ScopeConstraint)
        ensures
            r@ == self@,
    {
        &self.constraint
    }
}

impl Clone for ResourceConstraint {
    fn clone(&self) -> (r: Self)
        ensures
            r == *self,
    {
        ResourceConstraint { constraint: self.constraint.clone() }
    }
}

impl PartialEq for ResourceConstraint {
    fn eq(&self, other: &Self) -> (r: bool) {
        self.constraint == other.constraint
    }
}

impl vstd::std_specs::cmp::PartialEqSpecImpl for ResourceConstraint {
    open spec fn obeys_eq_spec() -> bool {
        true
    }

    open spec fn eq_spec(&self, other: &Self) -> bool {
        self@ == other@
    }
}

/// Mathematical model of an action constraint.
pub enum ActionView {
    Any,
    Eq(EntityUidView),
}

/// Constraint on the action a template applies to. Actions never use
/// placeholder slots.
#[derive(Debug)]
pub enum ActionConstraint {
    Any,
    Eq(EntityUID),
}

impl View for ActionConstraint {
    type V = ActionView;

    closed spec fn view(&self) -> ActionView {
        match self {
            ActionConstraint::Any => ActionView::Any,
            ActionConstraint::Eq(e) => ActionView::Eq(e@),
        }
    }
}

impl ActionConstraint {
    /// Unconstrained action.
    pub fn any() -> (r: Self)
        ensures
            r@ == ActionView::Any,
    {
        ActionConstraint::Any
    }

    /// Action equal to a concrete entity.
    pub fn is_eq(euid: EntityUID) -> (r: Self)
        ensures
            r@ == ActionView::Eq(euid@),
    {
        ActionConstraint::Eq(euid)
    }
}

impl Clone for ActionConstraint {
    fn clone(&self) -> (r: Self)
        ensures
            r == *self,
    {
        match self {
            ActionConstraint::Any => ActionConstraint::Any,
            ActionConstraint::Eq(e) => ActionConstraint::Eq(e.clone()),
        }
    }
}

impl PartialEq for ActionConstraint {
    fn eq(&self, other: &Self) -> (r: bool) {
        match (self, other) {
            (ActionConstraint::Any, ActionConstraint::Any) => true,
            (ActionConstraint::Eq(a), ActionConstraint::Eq(b)) => *a == *b,
            _ => false,
        }
    }
}

impl vstd::std_specs::cmp::PartialEqSpecImpl for ActionConstraint {
    open spec fn obeys_eq_spec() -> bool {
        true
    }

    open spec fn eq_spec(&self, other: &Self) -> bool {
        self@ == other@
    }
}

/// Mathematical model of a template body.
pub struct TemplateView {
    pub id: Seq<char>,
    pub effect: Effect,
    pub principal: ScopeView,
    pub action: ActionView,
    pub resource: ScopeView,
    pub condition: Expr,
}

/// The slots a template body references, principal slot first.
pub open spec fn template_slots(t: TemplateView) -> Seq<SlotId> {
    (if scope_has_slot(t.principal) {
        seq![SlotId::Principal]
    } else {
        Seq::empty()
    }) + (if scope_has_slot(t.resource) {
        seq![SlotId::Resource]
    } else {
        Seq::empty()
    })
}

/// How many slots a template body references.
pub open spec fn template_slot_count(t: TemplateView) -> int {
    template_slots(t).len() as int
}

/// Mathematical model of a slot environment.
pub struct SlotEnvView {
    pub principal: Option<EntityUidView>,
    pub resource: Option<EntityUidView>,
}

/// The environment binding no slot at all.
pub open spec fn empty_env() -> SlotEnvView {
    SlotEnvView { principal: None, resource: None }
}

/// True when the environment binds no slot.
pub open spec fn env_is_empty(e: SlotEnvView) -> bool {
    e.principal is None && e.resource is None
}

/// How many slots the environment binds.
pub open spec fn env_len(e: SlotEnvView) -> int {
    (if e.principal is Some {
        1int
    } else {
        0
    }) + (if e.resource is Some {
        1int
    } else {
        0
    })
}

/// The environment after binding one slot to an entity.
pub open spec fn env_insert(e: SlotEnvView, slot: SlotId, value: EntityUidView) -> SlotEnvView {
    match slot {
        SlotId::Principal => SlotEnvView { principal: Some(value), ..e },
        SlotId::Resource => SlotEnvView { resource: Some(value), ..e },
    }
}

/// True when the environment's bound slots are exactly the template's slots.
pub open spec fn env_matches(t: TemplateView, e: SlotEnvView) -> bool {
    &&& (e.principal is Some <==> scope_has_slot(t.principal))
    &&& (e.resource is Some <==> scope_has_slot(t.resource))
}

/// A mapping from slot identifiers to the concrete entities bound to them.
#[derive(Debug)]
pub struct SlotEnv {
    principal: Option<EntityUID>,
    resource: Option<EntityUID>,
}

impl View for SlotEnv {
    type V = SlotEnvView;

    closed spec fn view(&self) -> SlotEnvView {
        SlotEnvView {
            principal: match self.principal {
                Some(ref e) => Some(e@),
                None => None,
            },
            resource: match self.resource {
                Some(ref e) => Some(e@),
                None => None,
            },
        }
    }
}

impl SlotEnv {
    /// The environment binding no slot.
    pub fn new() -> (r: SlotEnv)
        ensures
            r@ == empty_env(),
    {
        SlotEnv { principal: None, resource: None }
    }

    /// Bind one slot to an entity, replacing any previous binding.
    pub fn insert(&mut self, slot: SlotId, value: EntityUID)
        ensures
            final(self)@ == env_insert(old(self)@, slot, value@),
    {
        match slot {
            SlotId::Principal => {
                self.principal = Some(value);
            },
            SlotId::Resource => {
                self.resource = Some(value);
            },
        }
    }

    /// Look up the entity bound to a slot.
    pub fn get(&self, slot: &SlotId) -> (r: Option<&EntityUID>)
        ensures
            match r {
                Some(e) => match slot {
                    SlotId::Principal => self@.principal == Some(e@),
                    SlotId::Resource => self@.resource == Some(e@),
                },
                None => match slot {
                    SlotId::Principal => self@.principal is None,
                    SlotId::Resource => self@.resource is None,
                },
            },
    {
        match slot {
            SlotId::Principal => self.principal.as_ref(),
            SlotId::Resource => self.resource.as_ref(),
        }
    }

    /// True when no slot is bound.
    pub fn is_empty(&self) -> (r: bool)
        ensures
            r == env_is_empty(self@),
    {
        self.principal.is_none() && self.resource.is_none()
    }

    /// How many slots are bound.
    pub fn len(&self) -> (r: usize)
        ensures
            r == env_len(self@),
    {
        let p: usize = if self.principal.is_some() {
            1
        } else {
            0
        };
        let q: usize = if self.resource.is_some() {
            1
        } else {
            0
        };
        p + q
    }
}

impl Clone for SlotEnv {
    fn clone(&self) -> (r: Self)
        ensures
            r@ == self@,
    {
        SlotEnv {
            principal: match &self.principal {
                Some(e) => Some(e.clone()),
                None => None,
            },
            resource: match &self.resource {
                Some(e) => Some(e.clone()),
                None => None,
            },
        }
    }
}

/// An immutable policy body with zero or more placeholder slots, carrying
/// its own identifier.
#[derive(Debug)]
pub struct Template {
    pub(crate) id: PolicyID,
    effect: Effect,
    principal_constraint: PrincipalConstraint,
    action_constraint: ActionConstraint,
    resource_constraint: ResourceConstraint,
    condition: Expr,
}

impl View for Template {
    type V = TemplateView;

    closed spec fn view(&self) -> TemplateView {
        TemplateView {
            id: self.id@,
            effect: self.effect,
            principal: self.principal_constraint@,
            action: self.action_constraint@,
            resource: self.resource_constraint@,
            condition: self.condition,
        }
    }
}

impl DeepView for Template {
    type V = TemplateView;

    open spec fn deep_view(&self) -> TemplateView {
        self.view()
    }
}

impl Template {
    /// Construct a template from its parts.
    pub fn new(
        id: PolicyID,
        effect: Effect,
        principal_constraint: PrincipalConstraint,
        action_constraint: ActionConstraint,
        resource_constraint: ResourceConstraint,
        condition: Expr,
    ) -> (r: Template)
        ensures
            r@ == (TemplateView {
                id: id@,
                effect,
                principal: principal_constraint@,
                action: action_constraint@,
                resource: resource_constraint@,
                condition,
            }),
    {
        Template { id, effect, principal_constraint, action_constraint, resource_constraint, condition }
    }

    /// The template's own identifier.
    pub fn id(&self) -> (r: &PolicyID)
        ensures
            r@ == self@.id,
    {
        &self.id
    }

    /// The template's effect.
    pub fn effect(&self) -> (r: Effect)
        ensures
            r == self@.effect,
    {
        self.effect
    }

    /// True when the principal constraint references the principal slot.
    pub fn has_principal_slot(&self) -> (r: bool)
        ensures
            r == scope_has_slot(self@.principal),
    {
        self.principal_constraint.has_slot()
    }

    /// True when the resource constraint references the resource slot.
    pub fn has_resource_slot(&self) -> (r: bool)
        ensures
            r == scope_has_slot(self@.resource),
    {
        self.resource_constraint.has_slot()
    }

    /// The slots this template references, principal slot first.
    pub fn slots(&self) -> (r: Vec<SlotId>)
        ensures
            r@ == template_slots(self@),
    {
        let mut r: Vec<SlotId> = Vec::new();
        if self.has_principal_slot() {
            r.push(SlotId::Principal);
        }
        if self.has_resource_slot() {
            r.push(SlotId::Resource);
        }
        proof {
            assert(r@ =~= template_slots(self@));
        }
        r
    }

    /// How many slots this template references.
    pub fn slot_count(&self) -> (r: usize)
        ensures
            r == template_slot_count(self@),
    {
        let p: usize = if self.has_principal_slot() {
            1
        } else {
            0
        };
        let q: usize = if self.has_resource_slot() {
            1
        } else {
            0
        };
        proof {
            assert(template_slots(self@).len() == (if scope_has_slot(self@.principal) {
                1int
            } else {
                0
            }) + (if scope_has_slot(self@.resource) {
                1int
            } else {
                0
            }));
        }
        p + q
    }

    /// The template's principal constraint.
    pub fn principal_constraint(&self) -> (r: &PrincipalConstraint)
        ensures
            r@ == self@.principal,
    {
        &self.principal_constraint
    }

    /// The template's action constraint.
    pub fn action_constraint(&self) -> (r: &ActionConstraint)
        ensures
            r@ == self@.action,
    {
        &self.action_constraint
    }

    /// The template's resource constraint.
    pub fn resource_constraint(&self) -> (r: &ResourceConstraint)
        ensures
            r@ == self@.resource,
    {
        &self.resource_constraint
    }

    /// The template's condition expression.
    pub fn condition(&self) -> (r: Expr)
        ensures
            r == self@.condition,
    {
        self.condition
    }

    /// Produce a concrete policy by binding every slot of a template.
    /// Fails when the environment's bound slots are not exactly the
    /// template's slots.
    pub fn link(template: Arc<Template>, new_id: PolicyID, values: SlotEnv) -> (r: Result<
        Policy,
        LinkingError,
    >)
        ensures
            match r {
                Ok(p) => {
                    &&& env_matches(template@, values@)
                    &&& p@ == (PolicyView { id: new_id@, template: template@, env: values@ })
                },
                Err(e) => {
                    &&& !env_matches(template@, values@)
                    &&& e@ == (LinkingErrorView::ArityError {
                        slots: template_slot_count(template@),
                        vals: env_len(values@),
                    })
                },
            },
    {
        let principal_ok = template.has_principal_slot() == values.get(
            &SlotId::Principal,
        ).is_some();
        let resource_ok = template.has_resource_slot() == values.get(&SlotId::Resource).is_some();
        if principal_ok && resource_ok {
            Ok(Policy { id: new_id, template, env: values })
        } else {
            Err(
                LinkingError::ArityError {
                    num_of_template_slots: template.slot_count(),
                    num_of_provided_vals: values.len(),
                },
            )
        }
    }

    /// Convert a static policy into the pair of a zero-slot template and
    /// the concrete policy linking it with an empty environment, both under
    /// the static policy's identifier.
    pub fn link_static_policy(p: StaticPolicy) -> (r: (Arc<Template>, Policy))
        ensures
            r.0@ == p@,
            template_slot_count(p@) == 0,
            r.1@ == (PolicyView { id: p@.id, template: p@, env: empty_env() }),
    {
        proof {
            use_type_invariant(&p);
        }
        let StaticPolicy { body } = p;
        let id = body.id.clone();
        let t = Arc::new(body);
        let link = Policy { id, template: Arc::clone(&t), env: SlotEnv::new() };
        (t, link)
    }
}

impl Clone for Template {
    fn clone(&self) -> (r: Self)
        ensures
            r == *self,
    {
        Template {
            id: self.id.clone(),
            effect: self.effect,
            principal_constraint: self.principal_constraint.clone(),
            action_constraint: self.action_constraint.clone(),
            resource_constraint: self.resource_constraint.clone(),
            condition: self.condition,
        }
    }
}

impl PartialEq for Template {
    fn eq(&self, other: &Self) -> (r: bool) {
        self.id == other.id && self.effect == other.effect && self.principal_constraint
            == other.principal_constraint && self.action_constraint == other.action_constraint
            && self.resource_constraint == other.resource_constraint && self.condition
            == other.condition
    }
}

impl vstd::std_specs::cmp::PartialEqSpecImpl for Template {
    open spec fn obeys_eq_spec() -> bool {
        true
    }

    open spec fn eq_spec(&self, other: &Self) -> bool {
        self@ == other@
    }
}

/// The error raised when a static policy would contain a placeholder slot.
#[derive(Debug, Clone, Copy, PartialEq, Eq, Structural)]
pub enum UnexpectedSlotError {
    FoundSlot(SlotId),
}

/// A policy body with no slots. It is a trivial template paired one-to-one
/// with its own link.
#[derive(Debug)]
pub struct StaticPolicy {
    body: Template,
}

impl View for StaticPolicy {
    type V = TemplateView;

    closed spec fn view(&self) -> TemplateView {
        self.body@
    }
}

impl StaticPolicy {
    #[verifier::type_invariant]
    spec fn slot_free(&self) -> bool {
        template_slot_count(self@) == 0
    }

    /// Construct a slot-free policy from its parts. Fails when one of the
    /// scope constraints references a slot; the error names the first
    /// offending slot, principal before resource.
    pub fn new(
        id: PolicyID,
        effect: Effect,
        principal_constraint: PrincipalConstraint,
        action_constraint: ActionConstraint,
        resource_constraint: ResourceConstraint,
        condition: Expr,
    ) -> (r: Result<StaticPolicy, UnexpectedSlotError>)
        ensures
            ({
                let tv = TemplateView {
                    id: id@,
                    effect,
                    principal: principal_constraint@,
                    action: action_constraint@,
                    resource: resource_constraint@,
                    condition,
                };
                match r {
                    Ok(p) => template_slot_count(tv) == 0 && p@ == tv,
                    Err(e) => template_slot_count(tv) != 0 && e == (if scope_has_slot(tv.principal) {
                        UnexpectedSlotError::FoundSlot(SlotId::Principal)
                    } else {
                        UnexpectedSlotError::FoundSlot(SlotId::Resource)
                    }),
                }
            }),
    {
        if principal_constraint.has_slot() {
            return Err(UnexpectedSlotError::FoundSlot(SlotId::Principal));
        }
        if resource_constraint.has_slot() {
            return Err(UnexpectedSlotError::FoundSlot(SlotId::Resource));
        }
        Ok(
            StaticPolicy {
                body: Template::new(
                    id,
                    effect,
                    principal_constraint,
                    action_constraint,
                    resource_constraint,
                    condition,
                ),
            },
        )
    }

    /// The static policy's identifier.
    pub fn id(&self) -> (r: &PolicyID)
        ensures
            r@ == self@.id,
    {
        &self.body.id
    }

    /// The static policy's effect.
    pub fn effect(&self) -> (r: Effect)
        ensures
            r == self@.effect,
    {
        self.body.effect()
    }
}

impl Clone for StaticPolicy {
    fn clone(&self) -> (r: Self)
        ensures
            r == *self,
    {
        proof {
            use_type_invariant(self);
        }
        StaticPolicy { body: self.body.clone() }
    }
}

/// Mathematical model of a linking failure.
pub enum LinkingErrorView {
    /// The environment does not bind exactly the template's slots.
    ArityError { slots: int, vals: int },
    /// The named template is not present in the set.
    NoSuchTemplate { id: Seq<char> },
    /// The link's identifier collides with an identifier already in use.
    PolicyIdConflict { id: Seq<char> },
}

/// Failure of a linking operation.
#[derive(Debug)]
pub enum LinkingError {
    /// The environment does not bind exactly the template's slots.
    ArityError { num_of_template_slots: usize, num_of_provided_vals: usize },
    /// The named template is not present in the set.
    NoSuchTemplate { id: PolicyID },
    /// The link's identifier collides with an identifier already in use.
    PolicyIdConflict { id: PolicyID },
}

impl View for LinkingError {
    type V = LinkingErrorView;

    open spec fn view(&self) -> LinkingErrorView {
        match self {
            LinkingError::ArityError { num_of_template_slots, num_of_provided_vals } => (
            LinkingErrorView::ArityError {
                slots: *num_of_template_slots as int,
                vals: *num_of_provided_vals as int,
            }),
            LinkingError::NoSuchTemplate { id } => (LinkingErrorView::NoSuchTemplate { id: id@ }),
            LinkingError::PolicyIdConflict { id } => (LinkingErrorView::PolicyIdConflict {
                id: id@,
            }),
        }
    }
}

/// Mathematical model of a concrete, executable policy.
pub struct PolicyView {
    pub id: Seq<char>,
    pub template: TemplateView,
    pub env: SlotEnvView,
}

/// A concrete, executable policy: a shared reference to a template together
/// with an environment binding the template's slots, under the link's own
/// identifier.
#[derive(Debug)]
pub struct Policy {
    pub(crate) id: PolicyID,
    pub(crate) template: Arc<Template>,
    pub(crate) env: SlotEnv,
}

impl View for Policy {
    type V = PolicyView;

    closed spec fn view(&self) -> PolicyView {
        PolicyView { id: self.id@, template: self.template@, env: self.env@ }
    }
}

impl DeepView for Policy {
    type V = PolicyView;

    open spec fn deep_view(&self) -> PolicyView {
        self.view()
    }
}

impl Policy {
    /// The link's own identifier.
    pub fn id(&self) -> (r: &PolicyID)
        ensures
            r@ == self@.id,
    {
        &self.id
    }

    /// The template this link instantiates, as a shared handle.
    pub fn template_arc(&self) -> (r: &Arc<Template>)
        ensures
            r@ == self@.template,
    {
        &self.template
    }

    /// The template this link instantiates.
    pub fn template(&self) -> (r: &Template)
        ensures
            r@ == self@.template,
    {
        &self.template
    }

    /// The policy's effect.
    pub fn effect(&self) -> (r: Effect)
        ensures
            r == self@.template.effect,
    {
        self.template.effect()
    }

    /// The environment binding the template's slots.
    pub fn env(&self) -> (r: &SlotEnv)
        ensures
            r@ == self@.env,
    {
        &self.env
    }

    /// True when this link binds no slot, that is, when it is the link of a
    /// static policy or of a slot-free template.
    pub fn is_static(&self) -> (r: bool)
        ensures
            r == env_is_empty(self@.env),
    {
        self.env.is_empty()
    }

    /// Bind a template handle and an environment under a link identifier,
    /// without holding the environment against the template's slots. Used
    /// when rebuilding a set from its flat form, whose environments are
    /// taken as they stand.
    pub(crate) fn assemble(id: PolicyID, template: Arc<Template>, env: SlotEnv) -> (r: Policy)
        ensures
            r@ == (PolicyView { id: id@, template: template@, env: env@ }),
    {
        Policy { id, template, env }
    }

    /// The concrete policy a static policy denotes: its own body linked
    /// with an empty environment.
    pub fn from_static(p: StaticPolicy) -> (r: Policy)
        ensures
            r@ == (PolicyView { id: p@.id, template: p@, env: empty_env() }),
    {
        let (_t, link) = Template::link_static_policy(p);
        link
    }
}

impl Clone for Policy {
    fn clone(&self) -> (r: Self)
        ensures
            r@ == self@,
    {
        Policy {
            id: self.id.clone(),
            template: Arc::clone(&self.template),
            env: self.env.clone(),
        }
    }
}


/// Text of an effect.
pub open spec fn effect_text(e: Effect) -> Seq<char> {
    match e {
        Effect::Permit => "permit"@,
        Effect::Forbid => "forbid"@,
    }
}

/// Text of a condition expression.
pub open spec fn expr_text(e: Expr) -> Seq<char> {
    match e {
        Expr::Lit(b) => if b {
            "true"@
        } else {
            "false"@
        },
    }
}

/// Text of a principal constraint, the slot unfilled.
pub open spec fn principal_text(s: ScopeView) -> Seq<char> {
    match s {
        ScopeView::Any => "principal"@,
        ScopeView::Eq(e) => "principal == "@ + euid_text(e),
        ScopeView::EqSlot => "principal == ?principal"@,
        ScopeView::In(e) => "principal in "@ + euid_text(e),
        ScopeView::InSlot => "principal in ?principal"@,
    }
}

/// Text of a resource constraint, the slot unfilled.
pub open spec fn resource_text(s: ScopeView) -> Seq<char> {
    match s {
        ScopeView::Any => "resource"@,
        ScopeView::Eq(e) => "resource == "@ + euid_text(e),
        ScopeView::EqSlot => "resource == ?resource"@,
        ScopeView::In(e) => "resource in "@ + euid_text(e),
        ScopeView::InSlot => "resource in ?resource"@,
    }
}

/// Text of an action constraint.
pub open spec fn action_text(a: ActionView) -> Seq<char> {
    match a {
        ActionView::Any => "action"@,
        ActionView::Eq(e) => "action == "@ + euid_text(e),
    }
}

/// Text of a template: its whole policy form, slots unfilled.
pub open spec fn template_text(t: TemplateView) -> Seq<char> {
    effect_text(t.effect) + "("@ + principal_text(t.principal) + ", "@ + action_text(t.action)
        + ", "@ + resource_text(t.resource) + ") when { "@ + expr_text(t.condition) + " };"@
}

/// Text of a principal constraint with its slot replaced by the entity the
/// environment binds to it, where one is bound.
pub open spec fn linked_principal_text(s: ScopeView, env: SlotEnvView) -> Seq<char> {
    match s {
        ScopeView::EqSlot => match env.principal {
            Some(e) => "principal == "@ + euid_text(e),
            None => "principal == ?principal"@,
        },
        ScopeView::InSlot => match env.principal {
            Some(e) => "principal in "@ + euid_text(e),
            None => "principal in ?principal"@,
        },
        _ => principal_text(s),
    }
}

/// Text of a resource constraint with its slot replaced by the entity the
/// environment binds to it, where one is bound.
pub open spec fn linked_resource_text(s: ScopeView, env: SlotEnvView) -> Seq<char> {
    match s {
        ScopeView::EqSlot => match env.resource {
            Some(e) => "resource == "@ + euid_text(e),
            None => "resource == ?resource"@,
        },
        ScopeView::InSlot => match env.resource {
            Some(e) => "resource in "@ + euid_text(e),
            None => "resource in ?resource"@,
        },
        _ => resource_text(s),
    }
}

/// Text of a concrete policy: its template's policy form with each slot
/// replaced by the entity bound to it.
pub open spec fn policy_text(p: PolicyView) -> Seq<char> {
    effect_text(p.template.effect) + "("@ + linked_principal_text(p.template.principal, p.env)
        + ", "@ + action_text(p.template.action) + ", "@ + linked_resource_text(
        p.template.resource,
        p.env,
    ) + ") when { "@ + expr_text(p.template.condition) + " };"@
}

impl Expr {
    /// Render the condition expression as text.
    pub fn to_text(&self) -> (r: String)
        ensures
            r@ == expr_text(*self),
    {
        match self {
            Expr::Lit(b) => if *b {
                "true".to_string()
            } else {
                "false".to_string()
            },
        }
    }
}

impl PrincipalConstraint {
    /// Render the constraint as it appears in policy text.
    pub fn to_text(&self) -> (r: String)
        ensures
            r@ == principal_text(self@),
    {
        match &self.constraint {
            ScopeConstraint::Any => "principal".to_string(),
            ScopeConstraint::Eq(e) => {
                let mut s = "principal == ".to_string();
                let t = e.to_text();
                s.append(t.as_str());
                s
            },
            ScopeConstraint::EqSlot => "principal == ?principal".to_string(),
            ScopeConstraint::In(e) => {
                let mut s = "principal in ".to_string();
                let t = e.to_text();
                s.append(t.as_str());
                s
            },
            ScopeConstraint::InSlot => "principal in ?principal".to_string(),
        }
    }
}

impl ResourceConstraint {
    /// Render the constraint as it appears in policy text.
    pub fn to_text(&self) -> (r: String)
        ensures
            r@ == resource_text(self@),
    {
        match &self.constraint {
            ScopeConstraint::Any => "resource".to_string(),
            ScopeConstraint::Eq(e) => {
                let mut s = "resource == ".to_string();
                let t = e.to_text();
                s.append(t.as_str());
                s
            },
            ScopeConstraint::EqSlot => "resource == ?resource".to_string(),
            ScopeConstraint::In(e) => {
                let mut s = "resource in ".to_string();
                let t = e.to_text();
                s.append(t.as_str());
                s
            },
            ScopeConstraint::InSlot => "resource in ?resource".to_string(),
        }
    }
}

impl ActionConstraint {
    /// Render the constraint as it appears in policy text.
    pub fn to_text(&self) -> (r: String)
        ensures
            r@ == action_text(self@),
    {
        match self {
            ActionConstraint::Any => "action".to_string(),
            ActionConstraint::Eq(e) => {
                let mut s = "action == ".to_string();
                let t = e.to_text();
                s.append(t.as_str());
                s
            },
        }
    }
}

fn linked_principal_to_text(c: &PrincipalConstraint, env: &SlotEnv) -> (r: String)
    ensures
        r@ == linked_principal_text(c@, env@),
{
    match &c.constraint {
        ScopeConstraint::EqSlot => match &env.principal {
            Some(e) => {
                let mut s = "principal == ".to_string();
                let t = e.to_text();
                s.append(t.as_str());
                s
            },
            None => "principal == ?principal".to_string(),
        },
        ScopeConstraint::InSlot => match &env.principal {
            Some(e) => {
                let mut s = "principal in ".to_string();
                let t = e.to_text();
                s.append(t.as_str());
                s
            },
            None => "principal in ?principal".to_string(),
        },
        _ => c.to_text(),
    }
}

fn linked_resource_to_text(c: &ResourceConstraint, env: &SlotEnv) -> (r: String)
    ensures
        r@ == linked_resource_text(c@, env@),
{
    match &c.constraint {
        ScopeConstraint::EqSlot => match &env.resource {
            Some(e) => {
                let mut s = "resource == ".to_string();
                let t = e.to_text();
                s.append(t.as_str());
                s
            },
            None => "resource == ?resource".to_string(),
        },
        ScopeConstraint::InSlot => match &env.resource {
            Some(e) => {
                let mut s = "resource in ".to_string();
                let t = e.to_text();
                s.append(t.as_str());
                s
            },
            None => "resource in ?resource".to_string(),
        },
        _ => c.to_text(),
    }
}

impl Template {
    /// Render the template in its policy text form, slots unfilled.
    pub fn to_text(&self) -> (r: String)
        ensures
            r@ == template_text(self@),
    {
        let mut out: String = match self.effect {
            Effect::Permit => "permit".to_string(),
            Effect::Forbid => "forbid".to_string(),
        };
        out.append("(");
        let p = self.principal_constraint.to_text();
        out.append(p.as_str());
        out.append(", ");
        let a = self.action_constraint.to_text();
        out.append(a.as_str());
        out.append(", ");
        let q = self.resource_constraint.to_text();
        out.append(q.as_str());
        out.append(") when { ");
        let c = self.condition.to_text();
        out.append(c.as_str());
        out.append(" };");
        out
    }
}

impl Policy {
    /// Render the concrete policy in policy text form, each slot replaced
    /// by the entity bound to it.
    pub fn to_text(&self) -> (r: String)
        ensures
            r@ == policy_text(self@),
    {
        let t: &Template = &self.template;
        let mut out: String = match t.effect {
            Effect::Permit => "permit".to_string(),
            Effect::Forbid => "forbid".to_string(),
        };
        out.append("(");
        let p = linked_principal_to_text(&t.principal_constraint, &self.env);
        out.append(p.as_str());
        out.append(", ");
        let a = t.action_constraint.to_text();
        out.append(a.as_str());
        out.append(", ");
        let q = linked_resource_to_text(&t.resource_constraint, &self.env);
        out.append(q.as_str());
        out.append(") when { ");
        let c = t.condition.to_text();
        out.append(c.as_str());
        out.append(" };");
        out
    }
}

} // verus!
