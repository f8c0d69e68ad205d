//! Identifier types: policy identifiers, template slot identifiers, and
//! entity identifiers bound to slots.

use vstd::prelude::*;
use vstd::string::StringExecFns;

verus! {

/// Identifier of a policy, template, or link. Equality is exact string
/// equality; no normalization is performed.
#[derive(Debug)]
pub struct PolicyID {
    id: String,
}

impl View for PolicyID {
    type V = Seq<char>;

    closed spec fn view(&self) -> Seq<char> {
        self.id@
    }
}

impl DeepView for PolicyID {
    type V = Seq<char>;

    open spec fn deep_view(&self) -> Seq<char> {
        self.view()
    }
}

impl PolicyID {
    /// Create a `PolicyID` from a string.
    pub fn from_string(s: &str) -> (r: PolicyID)
        ensures
            r@ == s@,
    {
        PolicyID { id: s.to_string() }
    }

    /// The identifier as text.
    pub fn as_text(&self) -> (r: &str)
        ensures
            r@ == self@,
    {
        self.id.as_str()
    }
}

impl Clone for PolicyID {
    fn clone(&self) -> (r: Self)
        ensures
            r == *self,
    {
        PolicyID { id: self.id.clone() }
    }
}

impl PartialEq for PolicyID {
    fn eq(&self, other: &Self) -> (r: bool) {
        self.id == other.id
    }
}

impl vstd::std_specs::cmp::PartialEqSpecImpl for PolicyID {
    open spec fn obeys_eq_spec() -> bool {
        true
    }

    open spec fn eq_spec(&self, other: &Self) -> bool {
        self@ == other@
    }
}

/// Identifier of a placeholder slot inside a template. The set of slots is
/// closed: a template may use the principal slot, the resource slot, both,
/// or neither.
#[derive(Debug, Clone, Copy, PartialEq, Eq, Structural)]
pub enum SlotId {
    Principal,
    Resource,
}

/// Text of a slot identifier as it appears in policy text.
pub open spec fn slot_text(s: SlotId) -> Seq<char> {
    match s {
        SlotId::Principal => "?principal"@,
        SlotId::Resource => "?resource"@,
    }
}

impl SlotId {
    /// The principal slot.
    pub fn principal() -> (r: SlotId)
        ensures
            r == SlotId::Principal,
    {
        SlotId::Principal
    }

    /// The resource slot.
    pub fn resource() -> (r: SlotId)
        ensures
            r == SlotId::Resource,
    {
        SlotId::Resource
    }

    /// Render the slot as it appears in policy text.
    pub fn to_text(&self) -> (r: String)
        ensures
            r@ == slot_text(*self),
    {
        match self {
            SlotId::Principal => "?principal".to_string(),
            SlotId::Resource => "?resource".to_string(),
        }
    }
}

/// Mathematical model of an entity identifier.
pub struct EntityUidView {
    pub ty: Seq<char>,
    pub eid: Seq<char>,
}

/// Text of an entity identifier: the type name, then the entity id in
/// quotes.
pub open spec fn euid_text(e: EntityUidView) -> Seq<char> {
    e.ty + "::\""@ + e.eid + "\""@
}

/// Identifier of a concrete entity: an entity type name together with the
/// entity's own identifier within that type.
#[derive(Debug)]
pub struct EntityUID {
    ty: String,
    eid: String,
}

impl View for EntityUID {
    type V = EntityUidView;

    closed spec fn view(&self) -> EntityUidView {
        EntityUidView { ty: self.ty@, eid: self.eid@ }
    }
}

impl DeepView for EntityUID {
    type V = EntityUidView;

    open spec fn deep_view(&self) -> EntityUidView {
        self.view()
    }
}

impl EntityUID {
    /// Create an entity identifier from its type name and entity id.
    pub fn from_components(ty: String, eid: String) -> (r: EntityUID)
        ensures
            r@.ty == ty@,
            r@.eid == eid@,
    {
        EntityUID { ty, eid }
    }

    /// Create an entity identifier with the given entity id and a fixed
    /// placeholder type name, for convenience in tests and examples.
    pub fn with_eid(eid: &str) -> (r: EntityUID)
        ensures
            r@.ty == "test_entity_type"@,
            r@.eid == eid@,
    {
        EntityUID { ty: "test_entity_type".to_string(), eid: eid.to_string() }
    }
}

impl EntityUID {
    /// The entity's type name.
    pub fn entity_type(&self) -> (r: &str)
        ensures
            r@ == self@.ty,
    {
        self.ty.as_str()
    }

    /// The entity's own identifier within its type.
    pub fn eid(&self) -> (r: &str)
        ensures
            r@ == self@.eid,
    {
        self.eid.as_str()
    }

    /// Render the identifier as text.
    pub fn to_text(&self) -> (r: String)
        ensures
            r@ == euid_text(self@),
    {
        let mut s = self.ty.clone();
        s.append("::\"");
        s.append(self.eid.as_str());
        s.append("\"");
        s
    }
}

impl Clone for EntityUID {
    fn clone(&self) -> (r: Self)
        ensures
            r == *self,
    {
        EntityUID { ty: self.ty.clone(), eid: self.eid.clone() }
    }
}

impl PartialEq for EntityUID {
    fn eq(&self, other: &Self) -> (r: bool) {
        self.ty == other.ty && self.eid == other.eid
    }
}

impl vstd::std_specs::cmp::PartialEqSpecImpl for EntityUID {
    open spec fn obeys_eq_spec() -> bool {
        true
    }

    open spec fn eq_spec(&self, other: &Self) -> bool {
        self@ == other@
    }
}

} // verus!
