//! Shared vocabulary of the entity JSON (de)serialization collaborator:
//! the kinds of embedded escape, and the places in a document where a
//! deserialization error can arise, with their diagnostic texts.

use vstd::prelude::*;
use vstd::string::StringExecFns;

use crate::ids::{euid_text, EntityUID, EntityUidView};

verus! {

/// Kind of embedded escape in the entity JSON format.
#[derive(Debug, Clone, Copy, PartialEq, Eq, Structural)]
pub enum EscapeKind {
    /// Escape `__expr`, kept for older documents.
    Expr,
    /// Escape `__entity`.
    Entity,
    /// Escape `__extn`.
    Extension,
}

/// Text of an escape kind, as it appears in documents.
pub open spec fn escape_kind_text(k: EscapeKind) -> Seq<char> {
    match k {
        EscapeKind::Expr => "__expr"@,
        EscapeKind::Entity => "__entity"@,
        EscapeKind::Extension => "__extn"@,
    }
}

impl EscapeKind {
    /// Render the escape kind as it appears in documents.
    pub fn to_text(&self) -> (r: String)
        ensures
            r@ == escape_kind_text(*self),
    {
        match self {
            EscapeKind::Expr => "__expr".to_string(),
            EscapeKind::Entity => "__entity".to_string(),
            EscapeKind::Extension => "__extn".to_string(),
        }
    }
}

/// Mathematical model of an error context.
pub enum JsonErrorContextView {
    EntityAttribute { uid: EntityUidView, attr: Seq<char> },
    EntityParents { uid: EntityUidView },
    EntityUid,
    Context,
}

/// Where in an entity JSON document a deserialization error arose.
#[derive(Debug)]
pub enum JsonDeserializationErrorContext {
    /// While deserializing this attribute of this entity.
    EntityAttribute { uid: EntityUID, attr: String },
    /// While deserializing the parents field of this entity.
    EntityParents { uid: EntityUID },
    /// While deserializing an entity's own identifier.
    EntityUid,
    /// While deserializing the request context.
    Context,
}

impl View for JsonDeserializationErrorContext {
    type V = JsonErrorContextView;

    open spec fn view(&self) -> JsonErrorContextView {
        match self {
            JsonDeserializationErrorContext::EntityAttribute { uid, attr } => (
            JsonErrorContextView::EntityAttribute { uid: uid@, attr: attr@ }),
            JsonDeserializationErrorContext::EntityParents { uid } => (
            JsonErrorContextView::EntityParents { uid: uid@ }),
            JsonDeserializationErrorContext::EntityUid => JsonErrorContextView::EntityUid,
            JsonDeserializationErrorContext::Context => JsonErrorContextView::Context,
        }
    }
}

/// Diagnostic text of an error context.
pub open spec fn context_text(c: JsonErrorContextView) -> Seq<char> {
    match c {
        JsonErrorContextView::EntityAttribute { uid, attr } => "in attribute `"@ + attr + "` on `"@
            + euid_text(uid) + "`"@,
        JsonErrorContextView::EntityParents { uid } => "in parents field of `"@ + euid_text(uid)
            + "`"@,
        JsonErrorContextView::EntityUid => "in uid field of <unknown entity>"@,
        JsonErrorContextView::Context => "while parsing context"@,
    }
}

impl JsonDeserializationErrorContext {
    /// Render the context for diagnostics.
    pub fn to_text(&self) -> (r: String)
        ensures
            r@ == context_text(self@),
    {
        match self {
            JsonDeserializationErrorContext::EntityAttribute { uid, attr } => {
                let mut s = "in attribute `".to_string();
                s.append(attr.as_str());
                s.append("` on `");
                let u = uid.to_text();
                s.append(u.as_str());
                s.append("`");
                s
            },
            JsonDeserializationErrorContext::EntityParents { uid } => {
                let mut s = "in parents field of `".to_string();
                let u = uid.to_text();
                s.append(u.as_str());
                s.append("`");
                s
            },
            JsonDeserializationErrorContext::EntityUid => "in uid field of <unknown entity>"
                .to_string(),
            JsonDeserializationErrorContext::Context => "while parsing context".to_string(),
        }
    }
}

impl Clone for JsonDeserializationErrorContext {
    fn clone(&self) -> (r: Self)
        ensures
            r@ == self@,
    {
        match self {
            JsonDeserializationErrorContext::EntityAttribute { uid, attr } => (
            JsonDeserializationErrorContext::EntityAttribute {
                uid: uid.clone(),
                attr: attr.clone(),
            }),
            JsonDeserializationErrorContext::EntityParents { uid } => (
            JsonDeserializationErrorContext::EntityParents { uid: uid.clone() }),
            JsonDeserializationErrorContext::EntityUid => (
            JsonDeserializationErrorContext::EntityUid),
            JsonDeserializationErrorContext::Context => JsonDeserializationErrorContext::Context,
        }
    }
}

} // verus!
