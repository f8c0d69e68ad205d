//! In-memory store for an authorization-policy engine: policy templates with
//! named placeholder slots, the concrete links instantiated from them, and the
//! transactional operations that keep the two co-dependent maps consistent.

mod id_map;
pub mod ids;
pub mod json_err;
pub mod laws;
pub mod literal;
pub mod policy;
pub mod policy_set;

pub use ids::{EntityUID, PolicyID, SlotId};
pub use json_err::{EscapeKind, JsonDeserializationErrorContext};
pub use policy::{
    ActionConstraint, Effect, Expr, LinkingError, Policy, PrincipalConstraint, ResourceConstraint,
    SlotEnv, StaticPolicy, Template, UnexpectedSlotError,
};
pub use literal::{LiteralPolicy, LiteralPolicySet, ReificationError};
pub use policy_set::{PolicySet, PolicySetError};
