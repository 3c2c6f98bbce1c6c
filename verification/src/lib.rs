//! A safe, verified handle layer over a hierarchical document model for a
//! structured scientific markup format.
//!
//! The document is a strict ownership tree: a root document owns a model,
//! the model owns typed entities (parameters, reactions, rules), and a
//! reaction owns its species references.  Consumers read and mutate nodes
//! through typed handles; a dynamic borrow tracker enforces single-writer /
//! many-reader discipline, an upcast mechanism reinterprets a handle at an
//! ancestor type of the node-type hierarchy without touching the node, and
//! an annotation subsystem stores raw or type-tagged structured markup in a
//! reserved metadata slot of every node.

pub mod annotation;
pub mod document;
pub mod error;
pub mod model;
pub mod parameter;
pub mod parse;
pub mod roundtrip;
pub mod rule;
pub mod sbase;
pub mod speciesref;
pub mod xml;

pub use document::{Attrs, BorrowState, Node, NodeKind, SBMLDocument};
pub use error::SbmlError;
pub use model::{Model, Reaction};
pub use parameter::{Parameter, ParameterBuilder};
pub use rule::{AssignmentRuleBuilder, RateRuleBuilder, Rule, RuleType};
pub use sbase::SBase;
pub use speciesref::{
    SimpleSpeciesReference, SpeciesReference, SpeciesReferenceBuilder, SpeciesReferenceType,
};
pub use xml::{Element, Field};
