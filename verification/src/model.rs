//! The model and reaction handles and the owner-provided factories.
//!
//! Entities are created only through their owner: the document creates
//! the model, the model creates parameters, rules and reactions, and a
//! reaction creates its species references.  Each factory appends one
//! fresh node under its owner and hands back a typed handle to it.

use vstd::prelude::*;
use vstd::string::StringExecFns;
use crate::document::{
    appended, created_rule, created_species_ref, created_with_id, doc_wf, NodeKind, SBMLDocument,
};
use crate::parameter::Parameter;
use crate::rule::Rule;
use crate::sbase::SBase;
use crate::speciesref::{SpeciesReference, SpeciesReferenceType};

verus! {

/// A handle for the model node the document owns.
#[derive(Clone, Copy)]
pub struct Model {
    /// The index of the model's node in the document's arena.
    pub idx: usize,
}

/// A handle for one reaction node.
#[derive(Clone, Copy)]
pub struct Reaction {
    /// The index of the reaction's node in the document's arena.
    pub idx: usize,
}

impl Model {
    /// Whether the handle points at a live model node.
    pub open spec fn valid(self, d: &SBMLDocument) -> bool {
        (self.idx as int) < d.nodes@.len() && d.nodes@[self.idx as int].kind == NodeKind::Model
    }

    /// Creates the model node inside the document and hands back its handle.
    pub fn new(doc: &mut SBMLDocument, id: &str) -> (r: Model)
        ensures
            appended(old(doc), final(doc)),
            r.idx as int == old(doc).nodes@.len(),
            r.valid(final(doc)),
            created_with_id(
                final(doc).nodes@[r.idx as int],
                NodeKind::Model,
                None,
                id@,
            ),
            doc_wf(old(doc)) ==> doc_wf(final(doc)),
    {
        let idx = doc.push_node(NodeKind::Model, None);
        doc.nodes[idx].attrs.id = String::from_str(id);
        proof {
            assert(doc.nodes@ =~= old(doc).nodes@.push(doc.nodes@[idx as int]));
        }
        Model { idx }
    }

    /// Reinterprets the handle at the root of the node-type hierarchy.
    pub fn upcast(&self) -> (r: SBase)
        ensures
            r.idx == self.idx,
    {
        SBase { idx: self.idx }
    }

    /// The model's identifier.
    pub fn id(&self, doc: &SBMLDocument) -> (r: String)
        requires
            self.valid(doc),
        ensures
            r@ == doc.nodes@[self.idx as int].attrs.id@,
    {
        self.upcast().id(doc)
    }

    /// Creates a parameter node under the model.
    pub fn create_parameter(&self, doc: &mut SBMLDocument, id: &str) -> (r: Parameter)
        requires
            self.valid(old(doc)),
        ensures
            appended(old(doc), final(doc)),
            r.idx as int == old(doc).nodes@.len(),
            r.valid(final(doc)),
            created_with_id(
                final(doc).nodes@[r.idx as int],
                NodeKind::Parameter,
                Some(self.idx),
                id@,
            ),
            doc_wf(old(doc)) ==> doc_wf(final(doc)),
    {
        let idx = doc.push_node(NodeKind::Parameter, Some(self.idx));
        doc.nodes[idx].attrs.id = String::from_str(id);
        proof {
            assert(doc.nodes@ =~= old(doc).nodes@.push(doc.nodes@[idx as int]));
        }
        Parameter { idx }
    }

    /// Creates a rate rule node under the model.
    pub fn create_rate_rule(&self, doc: &mut SBMLDocument, variable: &str, formula: &str) -> (r:
        Rule)
        requires
            self.valid(old(doc)),
        ensures
            appended(old(doc), final(doc)),
            r.idx as int == old(doc).nodes@.len(),
            r.valid(final(doc)),
            created_rule(
                final(doc).nodes@[r.idx as int],
                NodeKind::RateRule,
                Some(self.idx),
                variable@,
                formula@,
            ),
            doc_wf(old(doc)) ==> doc_wf(final(doc)),
    {
        let idx = doc.push_node(NodeKind::RateRule, Some(self.idx));
        doc.nodes[idx].attrs.variable = String::from_str(variable);
        doc.nodes[idx].attrs.formula = String::from_str(formula);
        proof {
            assert(doc.nodes@ =~= old(doc).nodes@.push(doc.nodes@[idx as int]));
        }
        Rule { idx }
    }

    /// Creates an assignment rule node under the model.
    pub fn create_assignment_rule(
        &self,
        doc: &mut SBMLDocument,
        variable: &str,
        formula: &str,
    ) -> (r: Rule)
        requires
            self.valid(old(doc)),
        ensures
            appended(old(doc), final(doc)),
            r.idx as int == old(doc).nodes@.len(),
            r.valid(final(doc)),
            created_rule(
                final(doc).nodes@[r.idx as int],
                NodeKind::AssignmentRule,
                Some(self.idx),
                variable@,
                formula@,
            ),
            doc_wf(old(doc)) ==> doc_wf(final(doc)),
    {
        let idx = doc.push_node(NodeKind::AssignmentRule, Some(self.idx));
        doc.nodes[idx].attrs.variable = String::from_str(variable);
        doc.nodes[idx].attrs.formula = String::from_str(formula);
        proof {
            assert(doc.nodes@ =~= old(doc).nodes@.push(doc.nodes@[idx as int]));
        }
        Rule { idx }
    }

    /// Creates a reaction node under the model.
    pub fn create_reaction(&self, doc: &mut SBMLDocument, id: &str) -> (r: Reaction)
        requires
            self.valid(old(doc)),
        ensures
            appended(old(doc), final(doc)),
            r.idx as int == old(doc).nodes@.len(),
            r.valid(final(doc)),
            created_with_id(
                final(doc).nodes@[r.idx as int],
                NodeKind::Reaction,
                Some(self.idx),
                id@,
            ),
            doc_wf(old(doc)) ==> doc_wf(final(doc)),
    {
        let idx = doc.push_node(NodeKind::Reaction, Some(self.idx));
        doc.nodes[idx].attrs.id = String::from_str(id);
        proof {
            assert(doc.nodes@ =~= old(doc).nodes@.push(doc.nodes@[idx as int]));
        }
        Reaction { idx }
    }
}

impl Reaction {
    /// Whether the handle points at a live reaction node.
    pub open spec fn valid(self, d: &SBMLDocument) -> bool {
        (self.idx as int) < d.nodes@.len() && d.nodes@[self.idx as int].kind == NodeKind::Reaction
    }

    /// Reinterprets the handle at the root of the node-type hierarchy.
    pub fn upcast(&self) -> (r: SBase)
        ensures
            r.idx == self.idx,
    {
        SBase { idx: self.idx }
    }

    /// The reaction's identifier.
    pub fn id(&self, doc: &SBMLDocument) -> (r: String)
        requires
            self.valid(doc),
        ensures
            r@ == doc.nodes@[self.idx as int].attrs.id@,
    {
        self.upcast().id(doc)
    }

    /// Creates a reactant species reference under the reaction, with the
    /// given species and stoichiometry bit pattern.
    pub fn create_reactant(&self, doc: &mut SBMLDocument, sid: &str, stoichiometry: u64) -> (r:
        SpeciesReference)
        requires
            self.valid(old(doc)),
        ensures
            appended(old(doc), final(doc)),
            r.idx as int == old(doc).nodes@.len(),
            r.valid(final(doc)),
            created_species_ref(
                final(doc).nodes@[r.idx as int],
                NodeKind::Reactant,
                Some(self.idx),
                sid@,
                stoichiometry,
            ),
            doc_wf(old(doc)) ==> doc_wf(final(doc)),
    {
        let sr = SpeciesReference::new_in(doc, self.idx, sid, SpeciesReferenceType::Reactant);
        doc.nodes[sr.idx].attrs.stoichiometry = stoichiometry;
        proof {
            assert(doc.nodes@ =~= old(doc).nodes@.push(doc.nodes@[sr.idx as int]));
        }
        sr
    }

    /// Creates a product species reference under the reaction, with the
    /// given species and stoichiometry bit pattern.
    pub fn create_product(&self, doc: &mut SBMLDocument, sid: &str, stoichiometry: u64) -> (r:
        SpeciesReference)
        requires
            self.valid(old(doc)),
        ensures
            appended(old(doc), final(doc)),
            r.idx as int == old(doc).nodes@.len(),
            r.valid(final(doc)),
            created_species_ref(
                final(doc).nodes@[r.idx as int],
                NodeKind::Product,
                Some(self.idx),
                sid@,
                stoichiometry,
            ),
            doc_wf(old(doc)) ==> doc_wf(final(doc)),
    {
        let sr = SpeciesReference::new_in(doc, self.idx, sid, SpeciesReferenceType::Product);
        doc.nodes[sr.idx].attrs.stoichiometry = stoichiometry;
        proof {
            assert(doc.nodes@ =~= old(doc).nodes@.push(doc.nodes@[sr.idx as int]));
        }
        sr
    }
}

impl SBMLDocument {
    /// Creates the model node and hands back its handle.
    pub fn create_model(&mut self, id: &str) -> (r: Model)
        ensures
            appended(old(self), final(self)),
            r.idx as int == old(self).nodes@.len(),
            r.valid(final(self)),
            created_with_id(
                final(self).nodes@[r.idx as int],
                NodeKind::Model,
                None,
                id@,
            ),
            doc_wf(old(self)) ==> doc_wf(final(self)),
    {
        Model::new(self, id)
    }
}

} // verus!
