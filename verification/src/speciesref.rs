//! The species reference facade and its shared base.
//!
//! A species reference stands on the reactant or the product side of a
//! reaction.  The foreign hierarchy declares the species mutator on a
//! shared base type, so the concrete handle upcasts to
//! `SimpleSpeciesReference` for the species accessor pair; the upcast is
//! a same-index reinterpretation and never touches the node.

use vstd::prelude::*;
use vstd::string::StringExecFns;
use crate::document::{
    appended, created_species_ref, doc_unchanged, doc_wf, set_constant_rel, set_species_rel,
    set_stoichiometry_rel, unborrowed, updated_at, NodeKind, SBMLDocument,
};
use crate::error::SbmlError;
use crate::model::Reaction;
use crate::sbase::{
    ann_lookup, annotation_text, set_annotation_rel, set_annotation_serde_rel, SBase,
};
use crate::parse::spec_parse_annotation;
use crate::xml::{wf_elem, Element};

verus! {

/// Which side of a reaction a species reference stands on.
#[derive(Clone, Copy, Debug, PartialEq, Eq, Structural)]
pub enum SpeciesReferenceType {
    /// The species reference is a reactant of the reaction.
    Reactant,
    /// The species reference is a product of the reaction.
    Product,
}

/// The node kind a species reference of the given side carries.
pub open spec fn kind_of_ref_type(t: SpeciesReferenceType) -> NodeKind {
    match t {
        SpeciesReferenceType::Reactant => NodeKind::Reactant,
        SpeciesReferenceType::Product => NodeKind::Product,
    }
}

/// A handle for a species reference node.
#[derive(Clone, Copy)]
pub struct SpeciesReference {
    /// The index of the node in the document's arena.
    pub idx: usize,
}

/// A handle for a species reference node, seen at the shared base type
/// that declares the species accessor pair.
#[derive(Clone, Copy)]
pub struct SimpleSpeciesReference {
    /// The index of the node in the document's arena.
    pub idx: usize,
}

/// Whether `idx` points at a live species reference node.
pub open spec fn species_ref_valid(idx: usize, d: &SBMLDocument) -> bool {
    (idx as int) < d.nodes@.len() && (d.nodes@[idx as int].kind == NodeKind::Reactant
        || d.nodes@[idx as int].kind == NodeKind::Product)
}

impl SimpleSpeciesReference {
    /// Whether the handle points at a live species reference node.
    pub open spec fn valid(self, d: &SBMLDocument) -> bool {
        species_ref_valid(self.idx, d)
    }

    /// Reinterprets the handle at the root of the node-type hierarchy.
    pub fn upcast(&self) -> (r: SBase)
        ensures
            r.idx == self.idx,
    {
        SBase { idx: self.idx }
    }

    /// The species identifier the reference points at.
    pub fn species(&self, doc: &SBMLDocument) -> (r: String)
        requires
            self.valid(doc),
        ensures
            r@ == doc.nodes@[self.idx as int].attrs.species@,
    {
        doc.nodes[self.idx].attrs.species.clone()
    }

    /// Sets the species identifier; refused while any access is
    /// outstanding.  This mutator is declared here, on the shared base
    /// type, and concrete handles reach it through their upcast.
    pub fn set_species(&self, doc: &mut SBMLDocument, species: &str) -> (r: Result<
        (),
        SbmlError,
    >)
        requires
            self.valid(old(doc)),
        ensures
            match r {
                Ok(()) => {
                    &&& unborrowed(old(doc).nodes@[self.idx as int])
                    &&& updated_at(old(doc), final(doc), self.idx as int)
                    &&& set_species_rel(
                        old(doc).nodes@[self.idx as int],
                        final(doc).nodes@[self.idx as int],
                        species@,
                    )
                },
                Err(e) => {
                    &&& e == SbmlError::BorrowConflict
                    &&& !unborrowed(old(doc).nodes@[self.idx as int])
                    &&& doc_unchanged(old(doc), final(doc))
                },
            },
    {
        let i = self.idx;
        if doc.nodes[i].borrow.readers > 0 || doc.nodes[i].borrow.writer {
            return Err(SbmlError::BorrowConflict);
        }
        doc.nodes[i].attrs.species = String::from_str(species);
        Ok(())
    }
}

impl SpeciesReference {
    /// Whether the handle points at a live species reference node.
    pub open spec fn valid(self, d: &SBMLDocument) -> bool {
        species_ref_valid(self.idx, d)
    }

    /// The upcast of this handle, as a value.
    pub open spec fn spec_upcast(self) -> SimpleSpeciesReference {
        SimpleSpeciesReference { idx: self.idx }
    }

    /// Creates a species reference node under the owner node at
    /// `parent`, pointing at the species `sid`.
    pub(crate) fn new_in(
        doc: &mut SBMLDocument,
        parent: usize,
        sid: &str,
        ref_type: SpeciesReferenceType,
    ) -> (r: SpeciesReference)
        requires
            (parent as int) < old(doc).nodes@.len(),
        ensures
            appended(old(doc), final(doc)),
            r.idx as int == old(doc).nodes@.len(),
            r.valid(final(doc)),
            created_species_ref(
                final(doc).nodes@[r.idx as int],
                kind_of_ref_type(ref_type),
                Some(parent),
                sid@,
                0x3FF0000000000000u64,
            ),
            doc_wf(old(doc)) ==> doc_wf(final(doc)),
    {
        let kind = match ref_type {
            SpeciesReferenceType::Reactant => NodeKind::Reactant,
            SpeciesReferenceType::Product => NodeKind::Product,
        };
        let idx = doc.push_node(kind, Some(parent));
        let handle = SpeciesReference { idx };
        let base = handle.upcast();
        let set = base.set_species(doc, sid);
        proof {
            assert(set is Ok);
            assert(doc.nodes@ =~= old(doc).nodes@.push(doc.nodes@[idx as int]));
        }
        handle
    }

    /// Creates a species reference under the given reaction, pointing at
    /// the species `sid`, on the side `ref_type` names.
    pub fn new(
        doc: &mut SBMLDocument,
        reaction: &Reaction,
        sid: &str,
        ref_type: SpeciesReferenceType,
    ) -> (r: SpeciesReference)
        requires
            reaction.valid(old(doc)),
        ensures
            appended(old(doc), final(doc)),
            r.idx as int == old(doc).nodes@.len(),
            r.valid(final(doc)),
            created_species_ref(
                final(doc).nodes@[r.idx as int],
                kind_of_ref_type(ref_type),
                Some(reaction.idx),
                sid@,
                0x3FF0000000000000u64,
            ),
            doc_wf(old(doc)) ==> doc_wf(final(doc)),
    {
        SpeciesReference::new_in(doc, reaction.idx, sid, ref_type)
    }

    /// Reinterprets the handle at the shared base type of the species
    /// reference chain.  The upcast addresses the identical node and
    /// touches nothing.
    pub fn upcast(&self) -> (r: SimpleSpeciesReference)
        ensures
            r == self.spec_upcast(),
    {
        SimpleSpeciesReference { idx: self.idx }
    }

    /// The species identifier, read through the shared base type.
    pub fn species(&self, doc: &SBMLDocument) -> (r: String)
        requires
            self.valid(doc),
        ensures
            r@ == doc.nodes@[self.idx as int].attrs.species@,
    {
        self.upcast().species(doc)
    }

    /// Sets the species identifier, through the shared base type.
    pub fn set_species(&self, doc: &mut SBMLDocument, species: &str) -> (r: Result<(), SbmlError>)
        requires
            self.valid(old(doc)),
        ensures
            match r {
                Ok(()) => {
                    &&& unborrowed(old(doc).nodes@[self.idx as int])
                    &&& updated_at(old(doc), final(doc), self.idx as int)
                    &&& set_species_rel(
                        old(doc).nodes@[self.idx as int],
                        final(doc).nodes@[self.idx as int],
                        species@,
                    )
                },
                Err(e) => {
                    &&& e == SbmlError::BorrowConflict
                    &&& !unborrowed(old(doc).nodes@[self.idx as int])
                    &&& doc_unchanged(old(doc), final(doc))
                },
            },
    {
        self.upcast().set_species(doc, species)
    }

    /// The IEEE-754 bit pattern of the stoichiometric coefficient.
    pub fn stoichiometry(&self, doc: &SBMLDocument) -> (r: u64)
        requires
            self.valid(doc),
        ensures
            r == doc.nodes@[self.idx as int].attrs.stoichiometry,
    {
        doc.nodes[self.idx].attrs.stoichiometry
    }

    /// Sets the stoichiometric coefficient from its IEEE-754 bit
    /// pattern; refused while any access is outstanding.
    pub fn set_stoichiometry(&self, doc: &mut SBMLDocument, stoichiometry: u64) -> (r: Result<
        (),
        SbmlError,
    >)
        requires
            self.valid(old(doc)),
        ensures
            match r {
                Ok(()) => {
                    &&& unborrowed(old(doc).nodes@[self.idx as int])
                    &&& updated_at(old(doc), final(doc), self.idx as int)
                    &&& set_stoichiometry_rel(
                        old(doc).nodes@[self.idx as int],
                        final(doc).nodes@[self.idx as int],
                        stoichiometry,
                    )
                },
                Err(e) => {
                    &&& e == SbmlError::BorrowConflict
                    &&& !unborrowed(old(doc).nodes@[self.idx as int])
                    &&& doc_unchanged(old(doc), final(doc))
                },
            },
    {
        let i = self.idx;
        if doc.nodes[i].borrow.readers > 0 || doc.nodes[i].borrow.writer {
            return Err(SbmlError::BorrowConflict);
        }
        doc.nodes[i].attrs.stoichiometry = stoichiometry;
        Ok(())
    }

    /// Whether the species reference is constant.
    pub fn constant(&self, doc: &SBMLDocument) -> (r: bool)
        requires
            self.valid(doc),
        ensures
            r == doc.nodes@[self.idx as int].attrs.constant,
    {
        doc.nodes[self.idx].attrs.constant
    }

    /// Sets whether the species reference is constant; refused while any
    /// access is outstanding.
    pub fn set_constant(&self, doc: &mut SBMLDocument, constant: bool) -> (r: Result<
        (),
        SbmlError,
    >)
        requires
            self.valid(old(doc)),
        ensures
            match r {
                Ok(()) => {
                    &&& unborrowed(old(doc).nodes@[self.idx as int])
                    &&& updated_at(old(doc), final(doc), self.idx as int)
                    &&& set_constant_rel(
                        old(doc).nodes@[self.idx as int],
                        final(doc).nodes@[self.idx as int],
                        constant,
                    )
                },
                Err(e) => {
                    &&& e == SbmlError::BorrowConflict
                    &&& !unborrowed(old(doc).nodes@[self.idx as int])
                    &&& doc_unchanged(old(doc), final(doc))
                },
            },
    {
        let i = self.idx;
        if doc.nodes[i].borrow.readers > 0 || doc.nodes[i].borrow.writer {
            return Err(SbmlError::BorrowConflict);
        }
        doc.nodes[i].attrs.constant = constant;
        Ok(())
    }

    /// Parses `text` as markup and attaches it as the node's annotation.
    pub fn set_annotation(&self, doc: &mut SBMLDocument, text: &str) -> (r: Result<(), SbmlError>)
        requires
            self.valid(old(doc)),
        ensures
            match r {
                Ok(()) => {
                    &&& spec_parse_annotation(text@) is Some
                    &&& unborrowed(old(doc).nodes@[self.idx as int])
                    &&& updated_at(old(doc), final(doc), self.idx as int)
                    &&& set_annotation_rel(
                        old(doc).nodes@[self.idx as int],
                        final(doc).nodes@[self.idx as int],
                        spec_parse_annotation(text@)->0,
                    )
                },
                Err(e) => {
                    &&& doc_unchanged(old(doc), final(doc))
                    &&& (e == SbmlError::MalformedMarkup || e == SbmlError::BorrowConflict)
                    &&& (e == SbmlError::MalformedMarkup <==> spec_parse_annotation(text@) is None)
                    &&& (e == SbmlError::BorrowConflict <==> spec_parse_annotation(text@) is Some
                        && !unborrowed(old(doc).nodes@[self.idx as int]))
                },
            },
    {
        self.upcast().upcast().set_annotation(doc, text)
    }

    /// The raw markup text of the node's annotation container.
    pub fn get_annotation(&self, doc: &SBMLDocument) -> (r: String)
        requires
            self.valid(doc),
        ensures
            r@ == annotation_text(doc.nodes@[self.idx as int]),
    {
        self.upcast().upcast().get_annotation(doc)
    }

    /// Merges a structured value into the node's annotation container.
    pub fn set_annotation_serde(&self, doc: &mut SBMLDocument, value: &Element) -> (r: Result<
        (),
        SbmlError,
    >)
        requires
            self.valid(old(doc)),
        ensures
            match r {
                Ok(()) => {
                    &&& wf_elem(value@)
                    &&& unborrowed(old(doc).nodes@[self.idx as int])
                    &&& updated_at(old(doc), final(doc), self.idx as int)
                    &&& set_annotation_serde_rel(
                        old(doc).nodes@[self.idx as int],
                        final(doc).nodes@[self.idx as int],
                        value@,
                    )
                },
                Err(e) => {
                    &&& doc_unchanged(old(doc), final(doc))
                    &&& (e == SbmlError::MalformedMarkup || e == SbmlError::BorrowConflict)
                    &&& (e == SbmlError::MalformedMarkup <==> !wf_elem(value@))
                    &&& (e == SbmlError::BorrowConflict <==> wf_elem(value@) && !unborrowed(
                        old(doc).nodes@[self.idx as int],
                    ))
                },
            },
    {
        self.upcast().upcast().set_annotation_serde(doc, value)
    }

    /// Looks up the structured annotation stored under `tag`.
    pub fn get_annotation_serde(&self, doc: &SBMLDocument, tag: &str) -> (r: Result<
        Element,
        SbmlError,
    >)
        requires
            self.valid(doc),
        ensures
            match r {
                Ok(e) => ann_lookup(doc.nodes@[self.idx as int], tag@) == Some(e@),
                Err(e) => {
                    &&& e == SbmlError::AnnotationNotFound
                    &&& ann_lookup(doc.nodes@[self.idx as int], tag@) is None
                },
            },
    {
        self.upcast().upcast().get_annotation_serde(doc, tag)
    }
}

/// Upcast identity: the upcast addresses the identical node, so the
/// ancestor-level attributes read through the upcast handle are exactly
/// the attributes read through the concrete handle.
pub proof fn lemma_upcast_identity(d: &SBMLDocument, h: SpeciesReference)
    requires
        h.valid(d),
    ensures
        h.spec_upcast().idx == h.idx,
        d.nodes@[h.spec_upcast().idx as int] == d.nodes@[h.idx as int],
        d.nodes@[h.spec_upcast().idx as int].attrs.species@
            == d.nodes@[h.idx as int].attrs.species@,
        d.nodes@[h.spec_upcast().idx as int].attrs.id@ == d.nodes@[h.idx as int].attrs.id@,
{
}

/// A builder for species references: a staged-configuration object that
/// holds the in-progress handle and returns itself after each setter.
pub struct SpeciesReferenceBuilder {
    /// The handle being configured.
    pub species_reference: SpeciesReference,
}

impl SpeciesReferenceBuilder {
    /// Starts a species reference under `reaction` for the species `sid`.
    pub fn new(
        doc: &mut SBMLDocument,
        reaction: &Reaction,
        sid: &str,
        ref_type: SpeciesReferenceType,
    ) -> (r: SpeciesReferenceBuilder)
        requires
            reaction.valid(old(doc)),
        ensures
            appended(old(doc), final(doc)),
            r.species_reference.idx as int == old(doc).nodes@.len(),
            r.species_reference.valid(final(doc)),
            created_species_ref(
                final(doc).nodes@[r.species_reference.idx as int],
                kind_of_ref_type(ref_type),
                Some(reaction.idx),
                sid@,
                0x3FF0000000000000u64,
            ),
            doc_wf(old(doc)) ==> doc_wf(final(doc)),
    {
        let species_reference = SpeciesReference::new(doc, reaction, sid, ref_type);
        SpeciesReferenceBuilder { species_reference }
    }

    /// Sets the stoichiometry from its IEEE-754 bit pattern.
    pub fn stoichiometry(self, doc: &mut SBMLDocument, stoichiometry: u64) -> (r: Self)
        requires
            self.species_reference.valid(old(doc)),
            unborrowed(old(doc).nodes@[self.species_reference.idx as int]),
        ensures
            r.species_reference == self.species_reference,
            updated_at(old(doc), final(doc), self.species_reference.idx as int),
            set_stoichiometry_rel(
                old(doc).nodes@[self.species_reference.idx as int],
                final(doc).nodes@[self.species_reference.idx as int],
                stoichiometry,
            ),
    {
        let res = self.species_reference.set_stoichiometry(doc, stoichiometry);
        proof {
            assert(res is Ok);
        }
        self
    }

    /// Sets whether the species reference is constant.
    pub fn constant(self, doc: &mut SBMLDocument, constant: bool) -> (r: Self)
        requires
            self.species_reference.valid(old(doc)),
            unborrowed(old(doc).nodes@[self.species_reference.idx as int]),
        ensures
            r.species_reference == self.species_reference,
            updated_at(old(doc), final(doc), self.species_reference.idx as int),
            set_constant_rel(
                old(doc).nodes@[self.species_reference.idx as int],
                final(doc).nodes@[self.species_reference.idx as int],
                constant,
            ),
    {
        let res = self.species_reference.set_constant(doc, constant);
        proof {
            assert(res is Ok);
        }
        self
    }

    /// Parses `annotation` as markup and attaches it to the node.
    pub fn annotation(self, doc: &mut SBMLDocument, annotation: &str) -> (r: Result<
        Self,
        SbmlError,
    >)
        requires
            self.species_reference.valid(old(doc)),
            unborrowed(old(doc).nodes@[self.species_reference.idx as int]),
        ensures
            match r {
                Ok(b) => {
                    &&& b.species_reference == self.species_reference
                    &&& spec_parse_annotation(annotation@) is Some
                    &&& updated_at(old(doc), final(doc), self.species_reference.idx as int)
                    &&& set_annotation_rel(
                        old(doc).nodes@[self.species_reference.idx as int],
                        final(doc).nodes@[self.species_reference.idx as int],
                        spec_parse_annotation(annotation@)->0,
                    )
                },
                Err(e) => {
                    &&& e == SbmlError::MalformedMarkup
                    &&& spec_parse_annotation(annotation@) is None
                    &&& doc_unchanged(old(doc), final(doc))
                },
            },
    {
        match self.species_reference.set_annotation(doc, annotation) {
            Ok(()) => Ok(self),
            Err(e) => Err(e),
        }
    }

    /// Merges a structured value into the node's annotation container.
    pub fn annotation_serde(self, doc: &mut SBMLDocument, value: &Element) -> (r: Result<
        Self,
        SbmlError,
    >)
        requires
            self.species_reference.valid(old(doc)),
            unborrowed(old(doc).nodes@[self.species_reference.idx as int]),
        ensures
            match r {
                Ok(b) => {
                    &&& b.species_reference == self.species_reference
                    &&& wf_elem(value@)
                    &&& updated_at(old(doc), final(doc), self.species_reference.idx as int)
                    &&& set_annotation_serde_rel(
                        old(doc).nodes@[self.species_reference.idx as int],
                        final(doc).nodes@[self.species_reference.idx as int],
                        value@,
                    )
                },
                Err(e) => {
                    &&& e == SbmlError::MalformedMarkup
                    &&& !wf_elem(value@)
                    &&& doc_unchanged(old(doc), final(doc))
                },
            },
    {
        match self.species_reference.set_annotation_serde(doc, value) {
            Ok(()) => Ok(self),
            Err(e) => Err(e),
        }
    }

    /// Hands back the configured species reference handle.
    pub fn build(self) -> (r: SpeciesReference)
        ensures
            r == self.species_reference,
    {
        self.species_reference
    }
}

} // verus!
