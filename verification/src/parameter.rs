//! The parameter facade.
//!
//! A parameter is a named value of the model.  The handle reads and
//! mutates its node through the document; ancestor-level attributes go
//! through the upcast to the base handle, exactly as the mutators that
//! the foreign hierarchy declares at its base type do.

use vstd::prelude::*;
use crate::document::{
    appended, created_with_id, doc_unchanged, doc_wf, set_constant_rel, set_id_rel, set_name_rel,
    set_units_rel, set_value_rel, unborrowed, updated_at, NodeKind, SBMLDocument,
};
use crate::error::SbmlError;
use crate::model::Model;
use crate::parse::spec_parse_annotation;
use crate::sbase::{
    ann_lookup, annotation_text, set_annotation_rel, set_annotation_serde_rel, SBase,
};
use vstd::string::StringExecFns;
use crate::xml::{wf_elem, Element};

verus! {

/// A handle for one parameter node.
#[derive(Clone, Copy)]
pub struct Parameter {
    /// The index of the node in the document's arena.
    pub idx: usize,
}

impl Parameter {
    /// Whether the handle points at a live parameter node.
    pub open spec fn valid(self, d: &SBMLDocument) -> bool {
        (self.idx as int) < d.nodes@.len() && d.nodes@[self.idx as int].kind == NodeKind::Parameter
    }

    /// The upcast of this handle, as a value.
    pub open spec fn spec_upcast(self) -> SBase {
        SBase { idx: self.idx }
    }

    /// Creates a parameter node under the given model, with the given
    /// identifier and the initialized defaults.
    pub fn new(doc: &mut SBMLDocument, model: &Model, id: &str) -> (r: Parameter)
        requires
            model.valid(old(doc)),
        ensures
            appended(old(doc), final(doc)),
            r.idx as int == old(doc).nodes@.len(),
            r.valid(final(doc)),
            created_with_id(
                final(doc).nodes@[r.idx as int],
                NodeKind::Parameter,
                Some(model.idx),
                id@,
            ),
            doc_wf(old(doc)) ==> doc_wf(final(doc)),
    {
        model.create_parameter(doc, id)
    }

    /// Reinterprets the handle at the root of the node-type hierarchy.
    /// The upcast addresses the identical node and touches nothing.
    pub fn upcast(&self) -> (r: SBase)
        ensures
            r == self.spec_upcast(),
    {
        SBase { idx: self.idx }
    }

    /// The parameter's identifier.
    pub fn id(&self, doc: &SBMLDocument) -> (r: String)
        requires
            self.valid(doc),
        ensures
            r@ == doc.nodes@[self.idx as int].attrs.id@,
    {
        self.upcast().id(doc)
    }

    /// Sets the parameter's identifier; refused while any access is
    /// outstanding.
    pub fn set_id(&self, doc: &mut SBMLDocument, id: &str) -> (r: Result<(), SbmlError>)
        requires
            self.valid(old(doc)),
        ensures
            match r {
                Ok(()) => {
                    &&& unborrowed(old(doc).nodes@[self.idx as int])
                    &&& updated_at(old(doc), final(doc), self.idx as int)
                    &&& set_id_rel(
                        old(doc).nodes@[self.idx as int],
                        final(doc).nodes@[self.idx as int],
                        id@,
                    )
                },
                Err(e) => {
                    &&& e == SbmlError::BorrowConflict
                    &&& !unborrowed(old(doc).nodes@[self.idx as int])
                    &&& doc_unchanged(old(doc), final(doc))
                },
            },
    {
        self.upcast().set_id(doc, id)
    }

    /// The parameter's human-readable name; empty while unset.
    pub fn name(&self, doc: &SBMLDocument) -> (r: String)
        requires
            self.valid(doc),
        ensures
            r@ == doc.nodes@[self.idx as int].attrs.name@,
    {
        self.upcast().name(doc)
    }

    /// Sets the parameter's name; refused while any access is outstanding.
    pub fn set_name(&self, doc: &mut SBMLDocument, name: &str) -> (r: Result<(), SbmlError>)
        requires
            self.valid(old(doc)),
        ensures
            match r {
                Ok(()) => {
                    &&& unborrowed(old(doc).nodes@[self.idx as int])
                    &&& updated_at(old(doc), final(doc), self.idx as int)
                    &&& set_name_rel(
                        old(doc).nodes@[self.idx as int],
                        final(doc).nodes@[self.idx as int],
                        name@,
                    )
                },
                Err(e) => {
                    &&& e == SbmlError::BorrowConflict
                    &&& !unborrowed(old(doc).nodes@[self.idx as int])
                    &&& doc_unchanged(old(doc), final(doc))
                },
            },
    {
        self.upcast().set_name(doc, name)
    }

    /// The IEEE-754 bit pattern of the parameter's value: `Some` exactly
    /// when a value has been set.
    pub fn value(&self, doc: &SBMLDocument) -> (r: Option<u64>)
        requires
            self.valid(doc),
        ensures
            r == doc.nodes@[self.idx as int].attrs.value,
    {
        doc.nodes[self.idx].attrs.value
    }

    /// Sets the parameter's value from its IEEE-754 bit pattern; refused
    /// while any access is outstanding.
    pub fn set_value(&self, doc: &mut SBMLDocument, value: u64) -> (r: Result<(), SbmlError>)
        requires
            self.valid(old(doc)),
        ensures
            match r {
                Ok(()) => {
                    &&& unborrowed(old(doc).nodes@[self.idx as int])
                    &&& updated_at(old(doc), final(doc), self.idx as int)
                    &&& set_value_rel(
                        old(doc).nodes@[self.idx as int],
                        final(doc).nodes@[self.idx as int],
                        Some(value),
                    )
                },
                Err(e) => {
                    &&& e == SbmlError::BorrowConflict
                    &&& !unborrowed(old(doc).nodes@[self.idx as int])
                    &&& doc_unchanged(old(doc), final(doc))
                },
            },
    {
        let i = self.idx;
        if doc.nodes[i].borrow.readers > 0 || doc.nodes[i].borrow.writer {
            return Err(SbmlError::BorrowConflict);
        }
        doc.nodes[i].attrs.value = Some(value);
        Ok(())
    }

    /// The parameter's units.
    pub fn units(&self, doc: &SBMLDocument) -> (r: String)
        requires
            self.valid(doc),
        ensures
            r@ == doc.nodes@[self.idx as int].attrs.units@,
    {
        doc.nodes[self.idx].attrs.units.clone()
    }

    /// Sets the parameter's units; refused while any access is outstanding.
    pub fn set_units(&self, doc: &mut SBMLDocument, units: &str) -> (r: Result<(), SbmlError>)
        requires
            self.valid(old(doc)),
        ensures
            match r {
                Ok(()) => {
                    &&& unborrowed(old(doc).nodes@[self.idx as int])
                    &&& updated_at(old(doc), final(doc), self.idx as int)
                    &&& set_units_rel(
                        old(doc).nodes@[self.idx as int],
                        final(doc).nodes@[self.idx as int],
                        units@,
                    )
                },
                Err(e) => {
                    &&& e == SbmlError::BorrowConflict
                    &&& !unborrowed(old(doc).nodes@[self.idx as int])
                    &&& doc_unchanged(old(doc), final(doc))
                },
            },
    {
        let i = self.idx;
        if doc.nodes[i].borrow.readers > 0 || doc.nodes[i].borrow.writer {
            return Err(SbmlError::BorrowConflict);
        }
        doc.nodes[i].attrs.units = String::from_str(units);
        Ok(())
    }

    /// Whether the parameter is constant: the actual value of the flag,
    /// not whether the flag was ever set.
    pub fn constant(&self, doc: &SBMLDocument) -> (r: bool)
        requires
            self.valid(doc),
        ensures
            r == doc.nodes@[self.idx as int].attrs.constant,
    {
        doc.nodes[self.idx].attrs.constant
    }

    /// Sets whether the parameter is constant; refused while any access
    /// is outstanding.
    pub fn set_constant(&self, doc: &mut SBMLDocument, constant: bool) -> (r: Result<
        (),
        SbmlError,
    >)
        requires
            self.valid(old(doc)),
        ensures
            match r {
                Ok(()) => {
                    &&& unborrowed(old(doc).nodes@[self.idx as int])
                    &&& updated_at(old(doc), final(doc), self.idx as int)
                    &&& set_constant_rel(
                        old(doc).nodes@[self.idx as int],
                        final(doc).nodes@[self.idx as int],
                        constant,
                    )
                },
                Err(e) => {
                    &&& e == SbmlError::BorrowConflict
                    &&& !unborrowed(old(doc).nodes@[self.idx as int])
                    &&& doc_unchanged(old(doc), final(doc))
                },
            },
    {
        let i = self.idx;
        if doc.nodes[i].borrow.readers > 0 || doc.nodes[i].borrow.writer {
            return Err(SbmlError::BorrowConflict);
        }
        doc.nodes[i].attrs.constant = constant;
        Ok(())
    }

    /// Parses `text` as markup and attaches it as the node's annotation.
    pub fn set_annotation(&self, doc: &mut SBMLDocument, text: &str) -> (r: Result<(), SbmlError>)
        requires
            self.valid(old(doc)),
        ensures
            match r {
                Ok(()) => {
                    &&& spec_parse_annotation(text@) is Some
                    &&& unborrowed(old(doc).nodes@[self.idx as int])
                    &&& updated_at(old(doc), final(doc), self.idx as int)
                    &&& set_annotation_rel(
                        old(doc).nodes@[self.idx as int],
                        final(doc).nodes@[self.idx as int],
                        spec_parse_annotation(text@)->0,
                    )
                },
                Err(e) => {
                    &&& doc_unchanged(old(doc), final(doc))
                    &&& (e == SbmlError::MalformedMarkup || e == SbmlError::BorrowConflict)
                    &&& (e == SbmlError::MalformedMarkup <==> spec_parse_annotation(text@) is None)
                    &&& (e == SbmlError::BorrowConflict <==> spec_parse_annotation(text@) is Some
                        && !unborrowed(old(doc).nodes@[self.idx as int]))
                },
            },
    {
        self.upcast().set_annotation(doc, text)
    }

    /// The raw markup text of the node's annotation container.
    pub fn get_annotation(&self, doc: &SBMLDocument) -> (r: String)
        requires
            self.valid(doc),
        ensures
            r@ == annotation_text(doc.nodes@[self.idx as int]),
    {
        self.upcast().get_annotation(doc)
    }

    /// Merges a structured value into the node's annotation container.
    pub fn set_annotation_serde(&self, doc: &mut SBMLDocument, value: &Element) -> (r: Result<
        (),
        SbmlError,
    >)
        requires
            self.valid(old(doc)),
        ensures
            match r {
                Ok(()) => {
                    &&& wf_elem(value@)
                    &&& unborrowed(old(doc).nodes@[self.idx as int])
                    &&& updated_at(old(doc), final(doc), self.idx as int)
                    &&& set_annotation_serde_rel(
                        old(doc).nodes@[self.idx as int],
                        final(doc).nodes@[self.idx as int],
                        value@,
                    )
                },
                Err(e) => {
                    &&& doc_unchanged(old(doc), final(doc))
                    &&& (e == SbmlError::MalformedMarkup || e == SbmlError::BorrowConflict)
                    &&& (e == SbmlError::MalformedMarkup <==> !wf_elem(value@))
                    &&& (e == SbmlError::BorrowConflict <==> wf_elem(value@) && !unborrowed(
                        old(doc).nodes@[self.idx as int],
                    ))
                },
            },
    {
        self.upcast().set_annotation_serde(doc, value)
    }

    /// Looks up the structured annotation stored under `tag`.
    pub fn get_annotation_serde(&self, doc: &SBMLDocument, tag: &str) -> (r: Result<
        Element,
        SbmlError,
    >)
        requires
            self.valid(doc),
        ensures
            match r {
                Ok(e) => ann_lookup(doc.nodes@[self.idx as int], tag@) == Some(e@),
                Err(e) => {
                    &&& e == SbmlError::AnnotationNotFound
                    &&& ann_lookup(doc.nodes@[self.idx as int], tag@) is None
                },
            },
    {
        self.upcast().get_annotation_serde(doc, tag)
    }
}

/// A builder for parameters: a staged-configuration object that holds
/// the in-progress handle and returns itself after each setter.
pub struct ParameterBuilder {
    /// The handle being configured.
    pub parameter: Parameter,
}

impl ParameterBuilder {
    /// Starts a parameter under `model` with the given identifier.
    pub fn new(doc: &mut SBMLDocument, model: &Model, id: &str) -> (r: ParameterBuilder)
        requires
            model.valid(old(doc)),
        ensures
            appended(old(doc), final(doc)),
            r.parameter.idx as int == old(doc).nodes@.len(),
            r.parameter.valid(final(doc)),
            created_with_id(
                final(doc).nodes@[r.parameter.idx as int],
                NodeKind::Parameter,
                Some(model.idx),
                id@,
            ),
            doc_wf(old(doc)) ==> doc_wf(final(doc)),
    {
        let parameter = model.create_parameter(doc, id);
        ParameterBuilder { parameter }
    }

    /// Sets the value from its IEEE-754 bit pattern.
    pub fn value(self, doc: &mut SBMLDocument, value: u64) -> (r: Self)
        requires
            self.parameter.valid(old(doc)),
            unborrowed(old(doc).nodes@[self.parameter.idx as int]),
        ensures
            r.parameter == self.parameter,
            updated_at(old(doc), final(doc), self.parameter.idx as int),
            set_value_rel(
                old(doc).nodes@[self.parameter.idx as int],
                final(doc).nodes@[self.parameter.idx as int],
                Some(value),
            ),
    {
        let res = self.parameter.set_value(doc, value);
        proof {
            assert(res is Ok);
        }
        self
    }

    /// Sets the units.
    pub fn units(self, doc: &mut SBMLDocument, units: &str) -> (r: Self)
        requires
            self.parameter.valid(old(doc)),
            unborrowed(old(doc).nodes@[self.parameter.idx as int]),
        ensures
            r.parameter == self.parameter,
            updated_at(old(doc), final(doc), self.parameter.idx as int),
            set_units_rel(
                old(doc).nodes@[self.parameter.idx as int],
                final(doc).nodes@[self.parameter.idx as int],
                units@,
            ),
    {
        let res = self.parameter.set_units(doc, units);
        proof {
            assert(res is Ok);
        }
        self
    }

    /// Sets whether the parameter is constant.
    pub fn constant(self, doc: &mut SBMLDocument, constant: bool) -> (r: Self)
        requires
            self.parameter.valid(old(doc)),
            unborrowed(old(doc).nodes@[self.parameter.idx as int]),
        ensures
            r.parameter == self.parameter,
            updated_at(old(doc), final(doc), self.parameter.idx as int),
            set_constant_rel(
                old(doc).nodes@[self.parameter.idx as int],
                final(doc).nodes@[self.parameter.idx as int],
                constant,
            ),
    {
        let res = self.parameter.set_constant(doc, constant);
        proof {
            assert(res is Ok);
        }
        self
    }

    /// Parses `annotation` as markup and attaches it to the node.
    pub fn annotation(self, doc: &mut SBMLDocument, annotation: &str) -> (r: Result<
        Self,
        SbmlError,
    >)
        requires
            self.parameter.valid(old(doc)),
            unborrowed(old(doc).nodes@[self.parameter.idx as int]),
        ensures
            match r {
                Ok(b) => {
                    &&& b.parameter == self.parameter
                    &&& spec_parse_annotation(annotation@) is Some
                    &&& updated_at(old(doc), final(doc), self.parameter.idx as int)
                    &&& set_annotation_rel(
                        old(doc).nodes@[self.parameter.idx as int],
                        final(doc).nodes@[self.parameter.idx as int],
                        spec_parse_annotation(annotation@)->0,
                    )
                },
                Err(e) => {
                    &&& e == SbmlError::MalformedMarkup
                    &&& spec_parse_annotation(annotation@) is None
                    &&& doc_unchanged(old(doc), final(doc))
                },
            },
    {
        match self.parameter.set_annotation(doc, annotation) {
            Ok(()) => Ok(self),
            Err(e) => Err(e),
        }
    }

    /// Merges a structured value into the node's annotation container.
    pub fn annotation_serde(self, doc: &mut SBMLDocument, value: &Element) -> (r: Result<
        Self,
        SbmlError,
    >)
        requires
            self.parameter.valid(old(doc)),
            unborrowed(old(doc).nodes@[self.parameter.idx as int]),
        ensures
            match r {
                Ok(b) => {
                    &&& b.parameter == self.parameter
                    &&& wf_elem(value@)
                    &&& updated_at(old(doc), final(doc), self.parameter.idx as int)
                    &&& set_annotation_serde_rel(
                        old(doc).nodes@[self.parameter.idx as int],
                        final(doc).nodes@[self.parameter.idx as int],
                        value@,
                    )
                },
                Err(e) => {
                    &&& e == SbmlError::MalformedMarkup
                    &&& !wf_elem(value@)
                    &&& doc_unchanged(old(doc), final(doc))
                },
            },
    {
        match self.parameter.set_annotation_serde(doc, value) {
            Ok(()) => Ok(self),
            Err(e) => Err(e),
        }
    }

    /// Hands back the configured parameter handle.
    pub fn build(self) -> (r: Parameter)
        ensures
            r == self.parameter,
    {
        self.parameter
    }
}

} // verus!
