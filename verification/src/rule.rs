//! The rule facade.
//!
//! A rule gives the rate of change of a variable, or assigns a value to
//! it.  The logical subtype is never stored twice: it is derived at call
//! time by ordered probing of the node's discriminant predicates, with
//! `UnknownDiscriminant` as the explicit terminal case.

use vstd::prelude::*;
use vstd::string::StringExecFns;
use crate::document::{
    appended, created_rule, doc_unchanged, doc_wf, set_formula_rel, set_variable_rel, unborrowed,
    updated_at, NodeKind, SBMLDocument,
};
use crate::error::SbmlError;
use crate::model::Model;
use crate::parse::spec_parse_annotation;
use crate::sbase::{
    ann_lookup, annotation_text, set_annotation_rel, set_annotation_serde_rel, SBase,
};
use crate::xml::{wf_elem, Element};

verus! {

/// The logical subtype of a rule.
#[derive(Clone, Copy, Debug, PartialEq, Eq, Structural)]
pub enum RuleType {
    /// A rate rule.
    RateRule,
    /// An assignment rule.
    AssignmentRule,
}

/// What the discriminant probe reports for a node of kind `k`.
pub open spec fn spec_rule_type(k: NodeKind) -> Result<RuleType, SbmlError> {
    match k {
        NodeKind::RateRule => Ok(RuleType::RateRule),
        NodeKind::AssignmentRule => Ok(RuleType::AssignmentRule),
        _ => Err(SbmlError::UnknownDiscriminant),
    }
}

/// Discriminant exactness: a node created by the rate rule factory
/// reports `RateRule` and never `AssignmentRule`, and the other way
/// round; a node of any other kind reports neither.
pub proof fn lemma_discriminant_exactness(k: NodeKind)
    ensures
        spec_rule_type(k) == Ok::<RuleType, SbmlError>(RuleType::RateRule) <==> k
            == NodeKind::RateRule,
        spec_rule_type(k) == Ok::<RuleType, SbmlError>(RuleType::AssignmentRule) <==> k
            == NodeKind::AssignmentRule,
        k == NodeKind::RateRule ==> spec_rule_type(k) != Ok::<RuleType, SbmlError>(
            RuleType::AssignmentRule,
        ),
        k == NodeKind::AssignmentRule ==> spec_rule_type(k) != Ok::<RuleType, SbmlError>(
            RuleType::RateRule,
        ),
{
}

/// A handle for one rule node, of either subtype.
#[derive(Clone, Copy)]
pub struct Rule {
    /// The index of the node in the document's arena.
    pub idx: usize,
}

impl Rule {
    /// Whether the handle points at a live rule node.
    pub open spec fn valid(self, d: &SBMLDocument) -> bool {
        (self.idx as int) < d.nodes@.len() && (d.nodes@[self.idx as int].kind == NodeKind::RateRule
            || d.nodes@[self.idx as int].kind == NodeKind::AssignmentRule)
    }

    /// The upcast of this handle, as a value.
    pub open spec fn spec_upcast(self) -> SBase {
        SBase { idx: self.idx }
    }

    /// Creates a rate rule node under the given model.
    pub fn new_rate_rule(doc: &mut SBMLDocument, model: &Model, variable: &str, formula: &str) -> (r:
        Rule)
        requires
            model.valid(old(doc)),
        ensures
            appended(old(doc), final(doc)),
            r.idx as int == old(doc).nodes@.len(),
            r.valid(final(doc)),
            created_rule(
                final(doc).nodes@[r.idx as int],
                NodeKind::RateRule,
                Some(model.idx),
                variable@,
                formula@,
            ),
            doc_wf(old(doc)) ==> doc_wf(final(doc)),
    {
        model.create_rate_rule(doc, variable, formula)
    }

    /// Creates an assignment rule node under the given model.
    pub fn new_assignment_rule(
        doc: &mut SBMLDocument,
        model: &Model,
        variable: &str,
        formula: &str,
    ) -> (r: Rule)
        requires
            model.valid(old(doc)),
        ensures
            appended(old(doc), final(doc)),
            r.idx as int == old(doc).nodes@.len(),
            r.valid(final(doc)),
            created_rule(
                final(doc).nodes@[r.idx as int],
                NodeKind::AssignmentRule,
                Some(model.idx),
                variable@,
                formula@,
            ),
            doc_wf(old(doc)) ==> doc_wf(final(doc)),
    {
        model.create_assignment_rule(doc, variable, formula)
    }

    /// Reinterprets the handle at the root of the node-type hierarchy.
    /// The upcast addresses the identical node and touches nothing.
    pub fn upcast(&self) -> (r: SBase)
        ensures
            r == self.spec_upcast(),
    {
        SBase { idx: self.idx }
    }

    /// The variable the rule speaks of.
    pub fn variable(&self, doc: &SBMLDocument) -> (r: String)
        requires
            self.valid(doc),
        ensures
            r@ == doc.nodes@[self.idx as int].attrs.variable@,
    {
        doc.nodes[self.idx].attrs.variable.clone()
    }

    /// Sets the variable; refused while any access is outstanding.
    pub fn set_variable(&self, doc: &mut SBMLDocument, variable: &str) -> (r: Result<
        (),
        SbmlError,
    >)
        requires
            self.valid(old(doc)),
        ensures
            match r {
                Ok(()) => {
                    &&& unborrowed(old(doc).nodes@[self.idx as int])
                    &&& updated_at(old(doc), final(doc), self.idx as int)
                    &&& set_variable_rel(
                        old(doc).nodes@[self.idx as int],
                        final(doc).nodes@[self.idx as int],
                        variable@,
                    )
                },
                Err(e) => {
                    &&& e == SbmlError::BorrowConflict
                    &&& !unborrowed(old(doc).nodes@[self.idx as int])
                    &&& doc_unchanged(old(doc), final(doc))
                },
            },
    {
        let i = self.idx;
        if doc.nodes[i].borrow.readers > 0 || doc.nodes[i].borrow.writer {
            return Err(SbmlError::BorrowConflict);
        }
        doc.nodes[i].attrs.variable = String::from_str(variable);
        Ok(())
    }

    /// The formula of the rule.
    pub fn formula(&self, doc: &SBMLDocument) -> (r: String)
        requires
            self.valid(doc),
        ensures
            r@ == doc.nodes@[self.idx as int].attrs.formula@,
    {
        doc.nodes[self.idx].attrs.formula.clone()
    }

    /// Sets the formula; refused while any access is outstanding.
    pub fn set_formula(&self, doc: &mut SBMLDocument, formula: &str) -> (r: Result<(), SbmlError>)
        requires
            self.valid(old(doc)),
        ensures
            match r {
                Ok(()) => {
                    &&& unborrowed(old(doc).nodes@[self.idx as int])
                    &&& updated_at(old(doc), final(doc), self.idx as int)
                    &&& set_formula_rel(
                        old(doc).nodes@[self.idx as int],
                        final(doc).nodes@[self.idx as int],
                        formula@,
                    )
                },
                Err(e) => {
                    &&& e == SbmlError::BorrowConflict
                    &&& !unborrowed(old(doc).nodes@[self.idx as int])
                    &&& doc_unchanged(old(doc), final(doc))
                },
            },
    {
        let i = self.idx;
        if doc.nodes[i].borrow.readers > 0 || doc.nodes[i].borrow.writer {
            return Err(SbmlError::BorrowConflict);
        }
        doc.nodes[i].attrs.formula = String::from_str(formula);
        Ok(())
    }

    /// Whether the node is a rate rule: the first discriminant probe.
    pub fn is_rate(&self, doc: &SBMLDocument) -> (r: bool)
        requires
            (self.idx as int) < doc.nodes@.len(),
        ensures
            r == (doc.nodes@[self.idx as int].kind == NodeKind::RateRule),
    {
        doc.nodes[self.idx].kind == NodeKind::RateRule
    }

    /// Whether the node is an assignment rule: the second discriminant
    /// probe.
    pub fn is_assignment(&self, doc: &SBMLDocument) -> (r: bool)
        requires
            (self.idx as int) < doc.nodes@.len(),
        ensures
            r == (doc.nodes@[self.idx as int].kind == NodeKind::AssignmentRule),
    {
        doc.nodes[self.idx].kind == NodeKind::AssignmentRule
    }

    /// The logical subtype of the rule, derived by ordered probing of
    /// the discriminant predicates; the first matching probe wins, and
    /// a node matching none is reported, not defaulted.
    pub fn rule_type(&self, doc: &SBMLDocument) -> (r: Result<RuleType, SbmlError>)
        requires
            (self.idx as int) < doc.nodes@.len(),
        ensures
            r == spec_rule_type(doc.nodes@[self.idx as int].kind),
    {
        if self.is_rate(doc) {
            Ok(RuleType::RateRule)
        } else if self.is_assignment(doc) {
            Ok(RuleType::AssignmentRule)
        } else {
            Err(SbmlError::UnknownDiscriminant)
        }
    }

    /// Parses `text` as markup and attaches it as the node's annotation.
    pub fn set_annotation(&self, doc: &mut SBMLDocument, text: &str) -> (r: Result<(), SbmlError>)
        requires
            self.valid(old(doc)),
        ensures
            match r {
                Ok(()) => {
                    &&& spec_parse_annotation(text@) is Some
                    &&& unborrowed(old(doc).nodes@[self.idx as int])
                    &&& updated_at(old(doc), final(doc), self.idx as int)
                    &&& set_annotation_rel(
                        old(doc).nodes@[self.idx as int],
                        final(doc).nodes@[self.idx as int],
                        spec_parse_annotation(text@)->0,
                    )
                },
                Err(e) => {
                    &&& doc_unchanged(old(doc), final(doc))
                    &&& (e == SbmlError::MalformedMarkup || e == SbmlError::BorrowConflict)
                    &&& (e == SbmlError::MalformedMarkup <==> spec_parse_annotation(text@) is None)
                    &&& (e == SbmlError::BorrowConflict <==> spec_parse_annotation(text@) is Some
                        && !unborrowed(old(doc).nodes@[self.idx as int]))
                },
            },
    {
        self.upcast().set_annotation(doc, text)
    }

    /// The raw markup text of the node's annotation container.
    pub fn get_annotation(&self, doc: &SBMLDocument) -> (r: String)
        requires
            self.valid(doc),
        ensures
            r@ == annotation_text(doc.nodes@[self.idx as int]),
    {
        self.upcast().get_annotation(doc)
    }

    /// Merges a structured value into the node's annotation container.
    pub fn set_annotation_serde(&self, doc: &mut SBMLDocument, value: &Element) -> (r: Result<
        (),
        SbmlError,
    >)
        requires
            self.valid(old(doc)),
        ensures
            match r {
                Ok(()) => {
                    &&& wf_elem(value@)
                    &&& unborrowed(old(doc).nodes@[self.idx as int])
                    &&& updated_at(old(doc), final(doc), self.idx as int)
                    &&& set_annotation_serde_rel(
                        old(doc).nodes@[self.idx as int],
                        final(doc).nodes@[self.idx as int],
                        value@,
                    )
                },
                Err(e) => {
                    &&& doc_unchanged(old(doc), final(doc))
                    &&& (e == SbmlError::MalformedMarkup || e == SbmlError::BorrowConflict)
                    &&& (e == SbmlError::MalformedMarkup <==> !wf_elem(value@))
                    &&& (e == SbmlError::BorrowConflict <==> wf_elem(value@) && !unborrowed(
                        old(doc).nodes@[self.idx as int],
                    ))
                },
            },
    {
        self.upcast().set_annotation_serde(doc, value)
    }

    /// Looks up the structured annotation stored under `tag`.
    pub fn get_annotation_serde(&self, doc: &SBMLDocument, tag: &str) -> (r: Result<
        Element,
        SbmlError,
    >)
        requires
            self.valid(doc),
        ensures
            match r {
                Ok(e) => ann_lookup(doc.nodes@[self.idx as int], tag@) == Some(e@),
                Err(e) => {
                    &&& e == SbmlError::AnnotationNotFound
                    &&& ann_lookup(doc.nodes@[self.idx as int], tag@) is None
                },
            },
    {
        self.upcast().get_annotation_serde(doc, tag)
    }
}

/// A builder for rate rules: a staged-configuration object that holds
/// the in-progress handle and returns itself after each setter.
pub struct RateRuleBuilder {
    /// The handle being configured.
    pub rate_rule: Rule,
}

impl RateRuleBuilder {
    /// Starts a rate rule under `model` for `variable` with `formula`.
    pub fn new(doc: &mut SBMLDocument, model: &Model, variable: &str, formula: &str) -> (r:
        RateRuleBuilder)
        requires
            model.valid(old(doc)),
        ensures
            appended(old(doc), final(doc)),
            r.rate_rule.idx as int == old(doc).nodes@.len(),
            r.rate_rule.valid(final(doc)),
            created_rule(
                final(doc).nodes@[r.rate_rule.idx as int],
                NodeKind::RateRule,
                Some(model.idx),
                variable@,
                formula@,
            ),
            doc_wf(old(doc)) ==> doc_wf(final(doc)),
    {
        let rate_rule = model.create_rate_rule(doc, variable, formula);
        RateRuleBuilder { rate_rule }
    }

    /// Parses `annotation` as markup and attaches it to the node.
    pub fn annotation(self, doc: &mut SBMLDocument, annotation: &str) -> (r: Result<
        Self,
        SbmlError,
    >)
        requires
            self.rate_rule.valid(old(doc)),
            unborrowed(old(doc).nodes@[self.rate_rule.idx as int]),
        ensures
            match r {
                Ok(b) => {
                    &&& b.rate_rule == self.rate_rule
                    &&& spec_parse_annotation(annotation@) is Some
                    &&& updated_at(old(doc), final(doc), self.rate_rule.idx as int)
                    &&& set_annotation_rel(
                        old(doc).nodes@[self.rate_rule.idx as int],
                        final(doc).nodes@[self.rate_rule.idx as int],
                        spec_parse_annotation(annotation@)->0,
                    )
                },
                Err(e) => {
                    &&& e == SbmlError::MalformedMarkup
                    &&& spec_parse_annotation(annotation@) is None
                    &&& doc_unchanged(old(doc), final(doc))
                },
            },
    {
        match self.rate_rule.set_annotation(doc, annotation) {
            Ok(()) => Ok(self),
            Err(e) => Err(e),
        }
    }

    /// Merges a structured value into the node's annotation container.
    pub fn annotation_serde(self, doc: &mut SBMLDocument, value: &Element) -> (r: Result<
        Self,
        SbmlError,
    >)
        requires
            self.rate_rule.valid(old(doc)),
            unborrowed(old(doc).nodes@[self.rate_rule.idx as int]),
        ensures
            match r {
                Ok(b) => {
                    &&& b.rate_rule == self.rate_rule
                    &&& wf_elem(value@)
                    &&& updated_at(old(doc), final(doc), self.rate_rule.idx as int)
                    &&& set_annotation_serde_rel(
                        old(doc).nodes@[self.rate_rule.idx as int],
                        final(doc).nodes@[self.rate_rule.idx as int],
                        value@,
                    )
                },
                Err(e) => {
                    &&& e == SbmlError::MalformedMarkup
                    &&& !wf_elem(value@)
                    &&& doc_unchanged(old(doc), final(doc))
                },
            },
    {
        match self.rate_rule.set_annotation_serde(doc, value) {
            Ok(()) => Ok(self),
            Err(e) => Err(e),
        }
    }

    /// Hands back the configured rule handle.
    pub fn build(self) -> (r: Rule)
        ensures
            r == self.rate_rule,
    {
        self.rate_rule
    }
}

/// A builder for assignment rules: a staged-configuration object that
/// holds the in-progress handle and returns itself after each setter.
pub struct AssignmentRuleBuilder {
    /// The handle being configured.
    pub assignment_rule: Rule,
}

impl AssignmentRuleBuilder {
    /// Starts an assignment rule under `model` for `variable` with
    /// `formula`.
    pub fn new(doc: &mut SBMLDocument, model: &Model, variable: &str, formula: &str) -> (r:
        AssignmentRuleBuilder)
        requires
            model.valid(old(doc)),
        ensures
            appended(old(doc), final(doc)),
            r.assignment_rule.idx as int == old(doc).nodes@.len(),
            r.assignment_rule.valid(final(doc)),
            created_rule(
                final(doc).nodes@[r.assignment_rule.idx as int],
                NodeKind::AssignmentRule,
                Some(model.idx),
                variable@,
                formula@,
            ),
            doc_wf(old(doc)) ==> doc_wf(final(doc)),
    {
        let assignment_rule = model.create_assignment_rule(doc, variable, formula);
        AssignmentRuleBuilder { assignment_rule }
    }

    /// Parses `annotation` as markup and attaches it to the node.
    pub fn annotation(self, doc: &mut SBMLDocument, annotation: &str) -> (r: Result<
        Self,
        SbmlError,
    >)
        requires
            self.assignment_rule.valid(old(doc)),
            unborrowed(old(doc).nodes@[self.assignment_rule.idx as int]),
        ensures
            match r {
                Ok(b) => {
                    &&& b.assignment_rule == self.assignment_rule
                    &&& spec_parse_annotation(annotation@) is Some
                    &&& updated_at(old(doc), final(doc), self.assignment_rule.idx as int)
                    &&& set_annotation_rel(
                        old(doc).nodes@[self.assignment_rule.idx as int],
                        final(doc).nodes@[self.assignment_rule.idx as int],
                        spec_parse_annotation(annotation@)->0,
                    )
                },
                Err(e) => {
                    &&& e == SbmlError::MalformedMarkup
                    &&& spec_parse_annotation(annotation@) is None
                    &&& doc_unchanged(old(doc), final(doc))
                },
            },
    {
        match self.assignment_rule.set_annotation(doc, annotation) {
            Ok(()) => Ok(self),
            Err(e) => Err(e),
        }
    }

    /// Merges a structured value into the node's annotation container.
    pub fn annotation_serde(self, doc: &mut SBMLDocument, value: &Element) -> (r: Result<
        Self,
        SbmlError,
    >)
        requires
            self.assignment_rule.valid(old(doc)),
            unborrowed(old(doc).nodes@[self.assignment_rule.idx as int]),
        ensures
            match r {
                Ok(b) => {
                    &&& b.assignment_rule == self.assignment_rule
                    &&& wf_elem(value@)
                    &&& updated_at(old(doc), final(doc), self.assignment_rule.idx as int)
                    &&& set_annotation_serde_rel(
                        old(doc).nodes@[self.assignment_rule.idx as int],
                        final(doc).nodes@[self.assignment_rule.idx as int],
                        value@,
                    )
                },
                Err(e) => {
                    &&& e == SbmlError::MalformedMarkup
                    &&& !wf_elem(value@)
                    &&& doc_unchanged(old(doc), final(doc))
                },
            },
    {
        match self.assignment_rule.set_annotation_serde(doc, value) {
            Ok(()) => Ok(self),
            Err(e) => Err(e),
        }
    }

    /// Hands back the configured rule handle.
    pub fn build(self) -> (r: Rule)
        ensures
            r == self.assignment_rule,
    {
        self.assignment_rule
    }
}

} // verus!
