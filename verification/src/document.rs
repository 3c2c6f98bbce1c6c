//! The document: the owner of every node of the model tree.
//!
//! Nodes are held in one arena; handles carry the index of their node.  A
//! node records its owning node, its plain attributes, its annotation slot
//! and its dynamic borrow state.  The document is the single ownership
//! path to every node: handles borrow the document and never own a node.

use vstd::prelude::*;
use crate::xml::Element;

verus! {

/// The logical kind of a node in the document tree.
#[derive(Clone, Copy, Debug, PartialEq, Eq, Structural)]
pub enum NodeKind {
    /// The model owned by the document.
    Model,
    /// A named value of the model.
    Parameter,
    /// A reaction of the model.
    Reaction,
    /// A rule giving the rate of change of a variable.
    RateRule,
    /// A rule assigning a value to a variable.
    AssignmentRule,
    /// A species reference standing on the reactant side of a reaction.
    Reactant,
    /// A species reference standing on the product side of a reaction.
    Product,
}

/// The plain attributes a node can carry.  Which of them are meaningful
/// depends on the node's kind; the facades expose only the meaningful ones.
pub struct Attrs {
    /// The identifier.
    pub id: String,
    /// The optional human-readable name; empty when unset.
    pub name: String,
    /// The units of a parameter.
    pub units: String,
    /// The IEEE-754 bit pattern of a parameter's numeric value, if set.
    pub value: Option<u64>,
    /// Whether the entity is constant.
    pub constant: bool,
    /// The variable a rule speaks of.
    pub variable: String,
    /// The formula of a rule.
    pub formula: String,
    /// The species identifier of a species reference.
    pub species: String,
    /// The IEEE-754 bit pattern of a species reference's stoichiometry.
    pub stoichiometry: u64,
}

/// The dynamic borrow state of one node: how many shared accesses are
/// outstanding, and whether an exclusive access is outstanding.
pub struct BorrowState {
    /// The number of outstanding shared accesses.
    pub readers: usize,
    /// Whether an exclusive access is outstanding.
    pub writer: bool,
}

/// One node of the document tree.
pub struct Node {
    /// What the node is.
    pub kind: NodeKind,
    /// The index of the owning node; None for a node the document owns.
    pub parent: Option<usize>,
    /// The node's plain attributes.
    pub attrs: Attrs,
    /// The reserved metadata slot: None while absent, Some holding the
    /// annotation container's child elements once present.
    pub annotation: Option<Vec<Element>>,
    /// The node's dynamic borrow state.
    pub borrow: BorrowState,
}

/// No access is outstanding on the node.
pub open spec fn unborrowed(n: Node) -> bool {
    n.borrow.readers == 0 && !n.borrow.writer
}

/// A further shared access may be acquired.
pub open spec fn can_read(n: Node) -> bool {
    !n.borrow.writer && n.borrow.readers < usize::MAX
}

/// An exclusive access may be acquired.
pub open spec fn can_write(n: Node) -> bool {
    !n.borrow.writer && n.borrow.readers == 0
}

/// `b` is `a` with at most the attributes changed.
pub open spec fn same_but_attrs(a: Node, b: Node) -> bool {
    b == (Node { attrs: b.attrs, ..a })
}

/// `b` is `a` with at most the annotation slot changed.
pub open spec fn same_but_annotation(a: Node, b: Node) -> bool {
    b == (Node { annotation: b.annotation, ..a })
}

/// `b` is `a` with at most the borrow state changed.
pub open spec fn same_but_borrow(a: Node, b: Node) -> bool {
    b == (Node { borrow: b.borrow, ..a })
}

/// `b` is `a` with the identifier set to `id`.
pub open spec fn set_id_rel(a: Node, b: Node, id: Seq<char>) -> bool {
    same_but_attrs(a, b) && b.attrs == (Attrs { id: b.attrs.id, ..a.attrs }) && b.attrs.id@ == id
}

/// `b` is `a` with the name set to `name`.
pub open spec fn set_name_rel(a: Node, b: Node, name: Seq<char>) -> bool {
    same_but_attrs(a, b) && b.attrs == (Attrs { name: b.attrs.name, ..a.attrs })
        && b.attrs.name@ == name
}

/// `b` is `a` with the units set to `units`.
pub open spec fn set_units_rel(a: Node, b: Node, units: Seq<char>) -> bool {
    same_but_attrs(a, b) && b.attrs == (Attrs { units: b.attrs.units, ..a.attrs })
        && b.attrs.units@ == units
}

/// `b` is `a` with the value slot set to `value`.
pub open spec fn set_value_rel(a: Node, b: Node, value: Option<u64>) -> bool {
    same_but_attrs(a, b) && b.attrs == (Attrs { value, ..a.attrs })
}

/// `b` is `a` with the constant flag set to `constant`.
pub open spec fn set_constant_rel(a: Node, b: Node, constant: bool) -> bool {
    same_but_attrs(a, b) && b.attrs == (Attrs { constant, ..a.attrs })
}

/// `b` is `a` with the variable set to `variable`.
pub open spec fn set_variable_rel(a: Node, b: Node, variable: Seq<char>) -> bool {
    same_but_attrs(a, b) && b.attrs == (Attrs { variable: b.attrs.variable, ..a.attrs })
        && b.attrs.variable@ == variable
}

/// `b` is `a` with the formula set to `formula`.
pub open spec fn set_formula_rel(a: Node, b: Node, formula: Seq<char>) -> bool {
    same_but_attrs(a, b) && b.attrs == (Attrs { formula: b.attrs.formula, ..a.attrs })
        && b.attrs.formula@ == formula
}

/// `b` is `a` with the species identifier set to `species`.
pub open spec fn set_species_rel(a: Node, b: Node, species: Seq<char>) -> bool {
    same_but_attrs(a, b) && b.attrs == (Attrs { species: b.attrs.species, ..a.attrs })
        && b.attrs.species@ == species
}

/// `b` is `a` with the stoichiometry set to `stoichiometry`.
pub open spec fn set_stoichiometry_rel(a: Node, b: Node, stoichiometry: u64) -> bool {
    same_but_attrs(a, b) && b.attrs == (Attrs { stoichiometry, ..a.attrs })
}

/// The root owner of the document tree.
pub struct SBMLDocument {
    /// The major number of the declared schema version.
    pub major: u32,
    /// The minor number of the declared schema version.
    pub minor: u32,
    /// The arena of all nodes, in creation order.
    pub nodes: Vec<Node>,
}

/// A node's owner, if any, was created before the node: ownership is a tree.
pub open spec fn doc_wf(d: &SBMLDocument) -> bool {
    forall|i: int|
        0 <= i < d.nodes@.len() ==> match (#[trigger] d.nodes@[i]).parent {
            Some(p) => (p as int) < i,
            None => true,
        }
}

/// Nothing of the document changed.
pub open spec fn doc_unchanged(pre: &SBMLDocument, post: &SBMLDocument) -> bool {
    post.major == pre.major && post.minor == pre.minor && post.nodes@ == pre.nodes@
}

/// Only the node at `i` changed.
pub open spec fn updated_at(pre: &SBMLDocument, post: &SBMLDocument, i: int) -> bool {
    &&& post.major == pre.major
    &&& post.minor == pre.minor
    &&& 0 <= i < pre.nodes@.len()
    &&& post.nodes@ == pre.nodes@.update(i, post.nodes@[i])
}

/// Exactly one node was appended.
pub open spec fn appended(pre: &SBMLDocument, post: &SBMLDocument) -> bool {
    &&& post.major == pre.major
    &&& post.minor == pre.minor
    &&& post.nodes@.len() == pre.nodes@.len() + 1
    &&& post.nodes@ == pre.nodes@.push(post.nodes@[pre.nodes@.len() as int])
}

/// The fresh node a factory creates, before its per-kind attributes are set.
pub open spec fn fresh_node(n: Node, kind: NodeKind, parent: Option<usize>) -> bool {
    &&& n.kind == kind
    &&& n.parent == parent
    &&& n.attrs.id@ == Seq::<char>::empty()
    &&& n.attrs.name@ == Seq::<char>::empty()
    &&& n.attrs.units@ == Seq::<char>::empty()
    &&& n.attrs.value is None
    &&& n.attrs.constant == true
    &&& n.attrs.variable@ == Seq::<char>::empty()
    &&& n.attrs.formula@ == Seq::<char>::empty()
    &&& n.attrs.species@ == Seq::<char>::empty()
    &&& n.attrs.stoichiometry == 0x3FF0000000000000u64
    &&& n.annotation is None
    &&& unborrowed(n)
}

/// An operation that changes one node but not its owner link keeps the
/// ownership tree well formed.
pub proof fn lemma_update_preserves_wf(pre: &SBMLDocument, post: &SBMLDocument, i: int)
    requires
        doc_wf(pre),
        updated_at(pre, post, i),
        post.nodes@[i].parent == pre.nodes@[i].parent,
    ensures
        doc_wf(post),
{
    assert forall|j: int| 0 <= j < post.nodes@.len() implies match (
    #[trigger] post.nodes@[j]).parent {
        Some(p) => (p as int) < j,
        None => true,
    } by {
        if j != i {
            assert(post.nodes@[j] == pre.nodes@[j]);
        }
    }
}

/// Appending a node leaves every node that was already there, and with
/// it the validity of every outstanding handle, untouched.
pub proof fn lemma_appended_preserves_nodes(pre: &SBMLDocument, post: &SBMLDocument, i: int)
    requires
        appended(pre, post),
        0 <= i < pre.nodes@.len(),
    ensures
        post.nodes@[i] == pre.nodes@[i],
{
}

/// The attributes every factory leaves at their initialized defaults.
pub open spec fn default_blank(n: Node) -> bool {
    &&& n.attrs.name@ == Seq::<char>::empty()
    &&& n.attrs.units@ == Seq::<char>::empty()
    &&& n.attrs.value is None
    &&& n.attrs.constant == true
    &&& n.attrs.stoichiometry == 0x3FF0000000000000u64
    &&& n.annotation is None
    &&& unborrowed(n)
}

/// A node a factory just created with its identifier set.
pub open spec fn created_with_id(n: Node, kind: NodeKind, parent: Option<usize>, id: Seq<
    char,
>) -> bool {
    &&& default_blank(n)
    &&& n.kind == kind
    &&& n.parent == parent
    &&& n.attrs.id@ == id
    &&& n.attrs.variable@ == Seq::<char>::empty()
    &&& n.attrs.formula@ == Seq::<char>::empty()
    &&& n.attrs.species@ == Seq::<char>::empty()
}

/// A rule node a factory just created with its variable and formula set.
pub open spec fn created_rule(
    n: Node,
    kind: NodeKind,
    parent: Option<usize>,
    variable: Seq<char>,
    formula: Seq<char>,
) -> bool {
    &&& default_blank(n)
    &&& n.kind == kind
    &&& n.parent == parent
    &&& n.attrs.id@ == Seq::<char>::empty()
    &&& n.attrs.variable@ == variable
    &&& n.attrs.formula@ == formula
    &&& n.attrs.species@ == Seq::<char>::empty()
}

/// A species reference node a factory just created, with its species and
/// its stoichiometry bit pattern set.
pub open spec fn created_species_ref(
    n: Node,
    kind: NodeKind,
    parent: Option<usize>,
    species: Seq<char>,
    stoichiometry: u64,
) -> bool {
    &&& n.kind == kind
    &&& n.parent == parent
    &&& n.attrs.id@ == Seq::<char>::empty()
    &&& n.attrs.name@ == Seq::<char>::empty()
    &&& n.attrs.units@ == Seq::<char>::empty()
    &&& n.attrs.value is None
    &&& n.attrs.constant == true
    &&& n.attrs.variable@ == Seq::<char>::empty()
    &&& n.attrs.formula@ == Seq::<char>::empty()
    &&& n.attrs.species@ == species
    &&& n.attrs.stoichiometry == stoichiometry
    &&& n.annotation is None
    &&& unborrowed(n)
}

impl SBMLDocument {
    /// A new, empty document with the given declared schema version.
    pub fn new(major: u32, minor: u32) -> (r: SBMLDocument)
        ensures
            r.major == major,
            r.minor == minor,
            r.nodes@.len() == 0,
            doc_wf(&r),
    {
        SBMLDocument { major, minor, nodes: Vec::new() }
    }

    /// Appends a fresh node of the given kind under the given owner and
    /// returns its index.  The fresh node carries the initialized
    /// defaults: empty strings, no value, constant set, stoichiometry one.
    pub(crate) fn push_node(&mut self, kind: NodeKind, parent: Option<usize>) -> (r: usize)
        requires
            match parent {
                Some(p) => (p as int) < old(self).nodes@.len(),
                None => true,
            },
        ensures
            r as int == old(self).nodes@.len(),
            appended(old(self), final(self)),
            fresh_node(final(self).nodes@[r as int], kind, parent),
            doc_wf(old(self)) ==> doc_wf(final(self)),
    {
        let idx = self.nodes.len();
        let node = Node {
            kind,
            parent,
            attrs: Attrs {
                id: String::new(),
                name: String::new(),
                units: String::new(),
                value: None,
                constant: true,
                variable: String::new(),
                formula: String::new(),
                species: String::new(),
                stoichiometry: 0x3FF0000000000000u64,
            },
            annotation: None,
            borrow: BorrowState { readers: 0, writer: false },
        };
        self.nodes.push(node);
        proof {
            assert(self.nodes@ =~= old(self).nodes@.push(
                self.nodes@[old(self).nodes@.len() as int],
            ));
        }
        idx
    }
}

impl Default for SBMLDocument {
    /// A new, empty document with the customary declared schema version.
    fn default() -> (r: SBMLDocument)
        ensures
            r.major == 3,
            r.minor == 2,
            r.nodes@.len() == 0,
            doc_wf(&r),
    {
        SBMLDocument::new(3, 2)
    }
}

} // verus!
