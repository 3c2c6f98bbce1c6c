//! The base handle: what every node offers.
//!
//! An `SBase` is a transient capability for one node, holding nothing but
//! the node's index.  Every typed handle upcasts to it.  It carries the
//! ownership/borrow bridge: shared reads go through `&SBMLDocument` and
//! are already exclusive of any mutation by Rust's reference discipline;
//! mutating operations and explicit access acquisition consult the node's
//! dynamic borrow tracker, fail fast with `BorrowConflict` on a
//! conflicting access, and never panic.

use vstd::prelude::*;
use vstd::string::StringExecFns;
use crate::annotation::{find_elem, find_in, upsert_elem, upsert_in};
use crate::document::{
    can_read, can_write, doc_unchanged, same_but_annotation, same_but_borrow, set_id_rel,
    set_name_rel, unborrowed, updated_at, BorrowState, Node, SBMLDocument,
};
use crate::error::SbmlError;
use crate::parse::{parse_annotation, spec_parse_annotation};
use crate::xml::{elems_view, render_annotation, ser_annotation, wf_elem, Element, ElemV};

verus! {

/// A handle for one node, seen at the root of the node-type hierarchy.
#[derive(Clone, Copy)]
pub struct SBase {
    /// The index of the node in the document's arena.
    pub idx: usize,
}

/// The node after a shared access is acquired.
pub open spec fn node_after_acquire_read(n: Node) -> Node {
    Node {
        borrow: BorrowState { readers: (n.borrow.readers + 1) as usize, writer: n.borrow.writer },
        ..n
    }
}

/// The node after a shared access is released.
pub open spec fn node_after_release_read(n: Node) -> Node {
    Node {
        borrow: BorrowState {
            readers: if n.borrow.readers > 0 {
                (n.borrow.readers - 1) as usize
            } else {
                0
            },
            writer: n.borrow.writer,
        },
        ..n
    }
}

/// The node after an exclusive access is acquired.
pub open spec fn node_after_acquire_write(n: Node) -> Node {
    Node { borrow: BorrowState { readers: n.borrow.readers, writer: true }, ..n }
}

/// The node after an exclusive access is released.
pub open spec fn node_after_release_write(n: Node) -> Node {
    Node { borrow: BorrowState { readers: n.borrow.readers, writer: false }, ..n }
}

/// Borrow exclusivity: while a shared access is outstanding an exclusive
/// access is refused, and releasing the shared access allows an exclusive
/// access exactly where one was allowed before it was acquired.
pub proof fn lemma_borrow_exclusivity(n: Node)
    requires
        can_read(n),
    ensures
        !can_write(node_after_acquire_read(n)),
        can_write(node_after_release_read(node_after_acquire_read(n))) == can_write(n),
{
}

/// The raw markup text of the node's annotation container: empty while
/// the annotation is absent.
pub open spec fn annotation_text(n: Node) -> Seq<char> {
    match n.annotation {
        Some(v) => ser_annotation(elems_view(v@)),
        None => Seq::<char>::empty(),
    }
}

/// The elements the node's annotation container holds.
pub open spec fn ann_children(n: Node) -> Seq<ElemV> {
    match n.annotation {
        Some(v) => elems_view(v@),
        None => Seq::<ElemV>::empty(),
    }
}

/// The first element of the node's annotation carrying `tag`, if any.
pub open spec fn ann_lookup(n: Node, tag: Seq<char>) -> Option<ElemV> {
    match n.annotation {
        Some(v) => find_elem(elems_view(v@), tag),
        None => None,
    }
}

/// `b` is `a` with the annotation container replaced, holding `elems`.
pub open spec fn set_annotation_rel(a: Node, b: Node, elems: Seq<ElemV>) -> bool {
    &&& same_but_annotation(a, b)
    &&& b.annotation is Some
    &&& ann_children(b) == elems
}

/// `b` is `a` with `v` merged into the annotation container.
pub open spec fn set_annotation_serde_rel(a: Node, b: Node, v: ElemV) -> bool {
    &&& same_but_annotation(a, b)
    &&& b.annotation is Some
    &&& ann_children(b) == upsert_elem(ann_children(a), v)
}

/// Round trip at the node level: after a structured set of `v`, the
/// structured lookup of `v`'s own tag on the node yields exactly `v`.
pub proof fn lemma_set_then_get_annotation(a: Node, b: Node, v: ElemV)
    requires
        set_annotation_serde_rel(a, b, v),
    ensures
        ann_lookup(b, v.name) == Some(v),
{
    crate::annotation::lemma_annotation_round_trip(ann_children(a), v);
}

/// Merge preservation at the node level: a structured set of `v` leaves
/// the structured lookup of every unrelated tag on the node unchanged.
pub proof fn lemma_set_annotation_preserves_unrelated(a: Node, b: Node, v: ElemV, tag: Seq<char>)
    requires
        set_annotation_serde_rel(a, b, v),
        tag != v.name,
    ensures
        ann_lookup(b, tag) == ann_lookup(a, tag),
{
    crate::annotation::lemma_merge_preserves_unrelated(ann_children(a), v, tag);
    if a.annotation is None {
        assert(find_elem(Seq::<ElemV>::empty(), tag) is None);
    }
}

/// Non-interference: an operation that changes only node `i` leaves the
/// annotation of every other node, raw and structured alike, untouched.
pub proof fn lemma_annotation_non_interference(
    pre: &SBMLDocument,
    post: &SBMLDocument,
    i: int,
    j: int,
    tag: Seq<char>,
)
    requires
        updated_at(pre, post, i),
        0 <= j < pre.nodes@.len(),
        j != i,
    ensures
        post.nodes@[j] == pre.nodes@[j],
        annotation_text(post.nodes@[j]) == annotation_text(pre.nodes@[j]),
        ann_lookup(post.nodes@[j], tag) == ann_lookup(pre.nodes@[j], tag),
{
}

impl SBase {
    /// Whether the handle points into the document.
    pub open spec fn valid(self, d: &SBMLDocument) -> bool {
        (self.idx as int) < d.nodes@.len()
    }

    /// The node's identifier.
    pub fn id(&self, doc: &SBMLDocument) -> (r: String)
        requires
            self.valid(doc),
        ensures
            r@ == doc.nodes@[self.idx as int].attrs.id@,
    {
        doc.nodes[self.idx].attrs.id.clone()
    }

    /// Sets the node's identifier; refused while any access is outstanding.
    pub fn set_id(&self, doc: &mut SBMLDocument, id: &str) -> (r: Result<(), SbmlError>)
        requires
            self.valid(old(doc)),
        ensures
            match r {
                Ok(()) => {
                    &&& unborrowed(old(doc).nodes@[self.idx as int])
                    &&& updated_at(old(doc), final(doc), self.idx as int)
                    &&& set_id_rel(
                        old(doc).nodes@[self.idx as int],
                        final(doc).nodes@[self.idx as int],
                        id@,
                    )
                },
                Err(e) => {
                    &&& e == SbmlError::BorrowConflict
                    &&& !unborrowed(old(doc).nodes@[self.idx as int])
                    &&& doc_unchanged(old(doc), final(doc))
                },
            },
    {
        let i = self.idx;
        if doc.nodes[i].borrow.readers > 0 || doc.nodes[i].borrow.writer {
            return Err(SbmlError::BorrowConflict);
        }
        doc.nodes[i].attrs.id = String::from_str(id);
        Ok(())
    }

    /// The node's human-readable name; empty while unset.
    pub fn name(&self, doc: &SBMLDocument) -> (r: String)
        requires
            self.valid(doc),
        ensures
            r@ == doc.nodes@[self.idx as int].attrs.name@,
    {
        doc.nodes[self.idx].attrs.name.clone()
    }

    /// Sets the node's name; refused while any access is outstanding.
    pub fn set_name(&self, doc: &mut SBMLDocument, name: &str) -> (r: Result<(), SbmlError>)
        requires
            self.valid(old(doc)),
        ensures
            match r {
                Ok(()) => {
                    &&& unborrowed(old(doc).nodes@[self.idx as int])
                    &&& updated_at(old(doc), final(doc), self.idx as int)
                    &&& set_name_rel(
                        old(doc).nodes@[self.idx as int],
                        final(doc).nodes@[self.idx as int],
                        name@,
                    )
                },
                Err(e) => {
                    &&& e == SbmlError::BorrowConflict
                    &&& !unborrowed(old(doc).nodes@[self.idx as int])
                    &&& doc_unchanged(old(doc), final(doc))
                },
            },
    {
        let i = self.idx;
        if doc.nodes[i].borrow.readers > 0 || doc.nodes[i].borrow.writer {
            return Err(SbmlError::BorrowConflict);
        }
        doc.nodes[i].attrs.name = String::from_str(name);
        Ok(())
    }

    /// Acquires a shared access on the node.  Succeeds exactly while no
    /// exclusive access is outstanding and the reader count has room.
    pub fn acquire_read(&self, doc: &mut SBMLDocument) -> (r: Result<(), SbmlError>)
        requires
            self.valid(old(doc)),
        ensures
            match r {
                Ok(()) => {
                    &&& can_read(old(doc).nodes@[self.idx as int])
                    &&& updated_at(old(doc), final(doc), self.idx as int)
                    &&& final(doc).nodes@[self.idx as int] == node_after_acquire_read(
                        old(doc).nodes@[self.idx as int],
                    )
                },
                Err(e) => {
                    &&& e == SbmlError::BorrowConflict
                    &&& !can_read(old(doc).nodes@[self.idx as int])
                    &&& doc_unchanged(old(doc), final(doc))
                },
            },
    {
        let i = self.idx;
        if doc.nodes[i].borrow.writer || doc.nodes[i].borrow.readers == usize::MAX {
            return Err(SbmlError::BorrowConflict);
        }
        let readers = doc.nodes[i].borrow.readers;
        doc.nodes[i].borrow.readers = readers + 1;
        Ok(())
    }

    /// Releases one shared access on the node.
    pub fn release_read(&self, doc: &mut SBMLDocument)
        requires
            self.valid(old(doc)),
            old(doc).nodes@[self.idx as int].borrow.readers > 0,
        ensures
            updated_at(old(doc), final(doc), self.idx as int),
            final(doc).nodes@[self.idx as int] == node_after_release_read(
                old(doc).nodes@[self.idx as int],
            ),
    {
        let i = self.idx;
        let readers = doc.nodes[i].borrow.readers;
        doc.nodes[i].borrow.readers = readers - 1;
    }

    /// Acquires the exclusive access on the node.  Succeeds exactly while
    /// no access of either kind is outstanding.
    pub fn acquire_write(&self, doc: &mut SBMLDocument) -> (r: Result<(), SbmlError>)
        requires
            self.valid(old(doc)),
        ensures
            match r {
                Ok(()) => {
                    &&& can_write(old(doc).nodes@[self.idx as int])
                    &&& updated_at(old(doc), final(doc), self.idx as int)
                    &&& final(doc).nodes@[self.idx as int] == node_after_acquire_write(
                        old(doc).nodes@[self.idx as int],
                    )
                },
                Err(e) => {
                    &&& e == SbmlError::BorrowConflict
                    &&& !can_write(old(doc).nodes@[self.idx as int])
                    &&& doc_unchanged(old(doc), final(doc))
                },
            },
    {
        let i = self.idx;
        if doc.nodes[i].borrow.writer || doc.nodes[i].borrow.readers > 0 {
            return Err(SbmlError::BorrowConflict);
        }
        doc.nodes[i].borrow.writer = true;
        Ok(())
    }

    /// Releases the exclusive access on the node.
    pub fn release_write(&self, doc: &mut SBMLDocument)
        requires
            self.valid(old(doc)),
            old(doc).nodes@[self.idx as int].borrow.writer,
        ensures
            updated_at(old(doc), final(doc), self.idx as int),
            final(doc).nodes@[self.idx as int] == node_after_release_write(
                old(doc).nodes@[self.idx as int],
            ),
    {
        let i = self.idx;
        doc.nodes[i].borrow.writer = false;
    }

    /// The raw markup text of the node's annotation container; empty while
    /// the annotation is absent.
    pub fn get_annotation(&self, doc: &SBMLDocument) -> (r: String)
        requires
            self.valid(doc),
        ensures
            r@ == annotation_text(doc.nodes@[self.idx as int]),
    {
        match &doc.nodes[self.idx].annotation {
            Some(elems) => render_annotation(elems),
            None => String::new(),
        }
    }

    /// Parses `text` as markup and attaches it as the node's annotation,
    /// replacing whatever the container held.
    ///
    /// Input that is not already wrapped in the reserved container element
    /// is wrapped; input that is wrapped contributes the container's child
    /// elements.  Text that does not parse is refused as
    /// `MalformedMarkup` and the node is left unchanged; the text is
    /// judged before the borrow state.
    pub fn set_annotation(&self, doc: &mut SBMLDocument, text: &str) -> (r: Result<
        (),
        SbmlError,
    >)
        requires
            self.valid(old(doc)),
        ensures
            match r {
                Ok(()) => {
                    &&& spec_parse_annotation(text@) is Some
                    &&& unborrowed(old(doc).nodes@[self.idx as int])
                    &&& updated_at(old(doc), final(doc), self.idx as int)
                    &&& set_annotation_rel(
                        old(doc).nodes@[self.idx as int],
                        final(doc).nodes@[self.idx as int],
                        spec_parse_annotation(text@)->0,
                    )
                },
                Err(e) => {
                    &&& doc_unchanged(old(doc), final(doc))
                    &&& (e == SbmlError::MalformedMarkup || e == SbmlError::BorrowConflict)
                    &&& (e == SbmlError::MalformedMarkup <==> spec_parse_annotation(text@) is None)
                    &&& (e == SbmlError::BorrowConflict <==> spec_parse_annotation(text@) is Some
                        && !unborrowed(old(doc).nodes@[self.idx as int]))
                },
            },
    {
        let i = self.idx;
        let parsed = match parse_annotation(text) {
            Some(v) => v,
            None => {
                return Err(SbmlError::MalformedMarkup);
            },
        };
        if doc.nodes[i].borrow.readers > 0 || doc.nodes[i].borrow.writer {
            return Err(SbmlError::BorrowConflict);
        }
        doc.nodes[i].annotation = Some(parsed);
        Ok(())
    }

    /// Merges a structured value into the node's annotation container.
    ///
    /// The value must be well formed, so that it serializes to valid
    /// markup; a value that is not is refused as `MalformedMarkup`.  The
    /// merge replaces exactly the element tagged like `value` and keeps
    /// every other element.  The well-formedness of the value is judged
    /// before the borrow state.
    pub fn set_annotation_serde(&self, doc: &mut SBMLDocument, value: &Element) -> (r: Result<
        (),
        SbmlError,
    >)
        requires
            self.valid(old(doc)),
        ensures
            match r {
                Ok(()) => {
                    &&& wf_elem(value@)
                    &&& unborrowed(old(doc).nodes@[self.idx as int])
                    &&& updated_at(old(doc), final(doc), self.idx as int)
                    &&& set_annotation_serde_rel(
                        old(doc).nodes@[self.idx as int],
                        final(doc).nodes@[self.idx as int],
                        value@,
                    )
                },
                Err(e) => {
                    &&& doc_unchanged(old(doc), final(doc))
                    &&& (e == SbmlError::MalformedMarkup || e == SbmlError::BorrowConflict)
                    &&& (e == SbmlError::MalformedMarkup <==> !wf_elem(value@))
                    &&& (e == SbmlError::BorrowConflict <==> wf_elem(value@) && !unborrowed(
                        old(doc).nodes@[self.idx as int],
                    ))
                },
            },
    {
        let i = self.idx;
        if !value.is_well_formed() {
            return Err(SbmlError::MalformedMarkup);
        }
        if doc.nodes[i].borrow.readers > 0 || doc.nodes[i].borrow.writer {
            return Err(SbmlError::BorrowConflict);
        }
        let mut node = doc.nodes.remove(i);
        let mut elems: Vec<Element> = match node.annotation {
            Some(e) => e,
            None => Vec::new(),
        };
        proof {
            assert(elems_view(Seq::<Element>::empty()) =~= Seq::<ElemV>::empty());
        }
        upsert_in(&mut elems, value);
        node.annotation = Some(elems);
        doc.nodes.insert(i, node);
        proof {
            assert(doc.nodes@ =~= old(doc).nodes@.update(
                i as int,
                doc.nodes@[i as int],
            ));
        }
        Ok(())
    }

    /// Looks up the structured annotation stored under `tag` and returns a
    /// copy of it; `AnnotationNotFound` when no element carries the tag.
    pub fn get_annotation_serde(&self, doc: &SBMLDocument, tag: &str) -> (r: Result<
        Element,
        SbmlError,
    >)
        requires
            self.valid(doc),
        ensures
            match r {
                Ok(e) => ann_lookup(doc.nodes@[self.idx as int], tag@) == Some(e@),
                Err(e) => {
                    &&& e == SbmlError::AnnotationNotFound
                    &&& ann_lookup(doc.nodes@[self.idx as int], tag@) is None
                },
            },
    {
        match &doc.nodes[self.idx].annotation {
            Some(elems) => match find_in(elems, tag) {
                Some(e) => Ok(e),
                None => Err(SbmlError::AnnotationNotFound),
            },
            None => Err(SbmlError::AnnotationNotFound),
        }
    }

    /// Looks up the structured annotation stored under `tag` and reads its
    /// field named `field`.  `AnnotationNotFound` when no element carries
    /// the tag; `SchemaMismatch` when the element carries no such field.
    pub fn get_annotation_field(&self, doc: &SBMLDocument, tag: &str, field: &str) -> (r: Result<
        String,
        SbmlError,
    >)
        requires
            self.valid(doc),
        ensures
            match r {
                Ok(v) => {
                    &&& ann_lookup(doc.nodes@[self.idx as int], tag@) is Some
                    &&& crate::xml::find_field(
                        ann_lookup(doc.nodes@[self.idx as int], tag@)->0.fields,
                        field@,
                    ) == Some(v@)
                },
                Err(e) => {
                    &&& (e == SbmlError::AnnotationNotFound <==> ann_lookup(
                        doc.nodes@[self.idx as int],
                        tag@,
                    ) is None)
                    &&& (e == SbmlError::SchemaMismatch <==> ann_lookup(
                        doc.nodes@[self.idx as int],
                        tag@,
                    ) is Some && crate::xml::find_field(
                        ann_lookup(doc.nodes@[self.idx as int], tag@)->0.fields,
                        field@,
                    ) is None)
                },
            },
    {
        match self.get_annotation_serde(doc, tag) {
            Ok(e) => match e.get_field(field) {
                Some(v) => Ok(v),
                None => Err(SbmlError::SchemaMismatch),
            },
            Err(_) => Err(SbmlError::AnnotationNotFound),
        }
    }
}

} // verus!
