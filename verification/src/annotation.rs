//! Structured annotation storage.
//!
//! An annotation container holds a sequence of tagged elements.  A
//! structured set replaces exactly the element carrying the same tag, or
//! appends the value when no element carries it; every other element is
//! preserved.  A structured get returns the first element carrying the
//! requested tag.

use vstd::prelude::*;
use crate::xml::{Element, ElemV, elems_view, lemma_elems_view_push};

verus! {

/// The first element tagged `tag`, if any.
pub open spec fn find_elem(s: Seq<ElemV>, tag: Seq<char>) -> Option<ElemV>
    decreases s.len(),
{
    if s.len() == 0 {
        None
    } else if s[0].name == tag {
        Some(s[0])
    } else {
        find_elem(s.drop_first(), tag)
    }
}

/// `s` with the first element tagged like `v` replaced by `v`, or with `v`
/// appended when no element carries that tag.
pub open spec fn upsert_elem(s: Seq<ElemV>, v: ElemV) -> Seq<ElemV>
    decreases s.len(),
{
    if s.len() == 0 {
        seq![v]
    } else if s[0].name == v.name {
        seq![v] + s.drop_first()
    } else {
        seq![s[0]] + upsert_elem(s.drop_first(), v)
    }
}

/// Round trip: after a structured set of `v`, a structured get of `v`'s
/// own tag yields exactly `v`, whatever the container held before.
pub proof fn lemma_annotation_round_trip(s: Seq<ElemV>, v: ElemV)
    ensures
        find_elem(upsert_elem(s, v), v.name) == Some(v),
    decreases s.len(),
{
    if s.len() == 0 {
        assert(upsert_elem(s, v)[0] == v);
    } else if s[0].name == v.name {
        assert(upsert_elem(s, v)[0] == v);
    } else {
        let u = upsert_elem(s, v);
        assert(u[0] == s[0]);
        assert(u.drop_first() =~= upsert_elem(s.drop_first(), v));
        lemma_annotation_round_trip(s.drop_first(), v);
    }
}

/// Merge preservation: a structured set of `v` leaves the lookup of every
/// unrelated tag exactly as it was; in particular an unrelated element
/// already present stays unchanged.
pub proof fn lemma_merge_preserves_unrelated(s: Seq<ElemV>, v: ElemV, tag: Seq<char>)
    requires
        tag != v.name,
    ensures
        find_elem(upsert_elem(s, v), tag) == find_elem(s, tag),
    decreases s.len(),
{
    if s.len() == 0 {
        let u = upsert_elem(s, v);
        assert(u[0] == v);
        assert(u.drop_first() =~= Seq::<ElemV>::empty());
    } else if s[0].name == v.name {
        let u = upsert_elem(s, v);
        assert(u[0] == v);
        assert(u.drop_first() =~= s.drop_first());
        assert(s[0].name != tag);
    } else {
        let u = upsert_elem(s, v);
        assert(u[0] == s[0]);
        assert(u.drop_first() =~= upsert_elem(s.drop_first(), v));
        lemma_merge_preserves_unrelated(s.drop_first(), v, tag);
    }
}

/// When no element carries `v`'s tag, the structured set appends `v`.
pub proof fn lemma_upsert_no_match(s: Seq<ElemV>, v: ElemV)
    requires
        forall|j: int| 0 <= j < s.len() ==> (#[trigger] s[j]).name != v.name,
    ensures
        upsert_elem(s, v) == s.push(v),
    decreases s.len(),
{
    if s.len() == 0 {
        assert(upsert_elem(s, v) =~= s.push(v));
    } else {
        assert(s[0].name != v.name);
        lemma_upsert_no_match(s.drop_first(), v);
        assert(forall|j: int|
            0 <= j < s.drop_first().len() ==> (#[trigger] s.drop_first()[j]).name != v.name);
        assert(upsert_elem(s, v) =~= s.push(v));
    }
}

/// When the first element carrying `v`'s tag stands at `k`, the structured
/// set replaces exactly that element.
pub proof fn lemma_upsert_at(s: Seq<ElemV>, v: ElemV, k: int)
    requires
        0 <= k < s.len(),
        s[k].name == v.name,
        forall|j: int| 0 <= j < k ==> (#[trigger] s[j]).name != v.name,
    ensures
        upsert_elem(s, v) == s.update(k, v),
    decreases s.len(),
{
    if k == 0 {
        assert(upsert_elem(s, v) =~= s.update(0, v));
    } else {
        assert(s[0].name != v.name);
        lemma_upsert_at(s.drop_first(), v, k - 1);
        assert(upsert_elem(s, v) =~= s.update(k, v));
    }
}

/// Looks the tag up among the container's elements and returns a copy of
/// the first element carrying it.
pub(crate) fn find_in(elems: &Vec<Element>, tag: &str) -> (r: Option<Element>)
    ensures
        match r {
            Some(e) => find_elem(elems_view(elems@), tag@) == Some(e@),
            None => find_elem(elems_view(elems@), tag@) is None,
        },
{
    let target = String::from_str(tag);
    proof {
        assert(elems_view(elems@).skip(0) =~= elems_view(elems@));
    }
    let mut i: usize = 0;
    while i < elems.len()
        invariant
            i <= elems@.len(),
            target@ == tag@,
            find_elem(elems_view(elems@), tag@) == find_elem(
                elems_view(elems@).skip(i as int),
                tag@,
            ),
        decreases elems@.len() - i,
    {
        proof {
            assert(elems_view(elems@).skip(i as int)[0] == elems@[i as int]@);
            assert(elems_view(elems@).skip(i as int).drop_first() =~= elems_view(elems@).skip(
                i as int + 1,
            ));
        }
        if elems[i].name == target {
            return Some(elems[i].clone());
        }
        i = i + 1;
    }
    proof {
        assert(elems_view(elems@).skip(elems@.len() as int) =~= Seq::<ElemV>::empty());
    }
    None
}

/// Merges `value` into the container's elements: replaces the first
/// element carrying the same tag, or appends `value` when none does.
pub(crate) fn upsert_in(elems: &mut Vec<Element>, value: &Element)
    ensures
        elems_view(final(elems)@) == upsert_elem(elems_view(old(elems)@), value@),
{
    let n = elems.len();
    let mut i: usize = 0;
    while i < n
        invariant
            n == elems@.len(),
            i <= n,
            elems@ == old(elems)@,
            forall|j: int| 0 <= j < i ==> (#[trigger] elems_view(elems@)[j]).name != value@.name,
        decreases n - i,
    {
        proof {
            assert(elems_view(elems@)[i as int] == elems@[i as int]@);
        }
        if elems[i].name == value.name {
            let ghost pre: Seq<Element> = elems@;
            elems[i] = value.clone();
            proof {
                assert(elems_view(elems@) =~= elems_view(pre).update(i as int, value@));
                lemma_upsert_at(elems_view(pre), value@, i as int);
            }
            return;
        }
        i = i + 1;
    }
    let ghost pre: Seq<Element> = elems@;
    let cv = value.clone();
    elems.push(cv);
    proof {
        lemma_elems_view_push(pre, elems@[pre.len() as int]);
        lemma_upsert_no_match(elems_view(pre), value@);
    }
}

} // verus!
