//! The raw-annotation parser.
//!
//! The grammar is the markup dialect of the annotation subsystem: an
//! element is `<name>text</name>` or `<name>` followed by fields and
//! `</name>`; a field is `<name>text</name>` with no further nesting; the
//! whole input is either one element, or the reserved container element
//! wrapping a sequence of elements.  Names are nonempty runs of name
//! characters; text runs up to the next markup delimiter.  The grammar is
//! stated as specification functions over the character sequence, and the
//! executable parser returns exactly what they say.

use vstd::prelude::*;
use vstd::string::StrSliceExecFns;
use vstd::string::StringExecFns;
use crate::xml::{fields_view, elems_view, is_name_char, name_char, wf_elem, wf_field, wf_name, Element, ElemV, Field, FieldV};

verus! {

/// The end of the run of name characters starting at `i`.
pub open spec fn spec_name_end(s: Seq<char>, i: int) -> int
    decreases s.len() - i,
{
    if i < s.len() && is_name_char(s[i]) {
        spec_name_end(s, i + 1)
    } else {
        i
    }
}

/// The end of the run of text characters starting at `i`: text stops at
/// either markup delimiter.
pub open spec fn spec_text_end(s: Seq<char>, i: int) -> int
    decreases s.len() - i,
{
    if i < s.len() && s[i] != '<' && s[i] != '>' {
        spec_text_end(s, i + 1)
    } else {
        i
    }
}

/// An opening tag at `i`: `<name>`.  Yields the name and the position
/// after the tag.
pub open spec fn spec_parse_open(s: Seq<char>, i: int) -> Option<(Seq<char>, int)> {
    if i < s.len() && s[i] == '<' {
        let j = spec_name_end(s, i + 1);
        if j > i + 1 && j < s.len() && s[j] == '>' {
            Some((s.subrange(i + 1, j), j + 1))
        } else {
            None
        }
    } else {
        None
    }
}

/// A closing tag at `i` matching `name`: `</name>`.  Yields the position
/// after the tag.
pub open spec fn spec_parse_close(s: Seq<char>, i: int, name: Seq<char>) -> Option<int> {
    if i < s.len() && i + 1 < s.len() && s[i] == '<' && s[i + 1] == '/' {
        let j = spec_name_end(s, i + 2);
        if j < s.len() && s[j] == '>' && s.subrange(i + 2, j) == name {
            Some(j + 1)
        } else {
            None
        }
    } else {
        None
    }
}

/// A field at `i`: `<name>text</name>`, no nesting.
pub open spec fn spec_parse_field(s: Seq<char>, i: int) -> Option<(FieldV, int)> {
    match spec_parse_open(s, i) {
        None => None,
        Some((name, j)) => {
            let t = spec_text_end(s, j);
            match spec_parse_close(s, t, name) {
                None => None,
                Some(end) => Some((FieldV { name, value: s.subrange(j, t) }, end)),
            }
        },
    }
}

/// The run of fields starting at `i`; stops before a closing tag or
/// anything that does not open a tag.
pub open spec fn spec_parse_fields(s: Seq<char>, i: int) -> Option<(Seq<FieldV>, int)>
    decreases s.len() - i,
{
    if i < s.len() && s[i] == '<' && i + 1 < s.len() && s[i + 1] != '/' {
        match spec_parse_field(s, i) {
            None => None,
            Some((f, j)) => if i < j && j <= s.len() {
                match spec_parse_fields(s, j) {
                    None => None,
                    Some((fs, k)) => Some((seq![f] + fs, k)),
                }
            } else {
                None
            },
        }
    } else {
        Some((Seq::<FieldV>::empty(), i))
    }
}

/// An element at `i`: an opening tag, then either fields or text, then
/// the matching closing tag.
pub open spec fn spec_parse_element(s: Seq<char>, i: int) -> Option<(ElemV, int)> {
    match spec_parse_open(s, i) {
        None => None,
        Some((name, j)) => {
            if j < s.len() && s[j] == '<' && j + 1 < s.len() && s[j + 1] != '/' {
                match spec_parse_fields(s, j) {
                    None => None,
                    Some((fs, k)) => match spec_parse_close(s, k, name) {
                        None => None,
                        Some(end) => Some(
                            (ElemV { name, text: Seq::<char>::empty(), fields: fs }, end),
                        ),
                    },
                }
            } else {
                let t = spec_text_end(s, j);
                match spec_parse_close(s, t, name) {
                    None => None,
                    Some(end) => Some(
                        (
                            ElemV {
                                name,
                                text: s.subrange(j, t),
                                fields: Seq::<FieldV>::empty(),
                            },
                            end,
                        ),
                    ),
                }
            }
        },
    }
}

/// The run of elements starting at `i`; stops before a closing tag or
/// anything that does not open a tag.
pub open spec fn spec_parse_elems(s: Seq<char>, i: int) -> Option<(Seq<ElemV>, int)>
    decreases s.len() - i,
{
    if i < s.len() && s[i] == '<' && i + 1 < s.len() && s[i + 1] != '/' {
        match spec_parse_element(s, i) {
            None => None,
            Some((e, j)) => if i < j && j <= s.len() {
                match spec_parse_elems(s, j) {
                    None => None,
                    Some((es, k)) => Some((seq![e] + es, k)),
                }
            } else {
                None
            },
        }
    } else {
        Some((Seq::<ElemV>::empty(), i))
    }
}

/// A whole raw-annotation input: either the reserved container element
/// wrapping a run of elements, or one element, which the setter will
/// wrap itself.  The input must be consumed to its end.
pub open spec fn spec_parse_annotation(s: Seq<char>) -> Option<Seq<ElemV>> {
    match spec_parse_open(s, 0) {
        None => None,
        Some((name, j)) => {
            if name == "annotation"@ {
                match spec_parse_elems(s, j) {
                    None => None,
                    Some((es, k)) => match spec_parse_close(s, k, name) {
                        None => None,
                        Some(end) => if end == s.len() {
                            Some(es)
                        } else {
                            None
                        },
                    },
                }
            } else {
                match spec_parse_element(s, 0) {
                    None => None,
                    Some((e, j2)) => if j2 == s.len() {
                        Some(seq![e])
                    } else {
                        None
                    },
                }
            }
        },
    }
}

/// The name scan stays inside the input, covers name characters only,
/// and stops only at the end or at a character no name may hold.
pub proof fn lemma_name_end_chars(s: Seq<char>, i: int)
    requires
        0 <= i <= s.len(),
    ensures
        i <= spec_name_end(s, i) <= s.len(),
        forall|j: int| i <= j < spec_name_end(s, i) ==> is_name_char(#[trigger] s[j]),
        spec_name_end(s, i) == s.len() || !is_name_char(s[spec_name_end(s, i)]),
    decreases s.len() - i,
{
    if i < s.len() && is_name_char(s[i]) {
        lemma_name_end_chars(s, i + 1);
    }
}

/// The text scan stays inside the input and covers no markup delimiter.
pub proof fn lemma_text_end_chars(s: Seq<char>, i: int)
    requires
        0 <= i <= s.len(),
    ensures
        i <= spec_text_end(s, i) <= s.len(),
        forall|j: int|
            i <= j < spec_text_end(s, i) ==> #[trigger] s[j] != '<' && s[j] != '>',
    decreases s.len() - i,
{
    if i < s.len() && s[i] != '<' && s[i] != '>' {
        lemma_text_end_chars(s, i + 1);
    }
}

/// Every name an opening tag yields is a valid name.
pub proof fn lemma_parse_open_wf(s: Seq<char>, i: int)
    requires
        0 <= i <= s.len(),
        spec_parse_open(s, i) is Some,
    ensures
        wf_name((spec_parse_open(s, i)->0).0),
        i < (spec_parse_open(s, i)->0).1 <= s.len(),
{
    lemma_name_end_chars(s, i + 1);
}

/// Every field the parser yields is well formed.
pub proof fn lemma_parse_field_wf(s: Seq<char>, i: int)
    requires
        0 <= i <= s.len(),
        spec_parse_field(s, i) is Some,
    ensures
        wf_field((spec_parse_field(s, i)->0).0),
        i < (spec_parse_field(s, i)->0).1 <= s.len(),
{
    lemma_parse_open_wf(s, i);
    let (name, j) = spec_parse_open(s, i)->0;
    lemma_text_end_chars(s, j);
    let t = spec_text_end(s, j);
    lemma_name_end_chars(s, t + 2);
}

/// Every field of a field run the parser yields is well formed.
pub proof fn lemma_parse_fields_wf(s: Seq<char>, i: int)
    requires
        0 <= i <= s.len(),
        spec_parse_fields(s, i) is Some,
    ensures
        forall|k: int|
            0 <= k < (spec_parse_fields(s, i)->0).0.len() ==> wf_field(
                #[trigger] (spec_parse_fields(s, i)->0).0[k],
            ),
        i <= (spec_parse_fields(s, i)->0).1 <= s.len(),
    decreases s.len() - i,
{
    if i < s.len() && s[i] == '<' && i + 1 < s.len() && s[i + 1] != '/' {
        lemma_parse_field_wf(s, i);
        let (f, j) = spec_parse_field(s, i)->0;
        lemma_parse_fields_wf(s, j);
    }
}

/// Every element the parser yields is well formed.
pub proof fn lemma_parse_element_wf(s: Seq<char>, i: int)
    requires
        0 <= i <= s.len(),
        spec_parse_element(s, i) is Some,
    ensures
        wf_elem((spec_parse_element(s, i)->0).0),
        i < (spec_parse_element(s, i)->0).1 <= s.len(),
{
    lemma_parse_open_wf(s, i);
    let (name, j) = spec_parse_open(s, i)->0;
    if j < s.len() && s[j] == '<' && j + 1 < s.len() && s[j + 1] != '/' {
        lemma_parse_fields_wf(s, j);
        let k = (spec_parse_fields(s, j)->0).1;
        lemma_name_end_chars(s, k + 2);
    } else {
        lemma_text_end_chars(s, j);
        let t = spec_text_end(s, j);
        lemma_name_end_chars(s, t + 2);
    }
}

/// Every element of an element run the parser yields is well formed.
pub proof fn lemma_parse_elems_wf(s: Seq<char>, i: int)
    requires
        0 <= i <= s.len(),
        spec_parse_elems(s, i) is Some,
    ensures
        forall|k: int|
            0 <= k < (spec_parse_elems(s, i)->0).0.len() ==> wf_elem(
                #[trigger] (spec_parse_elems(s, i)->0).0[k],
            ),
        i <= (spec_parse_elems(s, i)->0).1 <= s.len(),
    decreases s.len() - i,
{
    if i < s.len() && s[i] == '<' && i + 1 < s.len() && s[i + 1] != '/' {
        lemma_parse_element_wf(s, i);
        let (e, j) = spec_parse_element(s, i)->0;
        lemma_parse_elems_wf(s, j);
    }
}

/// Parser soundness: every element a raw-annotation input yields is
/// well-formed markup, so whatever the raw setter stores serializes to
/// valid markup again.
pub proof fn lemma_parse_annotation_wf(s: Seq<char>)
    requires
        spec_parse_annotation(s) is Some,
    ensures
        forall|k: int|
            0 <= k < spec_parse_annotation(s)->0.len() ==> wf_elem(
                #[trigger] spec_parse_annotation(s)->0[k],
            ),
{
    lemma_parse_open_wf(s, 0);
    let (name, j) = spec_parse_open(s, 0)->0;
    if name == "annotation"@ {
        lemma_parse_elems_wf(s, j);
    } else {
        lemma_parse_element_wf(s, 0);
    }
}

/// The end of the run of name characters starting at `i`.
fn scan_name(s: &str, i: usize, n: usize) -> (r: usize)
    requires
        i <= s@.len(),
        n == s@.len(),
    ensures
        r as int == spec_name_end(s@, i as int),
        i <= r <= s@.len(),
    decreases s@.len() - i,
{
    if i < n && name_char(s.get_char(i)) {
        scan_name(s, i + 1, n)
    } else {
        i
    }
}

/// The end of the run of text characters starting at `i`.
fn scan_text(s: &str, i: usize, n: usize) -> (r: usize)
    requires
        i <= s@.len(),
        n == s@.len(),
    ensures
        r as int == spec_text_end(s@, i as int),
        i <= r <= s@.len(),
    decreases s@.len() - i,
{
    if i < n {
        let c = s.get_char(i);
        if c != '<' && c != '>' {
            return scan_text(s, i + 1, n);
        }
    }
    i
}

/// Reads an opening tag at `i`.
fn parse_open(s: &str, i: usize, n: usize) -> (r: Option<(String, usize)>)
    requires
        i <= s@.len(),
        n == s@.len(),
    ensures
        match r {
            Some(p) => {
                &&& spec_parse_open(s@, i as int) == Some((p.0@, p.1 as int))
                &&& i < p.1 <= s@.len()
            },
            None => spec_parse_open(s@, i as int) is None,
        },
{
    if i < n && s.get_char(i) == '<' {
        let j = scan_name(s, i + 1, n);
        if j > i + 1 && j < n && s.get_char(j) == '>' {
            let name = String::from_str(s.substring_char(i + 1, j));
            Some((name, j + 1))
        } else {
            None
        }
    } else {
        None
    }
}

/// Reads a closing tag at `i` matching `name`.
fn parse_close(s: &str, i: usize, n: usize, name: &String) -> (r: Option<usize>)
    requires
        i <= s@.len(),
        n == s@.len(),
    ensures
        match r {
            Some(j) => {
                &&& spec_parse_close(s@, i as int, name@) == Some(j as int)
                &&& i < j <= s@.len()
            },
            None => spec_parse_close(s@, i as int, name@) is None,
        },
{
    if i < n && i + 1 < n && s.get_char(i) == '<' && s.get_char(i + 1) == '/' {
        let j = scan_name(s, i + 2, n);
        if j < n && s.get_char(j) == '>' {
            let found = String::from_str(s.substring_char(i + 2, j));
            if found == *name {
                Some(j + 1)
            } else {
                None
            }
        } else {
            None
        }
    } else {
        None
    }
}

/// Reads a field at `i`.
fn parse_field(s: &str, i: usize, n: usize) -> (r: Option<(Field, usize)>)
    requires
        i <= s@.len(),
        n == s@.len(),
    ensures
        match r {
            Some(p) => {
                &&& spec_parse_field(s@, i as int) == Some((p.0@, p.1 as int))
                &&& i < p.1 <= s@.len()
            },
            None => spec_parse_field(s@, i as int) is None,
        },
{
    match parse_open(s, i, n) {
        None => None,
        Some((name, j)) => {
            let t = scan_text(s, j, n);
            match parse_close(s, t, n, &name) {
                None => None,
                Some(end) => {
                    let value = String::from_str(s.substring_char(j, t));
                    Some((Field { name, value }, end))
                },
            }
        },
    }
}

/// Reads the run of fields starting at `i`.
fn parse_fields(s: &str, i: usize, n: usize) -> (r: Option<(Vec<Field>, usize)>)
    requires
        i <= s@.len(),
        n == s@.len(),
    ensures
        match r {
            Some(p) => {
                &&& spec_parse_fields(s@, i as int) == Some((fields_view(p.0@), p.1 as int))
                &&& i <= p.1 <= s@.len()
            },
            None => spec_parse_fields(s@, i as int) is None,
        },
    decreases s@.len() - i,
{
    if i < n && s.get_char(i) == '<' && i + 1 < n && s.get_char(i + 1) != '/' {
        match parse_field(s, i, n) {
            None => None,
            Some((f, j)) => match parse_fields(s, j, n) {
                None => None,
                Some((fs, k)) => {
                    let ghost pre: Seq<Field> = fs@;
                    let mut fs = fs;
                    fs.insert(0, f);
                    proof {
                        assert(fields_view(fs@) =~= seq![fs@[0]@] + fields_view(pre));
                    }
                    Some((fs, k))
                },
            },
        }
    } else {
        proof {
            assert(fields_view(Seq::<Field>::empty()) =~= Seq::<FieldV>::empty());
        }
        Some((Vec::new(), i))
    }
}

/// Reads an element at `i`.
fn parse_element(s: &str, i: usize, n: usize) -> (r: Option<(Element, usize)>)
    requires
        i <= s@.len(),
        n == s@.len(),
    ensures
        match r {
            Some(p) => {
                &&& spec_parse_element(s@, i as int) == Some((p.0@, p.1 as int))
                &&& i < p.1 <= s@.len()
            },
            None => spec_parse_element(s@, i as int) is None,
        },
{
    match parse_open(s, i, n) {
        None => None,
        Some((name, j)) => {
            if j < n && s.get_char(j) == '<' && j + 1 < n && s.get_char(j + 1) != '/' {
                match parse_fields(s, j, n) {
                    None => None,
                    Some((fs, k)) => match parse_close(s, k, n, &name) {
                        None => None,
                        Some(end) => Some((Element { name, text: String::new(), fields: fs }, end)),
                    },
                }
            } else {
                let t = scan_text(s, j, n);
                match parse_close(s, t, n, &name) {
                    None => None,
                    Some(end) => {
                        let text = String::from_str(s.substring_char(j, t));
                        let r = Element { name, text, fields: Vec::new() };
                        proof {
                            assert(fields_view(r.fields@) =~= Seq::<FieldV>::empty());
                        }
                        Some((r, end))
                    },
                }
            }
        },
    }
}

/// Reads the run of elements starting at `i`.
fn parse_elems(s: &str, i: usize, n: usize) -> (r: Option<(Vec<Element>, usize)>)
    requires
        i <= s@.len(),
        n == s@.len(),
    ensures
        match r {
            Some(p) => {
                &&& spec_parse_elems(s@, i as int) == Some((elems_view(p.0@), p.1 as int))
                &&& i <= p.1 <= s@.len()
            },
            None => spec_parse_elems(s@, i as int) is None,
        },
    decreases s@.len() - i,
{
    if i < n && s.get_char(i) == '<' && i + 1 < n && s.get_char(i + 1) != '/' {
        match parse_element(s, i, n) {
            None => None,
            Some((e, j)) => match parse_elems(s, j, n) {
                None => None,
                Some((es, k)) => {
                    let ghost pre: Seq<Element> = es@;
                    let mut es = es;
                    es.insert(0, e);
                    proof {
                        assert(elems_view(es@) =~= seq![es@[0]@] + elems_view(pre));
                    }
                    Some((es, k))
                },
            },
        }
    } else {
        proof {
            assert(elems_view(Seq::<Element>::empty()) =~= Seq::<ElemV>::empty());
        }
        Some((Vec::new(), i))
    }
}

/// Parses a whole raw-annotation input into the elements the container
/// will hold: either the reserved container element wrapping a run of
/// elements, or one element standing alone.
pub fn parse_annotation(s: &str) -> (r: Option<Vec<Element>>)
    ensures
        match r {
            Some(v) => spec_parse_annotation(s@) == Some(elems_view(v@)),
            None => spec_parse_annotation(s@) is None,
        },
{
    let n = s.unicode_len();
    match parse_open(s, 0, n) {
        None => None,
        Some((name, j)) => {
            let container = String::from_str("annotation");
            if name == container {
                match parse_elems(s, j, n) {
                    None => None,
                    Some((es, k)) => match parse_close(s, k, n, &name) {
                        None => None,
                        Some(end) => if end == n {
                            Some(es)
                        } else {
                            None
                        },
                    },
                }
            } else {
                match parse_element(s, 0, n) {
                    None => None,
                    Some((e, j2)) => if j2 == n {
                        let mut v: Vec<Element> = Vec::new();
                        v.push(e);
                        proof {
                            assert(elems_view(v@) =~= seq![v@[0]@]);
                        }
                        Some(v)
                    } else {
                        None
                    },
                }
            }
        },
    }
}

} // verus!
