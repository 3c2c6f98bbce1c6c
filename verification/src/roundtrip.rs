//! The raw-annotation round trip.
//!
//! The serializer of the annotation subsystem and its parser are
//! inverse: rendering a container of well-formed elements and parsing
//! the text back yields exactly the elements that went in.  So a raw
//! annotation can be read out as text and set again on any node without
//! loss.

use vstd::prelude::*;
use crate::document::Node;
use crate::sbase::{ann_children, annotation_text};
use crate::parse::{
    spec_name_end, spec_parse_annotation, spec_parse_close, spec_parse_element,
    spec_parse_elems, spec_parse_field, spec_parse_fields, spec_parse_open, spec_text_end,
};
use crate::xml::{
    is_name_char, ser_annotation, ser_elem, ser_elems, ser_field, ser_fields, wf_elem, wf_field,
    wf_name, ElemV, FieldV,
};

verus! {

/// The name scan stops exactly after a run of `k` name characters.
proof fn lemma_name_end_run(s: Seq<char>, a: int, k: int)
    requires
        0 <= a,
        0 <= k,
        a + k <= s.len(),
        forall|j: int| a <= j < a + k ==> is_name_char(#[trigger] s[j]),
        a + k == s.len() || !is_name_char(s[a + k]),
    ensures
        spec_name_end(s, a) == a + k,
    decreases k,
{
    if k > 0 {
        lemma_name_end_run(s, a + 1, k - 1);
    }
}

/// The text scan stops exactly after a run of `k` text characters.
proof fn lemma_text_end_run(s: Seq<char>, a: int, k: int)
    requires
        0 <= a,
        0 <= k,
        a + k <= s.len(),
        forall|j: int| a <= j < a + k ==> #[trigger] s[j] != '<' && s[j] != '>',
        a + k == s.len() || s[a + k] == '<' || s[a + k] == '>',
    ensures
        spec_text_end(s, a) == a + k,
    decreases k,
{
    if k > 0 {
        lemma_text_end_run(s, a + 1, k - 1);
    }
}

/// The view of the reserved container's name is a valid name made of
/// the expected characters.
proof fn lemma_annotation_name()
    ensures
        "annotation"@.len() == 10,
        wf_name("annotation"@),
        "<annotation>"@ == "<"@ + "annotation"@ + ">"@,
        "</annotation>"@ == "</"@ + "annotation"@ + ">"@,
        "<"@ == seq!['<'],
        ">"@ == seq!['>'],
        "</"@ == seq!['<', '/'],
{
    reveal_strlit("annotation");
    reveal_strlit("<annotation>");
    reveal_strlit("</annotation>");
    reveal_strlit("<");
    reveal_strlit(">");
    reveal_strlit("</");
    assert("<"@ =~= seq!['<']);
    assert(">"@ =~= seq!['>']);
    assert("</"@ =~= seq!['<', '/']);
    assert("<annotation>"@ =~= "<"@ + "annotation"@ + ">"@);
    assert("</annotation>"@ =~= "</"@ + "annotation"@ + ">"@);
    assert forall|j: int| 0 <= j < "annotation"@.len() implies is_name_char(
        #[trigger] "annotation"@[j],
    ) by {
        if j == 0 {
            assert(is_name_char("annotation"@[0]));
        } else if j == 1 {
            assert(is_name_char("annotation"@[1]));
        } else if j == 2 {
            assert(is_name_char("annotation"@[2]));
        } else if j == 3 {
            assert(is_name_char("annotation"@[3]));
        } else if j == 4 {
            assert(is_name_char("annotation"@[4]));
        } else if j == 5 {
            assert(is_name_char("annotation"@[5]));
        } else if j == 6 {
            assert(is_name_char("annotation"@[6]));
        } else if j == 7 {
            assert(is_name_char("annotation"@[7]));
        } else if j == 8 {
            assert(is_name_char("annotation"@[8]));
        } else {
            assert(is_name_char("annotation"@[9]));
        }
    }
}

/// An opening tag rendered at `pre.len()` parses back to its name.
proof fn lemma_open_parses(pre: Seq<char>, nm: Seq<char>, post: Seq<char>)
    requires
        wf_name(nm),
    ensures
        ({
            let s = pre + "<"@ + nm + ">"@ + post;
            spec_parse_open(s, pre.len() as int) == Some(
                (nm, pre.len() as int + nm.len() + 2),
            )
        }),
{
    lemma_annotation_name();
    let s = pre + "<"@ + nm + ">"@ + post;
    let i = pre.len() as int;
    assert(s[i] == '<');
    assert(forall|q: int| 0 <= q < nm.len() ==> s[i + 1 + q] == #[trigger] nm[q]);
    assert(forall|j: int| i + 1 <= j < i + 1 + nm.len() ==> is_name_char(#[trigger] s[j]));
    assert(s[i + 1 + nm.len()] == '>');
    assert(!is_name_char('>'));
    lemma_name_end_run(s, i + 1, nm.len() as int);
    let j = i + 1 + nm.len();
    assert(s.subrange(i + 1, j) =~= nm);
}

/// A closing tag rendered at `pre.len()` parses back.
proof fn lemma_close_parses(pre: Seq<char>, nm: Seq<char>, post: Seq<char>)
    requires
        wf_name(nm),
    ensures
        ({
            let s = pre + "</"@ + nm + ">"@ + post;
            spec_parse_close(s, pre.len() as int, nm) == Some(pre.len() as int + nm.len() + 3)
        }),
{
    lemma_annotation_name();
    let s = pre + "</"@ + nm + ">"@ + post;
    let i = pre.len() as int;
    assert(s[i] == '<');
    assert(s[i + 1] == '/');
    assert(forall|q: int| 0 <= q < nm.len() ==> s[i + 2 + q] == #[trigger] nm[q]);
    assert(forall|j: int| i + 2 <= j < i + 2 + nm.len() ==> is_name_char(#[trigger] s[j]));
    assert(s[i + 2 + nm.len()] == '>');
    assert(!is_name_char('>'));
    lemma_name_end_run(s, i + 2, nm.len() as int);
    let j = i + 2 + nm.len();
    assert(s.subrange(i + 2, j) =~= nm);
}

/// A field rendered at `pre.len()` parses back to itself.
proof fn lemma_field_parses(pre: Seq<char>, f: FieldV, post: Seq<char>)
    requires
        wf_field(f),
    ensures
        ({
            let s = pre + ser_field(f) + post;
            spec_parse_field(s, pre.len() as int) == Some(
                (f, pre.len() as int + ser_field(f).len()),
            )
        }),
{
    lemma_annotation_name();
    let s = pre + ser_field(f) + post;
    let i = pre.len() as int;
    let tail = f.value + "</"@ + f.name + ">"@ + post;
    assert(s =~= pre + "<"@ + f.name + ">"@ + tail);
    lemma_open_parses(pre, f.name, tail);
    let j = i + 1 + f.name.len() + 1;
    assert(forall|q: int| 0 <= q < f.value.len() ==> s[j + q] == #[trigger] f.value[q]);
    assert(forall|q: int| j <= q < j + f.value.len() ==> #[trigger] s[q] != '<' && s[q] != '>');
    assert(s[j + f.value.len()] == '<');
    lemma_text_end_run(s, j, f.value.len() as int);
    let t = j + f.value.len();
    let pre2 = pre + "<"@ + f.name + ">"@ + f.value;
    assert(s =~= pre2 + "</"@ + f.name + ">"@ + post);
    lemma_close_parses(pre2, f.name, post);
    assert(pre2.len() == t);
    assert(s.subrange(j, t) =~= f.value);
    assert((FieldV { name: f.name, value: s.subrange(j, t) }) == f);
}

/// A run of rendered fields, followed by a closing tag, parses back to
/// the run.
proof fn lemma_fields_parse(pre: Seq<char>, fs: Seq<FieldV>, post: Seq<char>)
    requires
        forall|k: int| 0 <= k < fs.len() ==> wf_field(#[trigger] fs[k]),
        post.len() >= 2,
        post[0] == '<',
        post[1] == '/',
    ensures
        ({
            let s = pre + ser_fields(fs) + post;
            spec_parse_fields(s, pre.len() as int) == Some(
                (fs, pre.len() as int + ser_fields(fs).len()),
            )
        }),
    decreases fs.len(),
{
    lemma_annotation_name();
    let s = pre + ser_fields(fs) + post;
    let i = pre.len() as int;
    if fs.len() == 0 {
        assert(s =~= pre + post);
        assert(s[i] == '<');
        assert(s[i + 1] == '/');
    } else {
        let f0 = fs[0];
        let rest = fs.drop_first();
        assert(ser_fields(fs) == ser_field(f0) + ser_fields(rest));
        assert(s =~= pre + ser_field(f0) + (ser_fields(rest) + post));
        lemma_field_parses(pre, f0, ser_fields(rest) + post);
        assert(s[i] == '<');
        assert(s[i + 1] == f0.name[0]);
        assert(is_name_char(f0.name[0]));
        assert(s[i + 1] != '/');
        let j = i + ser_field(f0).len();
        let pre2 = pre + ser_field(f0);
        assert(s =~= pre2 + ser_fields(rest) + post);
        lemma_fields_parse(pre2, rest, post);
        assert(seq![f0] + rest =~= fs);
    }
}

/// An element rendered at `pre.len()`, with more markup following,
/// parses back to itself.
#[verifier::rlimit(100)]
proof fn lemma_element_parses(pre: Seq<char>, e: ElemV, post: Seq<char>)
    requires
        wf_elem(e),
    ensures
        ({
            let s = pre + ser_elem(e) + post;
            spec_parse_element(s, pre.len() as int) == Some(
                (e, pre.len() as int + ser_elem(e).len()),
            )
        }),
{
    lemma_annotation_name();
    let s = pre + ser_elem(e) + post;
    let i = pre.len() as int;
    let body = e.text + ser_fields(e.fields);
    let close = "</"@ + e.name + ">"@;
    assert(s =~= pre + "<"@ + e.name + ">"@ + (body + close + post));
    lemma_open_parses(pre, e.name, body + close + post);
    let j = i + 1 + e.name.len() + 1;
    let pre1 = pre + "<"@ + e.name + ">"@;
    assert(pre1.len() == j);
    if e.fields.len() > 0 {
        assert(e.text.len() == 0);
        assert(e.text =~= Seq::<char>::empty());
        assert(s =~= pre1 + ser_fields(e.fields) + (close + post));
        assert(ser_fields(e.fields) == ser_field(e.fields[0]) + ser_fields(
            e.fields.drop_first(),
        ));
        assert(s[j] == '<');
        assert(s[j + 1] == e.fields[0].name[0]);
        assert(is_name_char(e.fields[0].name[0]));
        assert(s[j + 1] != '/');
        assert((close + post)[0] == '<');
        assert((close + post)[1] == '/');
        lemma_fields_parse(pre1, e.fields, close + post);
        let k = j + ser_fields(e.fields).len();
        let pre2 = pre1 + ser_fields(e.fields);
        assert(pre2.len() == k);
        assert(s =~= pre2 + "</"@ + e.name + ">"@ + post);
        lemma_close_parses(pre2, e.name, post);
        assert((ElemV { name: e.name, text: Seq::<char>::empty(), fields: e.fields }) == e);
    } else {
        assert(ser_fields(e.fields) == Seq::<char>::empty());
        assert(s =~= pre1 + e.text + (close + post));
        assert(forall|q: int| 0 <= q < e.text.len() ==> s[j + q] == #[trigger] e.text[q]);
        assert(forall|q: int| j <= q < j + e.text.len() ==> #[trigger] s[q] != '<' && s[q] != '>');
        assert(s[j + e.text.len()] == '<');
        assert(s[j + e.text.len() + 1] == '/');
        lemma_text_end_run(s, j, e.text.len() as int);
        let t = j + e.text.len();
        if e.text.len() > 0 {
            assert(s[j] != '<');
        } else {
            assert(s[j] == '<');
            assert(s[j + 1] == '/');
        }
        let pre2 = pre1 + e.text;
        assert(pre2.len() == t);
        assert(s =~= pre2 + "</"@ + e.name + ">"@ + post);
        lemma_close_parses(pre2, e.name, post);
        assert(s.subrange(j, t) =~= e.text);
        assert(e.fields =~= Seq::<FieldV>::empty());
        assert((ElemV { name: e.name, text: s.subrange(j, t), fields: Seq::<FieldV>::empty() })
            == e);
    }
}

/// A run of rendered elements, followed by a closing tag, parses back
/// to the run.
proof fn lemma_elems_parse(pre: Seq<char>, es: Seq<ElemV>, post: Seq<char>)
    requires
        forall|k: int| 0 <= k < es.len() ==> wf_elem(#[trigger] es[k]),
        post.len() >= 2,
        post[0] == '<',
        post[1] == '/',
    ensures
        ({
            let s = pre + ser_elems(es) + post;
            spec_parse_elems(s, pre.len() as int) == Some(
                (es, pre.len() as int + ser_elems(es).len()),
            )
        }),
    decreases es.len(),
{
    lemma_annotation_name();
    let s = pre + ser_elems(es) + post;
    let i = pre.len() as int;
    if es.len() == 0 {
        assert(s =~= pre + post);
        assert(s[i] == '<');
        assert(s[i + 1] == '/');
    } else {
        let e0 = es[0];
        let rest = es.drop_first();
        assert(ser_elems(es) == ser_elem(e0) + ser_elems(rest));
        assert(s =~= pre + ser_elem(e0) + (ser_elems(rest) + post));
        lemma_element_parses(pre, e0, ser_elems(rest) + post);
        assert(s[i] == '<');
        assert(s[i + 1] == e0.name[0]);
        assert(is_name_char(e0.name[0]));
        assert(s[i + 1] != '/');
        let pre2 = pre + ser_elem(e0);
        assert(s =~= pre2 + ser_elems(rest) + post);
        lemma_elems_parse(pre2, rest, post);
        assert(seq![e0] + rest =~= es);
    }
}

/// Raw round trip: rendering a container of well-formed elements and
/// parsing the text back yields exactly the elements that went in.  In
/// particular, the text the raw getter hands out for any container the
/// library stores is accepted by the raw setter and reproduces the
/// container.
pub proof fn lemma_render_then_parse(es: Seq<ElemV>)
    requires
        forall|k: int| 0 <= k < es.len() ==> wf_elem(#[trigger] es[k]),
    ensures
        spec_parse_annotation(ser_annotation(es)) == Some(es),
{
    lemma_annotation_name();
    let nm = "annotation"@;
    let s = ser_annotation(es);
    let close = "</"@ + nm + ">"@;
    assert(s =~= Seq::<char>::empty() + "<"@ + nm + ">"@ + (ser_elems(es) + close));
    lemma_open_parses(Seq::<char>::empty(), nm, ser_elems(es) + close);
    assert(spec_parse_open(s, 0) == Some((nm, 12int)));
    let pre1 = Seq::<char>::empty() + "<"@ + nm + ">"@;
    assert(pre1.len() == 12);
    assert(close[0] == '<');
    assert(close[1] == '/');
    assert(s =~= pre1 + ser_elems(es) + close);
    lemma_elems_parse(pre1, es, close);
    let k = 12 + ser_elems(es).len();
    let pre2 = pre1 + ser_elems(es);
    assert(pre2.len() == k);
    assert(s =~= pre2 + "</"@ + nm + ">"@ + Seq::<char>::empty());
    lemma_close_parses(pre2, nm, Seq::<char>::empty());
    assert(spec_parse_close(s, k as int, nm) == Some(k as int + nm.len() + 3));
    assert(k + nm.len() + 3 == s.len());
}

/// Raw round trip at the node level: the text the raw getter returns
/// for a node holding well-formed elements is accepted by the raw
/// setter and reproduces the very same container.
pub proof fn lemma_get_then_set_annotation(n: Node)
    requires
        n.annotation is Some,
        forall|k: int| 0 <= k < ann_children(n).len() ==> wf_elem(#[trigger] ann_children(n)[k]),
    ensures
        spec_parse_annotation(annotation_text(n)) == Some(ann_children(n)),
{
    lemma_render_then_parse(ann_children(n));
}

} // verus!
