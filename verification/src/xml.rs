//! The markup dialect of the annotation subsystem.
//!
//! An annotation container holds a sequence of tagged elements.  Each
//! element carries a name, optional text content and a sequence of named
//! text fields; this flat shape is what the structured-annotation
//! serializer produces and what the raw-annotation parser accepts.

use vstd::prelude::*;
use vstd::string::StringExecFns;

verus! {

/// One named text field of an element: `<name>value</name>`.
pub struct Field {
    pub name: String,
    pub value: String,
}

/// The mathematical value of a `Field`.
pub struct FieldV {
    pub name: Seq<char>,
    pub value: Seq<char>,
}

/// One tagged element of an annotation:
/// `<name>text</name>` or `<name><field>..</field>..</name>`.
pub struct Element {
    pub name: String,
    pub text: String,
    pub fields: Vec<Field>,
}

/// The mathematical value of an `Element`.
pub struct ElemV {
    pub name: Seq<char>,
    pub text: Seq<char>,
    pub fields: Seq<FieldV>,
}

impl View for Field {
    type V = FieldV;

    open spec fn view(&self) -> FieldV {
        FieldV { name: self.name@, value: self.value@ }
    }
}

/// The values of a sequence of fields.
pub open spec fn fields_view(s: Seq<Field>) -> Seq<FieldV> {
    s.map_values(|f: Field| f@)
}

impl View for Element {
    type V = ElemV;

    open spec fn view(&self) -> ElemV {
        ElemV { name: self.name@, text: self.text@, fields: fields_view(self.fields@) }
    }
}

/// The values of a sequence of elements.
pub open spec fn elems_view(s: Seq<Element>) -> Seq<ElemV> {
    s.map_values(|e: Element| e@)
}

/// Mapping to values commutes with appending a field.
pub proof fn lemma_fields_view_push(s: Seq<Field>, f: Field)
    ensures
        fields_view(s.push(f)) == fields_view(s).push(f@),
{
    assert(fields_view(s.push(f)) =~= fields_view(s).push(f@));
}

/// Mapping to values commutes with appending an element.
pub proof fn lemma_elems_view_push(s: Seq<Element>, e: Element)
    ensures
        elems_view(s.push(e)) == elems_view(s).push(e@),
{
    assert(elems_view(s.push(e)) =~= elems_view(s).push(e@));
}

/// Characters allowed in an element or field name.
pub open spec fn is_name_char(c: char) -> bool {
    ||| 'a' <= c && c <= 'z'
    ||| 'A' <= c && c <= 'Z'
    ||| '0' <= c && c <= '9'
    ||| c == '_'
    ||| c == '-'
    ||| c == ':'
    ||| c == '.'
}

/// A valid name: nonempty, made of name characters only.
pub open spec fn wf_name(s: Seq<char>) -> bool {
    s.len() > 0 && forall|i: int| 0 <= i < s.len() ==> is_name_char(#[trigger] s[i])
}

/// Valid text content: free of markup delimiters.
pub open spec fn wf_text(s: Seq<char>) -> bool {
    forall|i: int| 0 <= i < s.len() ==> #[trigger] s[i] != '<' && s[i] != '>'
}

/// A well-formed field.
pub open spec fn wf_field(f: FieldV) -> bool {
    wf_name(f.name) && wf_text(f.value)
}

/// A well-formed element: valid name, valid text, well-formed fields, and
/// not both text and fields at once.
pub open spec fn wf_elem(e: ElemV) -> bool {
    &&& wf_name(e.name)
    &&& wf_text(e.text)
    &&& forall|i: int| 0 <= i < e.fields.len() ==> wf_field(#[trigger] e.fields[i])
    &&& (e.text.len() == 0 || e.fields.len() == 0)
}

/// The markup text of one field.
pub open spec fn ser_field(f: FieldV) -> Seq<char> {
    "<"@ + f.name + ">"@ + f.value + "</"@ + f.name + ">"@
}

/// The markup text of a sequence of fields, in order.
pub open spec fn ser_fields(fs: Seq<FieldV>) -> Seq<char>
    decreases fs.len(),
{
    if fs.len() == 0 {
        Seq::<char>::empty()
    } else {
        ser_field(fs[0]) + ser_fields(fs.drop_first())
    }
}

/// The markup text of one element.
pub open spec fn ser_elem(e: ElemV) -> Seq<char> {
    "<"@ + e.name + ">"@ + e.text + ser_fields(e.fields) + "</"@ + e.name + ">"@
}

/// The markup text of a sequence of elements, in order.
pub open spec fn ser_elems(es: Seq<ElemV>) -> Seq<char>
    decreases es.len(),
{
    if es.len() == 0 {
        Seq::<char>::empty()
    } else {
        ser_elem(es[0]) + ser_elems(es.drop_first())
    }
}

/// The markup text of a whole annotation container.
pub open spec fn ser_annotation(es: Seq<ElemV>) -> Seq<char> {
    "<annotation>"@ + ser_elems(es) + "</annotation>"@
}

/// Appending one field on the right serializes to the concatenation.
pub proof fn lemma_ser_fields_push(fs: Seq<FieldV>, f: FieldV)
    ensures
        ser_fields(fs.push(f)) == ser_fields(fs) + ser_field(f),
    decreases fs.len(),
{
    if fs.len() == 0 {
        assert(fs.push(f).drop_first() =~= fs);
        assert(ser_fields(fs.push(f)) =~= ser_fields(fs) + ser_field(f));
    } else {
        assert(fs.push(f).drop_first() =~= fs.drop_first().push(f));
        lemma_ser_fields_push(fs.drop_first(), f);
        assert(ser_fields(fs.push(f)) =~= ser_fields(fs) + ser_field(f));
    }
}

/// Appending one element on the right serializes to the concatenation.
pub proof fn lemma_ser_elems_push(es: Seq<ElemV>, e: ElemV)
    ensures
        ser_elems(es.push(e)) == ser_elems(es) + ser_elem(e),
    decreases es.len(),
{
    if es.len() == 0 {
        assert(es.push(e).drop_first() =~= es);
        assert(ser_elems(es.push(e)) =~= ser_elems(es) + ser_elem(e));
    } else {
        assert(es.push(e).drop_first() =~= es.drop_first().push(e));
        lemma_ser_elems_push(es.drop_first(), e);
        assert(ser_elems(es.push(e)) =~= ser_elems(es) + ser_elem(e));
    }
}

/// Writes the markup text of one field onto `out`.
fn write_field(out: &mut String, f: &Field)
    ensures
        final(out)@ == old(out)@ + ser_field(f@),
{
    out.append("<");
    out.append(f.name.as_str());
    out.append(">");
    out.append(f.value.as_str());
    out.append("</");
    out.append(f.name.as_str());
    out.append(">");
    proof {
        assert(out@ =~= old(out)@ + ser_field(f@));
    }
}

/// Writes the markup text of one element onto `out`.
fn write_element(out: &mut String, e: &Element)
    ensures
        final(out)@ == old(out)@ + ser_elem(e@),
{
    out.append("<");
    out.append(e.name.as_str());
    out.append(">");
    out.append(e.text.as_str());
    let ghost base: Seq<char> = out@;
    let mut i: usize = 0;
    while i < e.fields.len()
        invariant
            i <= e.fields@.len(),
            out@ == base + ser_fields(fields_view(e.fields@).take(i as int)),
        decreases e.fields@.len() - i,
    {
        proof {
            assert(fields_view(e.fields@).take(i as int + 1) =~= fields_view(e.fields@).take(
                i as int,
            ).push(e.fields@[i as int]@));
            lemma_ser_fields_push(
                fields_view(e.fields@).take(i as int),
                e.fields@[i as int]@,
            );
        }
        write_field(out, &e.fields[i]);
        i = i + 1;
    }
    proof {
        assert(fields_view(e.fields@).take(e.fields@.len() as int) =~= fields_view(e.fields@));
    }
    out.append("</");
    out.append(e.name.as_str());
    out.append(">");
    proof {
        assert(out@ =~= old(out)@ + ser_elem(e@));
    }
}

/// Returns the markup text of a whole annotation container holding `elems`.
pub fn render_annotation(elems: &Vec<Element>) -> (r: String)
    ensures
        r@ == ser_annotation(elems_view(elems@)),
{
    let mut out = String::new();
    out.append("<annotation>");
    let ghost base: Seq<char> = out@;
    let mut i: usize = 0;
    while i < elems.len()
        invariant
            i <= elems@.len(),
            out@ == base + ser_elems(elems_view(elems@).take(i as int)),
        decreases elems@.len() - i,
    {
        proof {
            assert(elems_view(elems@).take(i as int + 1) =~= elems_view(elems@).take(
                i as int,
            ).push(elems@[i as int]@));
            lemma_ser_elems_push(elems_view(elems@).take(i as int), elems@[i as int]@);
        }
        write_element(&mut out, &elems[i]);
        i = i + 1;
    }
    proof {
        assert(elems_view(elems@).take(elems@.len() as int) =~= elems_view(elems@));
    }
    out.append("</annotation>");
    proof {
        assert(out@ =~= ser_annotation(elems_view(elems@)));
    }
    out
}

/// Whether `c` may stand in an element or field name.
pub fn name_char(c: char) -> (r: bool)
    ensures
        r == is_name_char(c),
{
    ('a' <= c && c <= 'z') || ('A' <= c && c <= 'Z') || ('0' <= c && c <= '9') || c == '_' || c
        == '-' || c == ':' || c == '.'
}

impl Field {
    /// Whether this field is well formed.
    pub fn is_well_formed(&self) -> (r: bool)
        ensures
            r == wf_field(self@),
    {
        let ok_name = check_name(self.name.as_str());
        let ok_value = check_text(self.value.as_str());
        ok_name && ok_value
    }
}

impl Clone for Field {
    /// Clones the field; the copy has the same value.
    fn clone(&self) -> (r: Self)
        ensures
            r@ == self@,
    {
        Field { name: self.name.clone(), value: self.value.clone() }
    }
}

impl Element {
    /// A new element with the given tag name, no text and no fields.
    pub fn new(name: &str) -> (r: Element)
        ensures
            r@.name == name@,
            r@.text == Seq::<char>::empty(),
            r@.fields == Seq::<FieldV>::empty(),
    {
        let r = Element { name: String::from_str(name), text: String::new(), fields: Vec::new() };
        proof {
            assert(fields_view(r.fields@) =~= Seq::<FieldV>::empty());
        }
        r
    }

    /// Replaces the element's text content.
    pub fn set_text(&mut self, text: &str)
        ensures
            final(self)@.name == old(self)@.name,
            final(self)@.text == text@,
            final(self)@.fields == old(self)@.fields,
    {
        self.text = String::from_str(text);
    }

    /// Appends a named text field.
    pub fn add_field(&mut self, name: &str, value: &str)
        ensures
            final(self)@.name == old(self)@.name,
            final(self)@.text == old(self)@.text,
            final(self)@.fields == old(self)@.fields.push(
                FieldV { name: name@, value: value@ },
            ),
    {
        self.fields.push(Field { name: String::from_str(name), value: String::from_str(value) });
        proof {
            assert(fields_view(self.fields@) =~= fields_view(old(self).fields@).push(
                FieldV { name: name@, value: value@ },
            ));
        }
    }

    /// The value of the first field with the given name, if any.
    pub fn get_field(&self, name: &str) -> (r: Option<String>)
        ensures
            match r {
                Some(v) => find_field(self@.fields, name@) == Some(v@),
                None => find_field(self@.fields, name@) is None,
            },
    {
        let target = String::from_str(name);
        proof {
            assert(fields_view(self.fields@).skip(0) =~= fields_view(self.fields@));
        }
        let mut i: usize = 0;
        while i < self.fields.len()
            invariant
                i <= self.fields@.len(),
                target@ == name@,
                find_field(fields_view(self.fields@), name@) == find_field(
                    fields_view(self.fields@).skip(i as int),
                    name@,
                ),
            decreases self.fields@.len() - i,
        {
            proof {
                assert(fields_view(self.fields@).skip(i as int)[0] == self.fields@[i as int]@);
                assert(fields_view(self.fields@).skip(i as int).drop_first() =~= fields_view(
                    self.fields@,
                ).skip(i as int + 1));
            }
            if self.fields[i].name == target {
                return Some(self.fields[i].value.clone());
            }
            i = i + 1;
        }
        proof {
            assert(fields_view(self.fields@).skip(self.fields@.len() as int) =~= Seq::<
                FieldV,
            >::empty());
        }
        None
    }

    /// Whether this element is well formed.
    pub fn is_well_formed(&self) -> (r: bool)
        ensures
            r == wf_elem(self@),
    {
        let ok_name = check_name(self.name.as_str());
        let ok_text = check_text(self.text.as_str());
        if !(ok_name && ok_text) {
            return false;
        }
        if self.text.as_str().unicode_len() > 0 && self.fields.len() > 0 {
            return false;
        }
        let mut i: usize = 0;
        while i < self.fields.len()
            invariant
                i <= self.fields@.len(),
                wf_name(self@.name),
                wf_text(self@.text),
                self@.text.len() == 0 || self@.fields.len() == 0,
                forall|j: int| 0 <= j < i ==> wf_field(#[trigger] self@.fields[j]),
            decreases self.fields@.len() - i,
        {
            proof {
                assert(self@.fields[i as int] == self.fields@[i as int]@);
            }
            if !self.fields[i].is_well_formed() {
                return false;
            }
            i = i + 1;
        }
        true
    }
}

impl Clone for Element {
    /// Clones the element; the copy has the same value.
    fn clone(&self) -> (r: Self)
        ensures
            r@ == self@,
    {
        let mut fields: Vec<Field> = Vec::new();
        let mut i: usize = 0;
        while i < self.fields.len()
            invariant
                i <= self.fields@.len(),
                fields_view(fields@) == fields_view(self.fields@).take(i as int),
            decreases self.fields@.len() - i,
        {
            let ghost pre: Seq<Field> = fields@;
            let cf = self.fields[i].clone();
            let ghost cfv: FieldV = cf@;
            fields.push(cf);
            proof {
                lemma_fields_view_push(pre, fields@[pre.len() as int]);
                assert(fields_view(self.fields@).take(i as int + 1) =~= fields_view(
                    self.fields@,
                ).take(i as int).push(cfv));
            }
            i = i + 1;
        }
        proof {
            assert(fields_view(self.fields@).take(self.fields@.len() as int) =~= fields_view(
                self.fields@,
            ));
        }
        let r = Element { name: self.name.clone(), text: self.text.clone(), fields };
        proof {
            assert(r@ =~= self@);
        }
        r
    }
}

/// The value of the first field named `n`, if any.
pub open spec fn find_field(s: Seq<FieldV>, n: Seq<char>) -> Option<Seq<char>>
    decreases s.len(),
{
    if s.len() == 0 {
        None
    } else if s[0].name == n {
        Some(s[0].value)
    } else {
        find_field(s.drop_first(), n)
    }
}

/// Whether every character of `s` may stand in a name, and `s` is nonempty.
fn check_name(s: &str) -> (r: bool)
    ensures
        r == wf_name(s@),
{
    let n = s.unicode_len();
    if n == 0 {
        return false;
    }
    let mut i: usize = 0;
    while i < n
        invariant
            n == s@.len(),
            i <= n,
            forall|j: int| 0 <= j < i ==> is_name_char(#[trigger] s@[j]),
        decreases n - i,
    {
        if !name_char(s.get_char(i)) {
            return false;
        }
        i = i + 1;
    }
    true
}

/// Whether `s` is free of markup delimiters.
fn check_text(s: &str) -> (r: bool)
    ensures
        r == wf_text(s@),
{
    let n = s.unicode_len();
    let mut i: usize = 0;
    while i < n
        invariant
            n == s@.len(),
            i <= n,
            forall|j: int| 0 <= j < i ==> #[trigger] s@[j] != '<' && s@[j] != '>',
        decreases n - i,
    {
        let c = s.get_char(i);
        if c == '<' || c == '>' {
            return false;
        }
        i = i + 1;
    }
    true
}

} // verus!
