//! The directive extractor: per-field directives out of attribute syntax.
use vstd::prelude::*;
use vstd::string::*;
use crate::decl::{Attribute, AttrBody, LitValue, MetaItem, MetaValue};
use crate::text::str_eq;

verus! {

/// The key of a directive.
pub enum DirectiveKey {
    /// `each = "name"`: the name of a setter that appends one element.
    Each,
    /// Any other key, kept for the diagnostic.
    Unknown(String),
}

/// A directive read from a field's attributes.
pub struct Directive {
    pub key: DirectiveKey,
    /// The literal value, in its string form, when the entry has one.
    pub value: Option<String>,
    /// The index, among the field's attributes, of the attribute it came from.
    pub attr: usize,
}

pub enum KeyView {
    Each,
    Unknown(Seq<char>),
}

pub struct DirectiveView {
    pub key: KeyView,
    pub value: Option<Seq<char>>,
    pub attr: nat,
}

impl View for DirectiveKey {
    type V = KeyView;

    open spec fn view(&self) -> KeyView {
        match self {
            DirectiveKey::Each => KeyView::Each,
            DirectiveKey::Unknown(k) => KeyView::Unknown(k@),
        }
    }
}

pub open spec fn opt_view(o: Option<String>) -> Option<Seq<char>> {
    match o {
        Some(s) => Some(s@),
        None => None,
    }
}

impl View for Directive {
    type V = DirectiveView;

    open spec fn view(&self) -> DirectiveView {
        DirectiveView { key: self.key@, value: opt_view(self.value), attr: self.attr as nat }
    }
}

/// What the extractor returns for one field.
pub struct Extraction {
    pub directives: Vec<Directive>,
    /// The first attribute of this tool's namespace whose body is malformed.
    /// When set, `directives` is empty.
    pub malformed: Option<usize>,
}

/// The attribute namespace this tool reads.
pub open spec fn namespace() -> Seq<char> {
    "builder"@
}

pub open spec fn key_view(k: Seq<char>) -> KeyView {
    if k == "each"@ {
        KeyView::Each
    } else {
        KeyView::Unknown(k)
    }
}

/// The string form of a literal: string literals by their content, booleans
/// as `true` / `false`, integers by their base-10 digits.
pub open spec fn lit_text(l: LitValue) -> Option<Seq<char>> {
    match l {
        LitValue::Str(s) => Some(s@),
        LitValue::Bool(b) => Some(if b { "true"@ } else { "false"@ }),
        LitValue::Int(d) => Some(d@),
        LitValue::Other => None,
    }
}

pub open spec fn value_text(v: MetaValue) -> Option<Seq<char>> {
    match v {
        MetaValue::Lit(l) => lit_text(l),
        _ => None,
    }
}

/// The directives of an attribute body's entries; an entry whose path is not
/// a single identifier gives none.
pub open spec fn item_directives(items: Seq<MetaItem>, attr: nat) -> Seq<DirectiveView>
    decreases items.len(),
{
    if items.len() == 0 {
        Seq::empty()
    } else {
        let prev = item_directives(items.drop_last(), attr);
        match items.last().key {
            Some(k) => prev.push(
                DirectiveView { key: key_view(k@), value: value_text(items.last().value), attr },
            ),
            None => prev,
        }
    }
}

pub open spec fn in_namespace(a: Attribute) -> bool {
    a.path is Some && a.path.unwrap()@ == namespace()
}

pub open spec fn is_malformed(a: Attribute) -> bool {
    in_namespace(a) && a.body is Malformed
}

pub open spec fn attr_directives(a: Attribute, i: nat) -> Seq<DirectiveView> {
    if in_namespace(a) {
        match a.body {
            AttrBody::Items(items) => item_directives(items@, i),
            AttrBody::Malformed => Seq::empty(),
        }
    } else {
        Seq::empty()
    }
}

/// The directives of a list of attributes, in order.
pub open spec fn directives_of(attrs: Seq<Attribute>) -> Seq<DirectiveView>
    decreases attrs.len(),
{
    if attrs.len() == 0 {
        Seq::empty()
    } else {
        directives_of(attrs.drop_last()) + attr_directives(attrs.last(), (attrs.len() - 1) as nat)
    }
}

pub open spec fn views(ds: Seq<Directive>) -> Seq<DirectiveView> {
    ds.map_values(|d: Directive| d@)
}

/// The result of extraction on `attrs`: the first malformed attribute of the
/// namespace, if any, with no directives; else every directive in order.
pub open spec fn extraction_spec(attrs: Seq<Attribute>, r: Extraction) -> bool {
    match r.malformed {
        Some(i) => {
            &&& i < attrs.len()
            &&& is_malformed(attrs[i as int])
            &&& forall|j: int| 0 <= j < i ==> !is_malformed(#[trigger] attrs[j])
            &&& r.directives@.len() == 0
        },
        None => {
            &&& forall|j: int| 0 <= j < attrs.len() ==> !is_malformed(#[trigger] attrs[j])
            &&& views(r.directives@) == directives_of(attrs)
        },
    }
}

fn key_of(k: &String) -> (r: DirectiveKey)
    ensures
        r@ == key_view(k@),
{
    if str_eq(k.as_str(), "each") {
        proof {
            reveal_strlit("each");
        }
        DirectiveKey::Each
    } else {
        DirectiveKey::Unknown(k.clone())
    }
}

fn lit_string(l: &LitValue) -> (r: Option<String>)
    ensures
        opt_view(r) == lit_text(*l),
{
    match l {
        LitValue::Str(s) => Some(s.clone()),
        LitValue::Bool(b) => if *b {
            Some(String::from_str("true"))
        } else {
            Some(String::from_str("false"))
        },
        LitValue::Int(d) => Some(d.clone()),
        LitValue::Other => None,
    }
}

fn value_string(v: &MetaValue) -> (r: Option<String>)
    ensures
        opt_view(r) == value_text(*v),
{
    match v {
        MetaValue::Lit(l) => lit_string(l),
        _ => None,
    }
}

fn in_builder_namespace(a: &Attribute) -> (r: bool)
    ensures
        r == in_namespace(*a),
{
    match &a.path {
        Some(p) => str_eq(p.as_str(), "builder"),
        None => false,
    }
}

/// Appends the directives of one namespace attribute's entries to `out`.
fn push_item_directives(items: &Vec<MetaItem>, attr: usize, out: &mut Vec<Directive>)
    ensures
        views(final(out)@) == views(old(out)@) + item_directives(items@, attr as nat),
{
    let ghost start = views(out@);
    let mut k: usize = 0;
    while k < items.len()
        invariant
            k <= items@.len(),
            views(out@) == start + item_directives(items@.subrange(0, k as int), attr as nat),
        decreases items@.len() - k,
    {
        let item = &items[k];
        proof {
            assert(items@.subrange(0, k + 1).drop_last() == items@.subrange(0, k as int));
            assert(items@.subrange(0, k + 1).last() == items@[k as int]);
        }
        match &item.key {
            Some(key) => {
                let d = Directive { key: key_of(key), value: value_string(&item.value), attr };
                let ghost before = views(out@);
                out.push(d);
                assert(views(out@) == before.push(d@));
                assert(views(out@) == start + item_directives(items@.subrange(0, k + 1), attr as nat));
            },
            None => {},
        }
        k = k + 1;
    }
    assert(items@.subrange(0, k as int) == items@);
}

/// The directives of a field's attributes. Attributes outside the `builder`
/// namespace are ignored; a namespace attribute whose body is malformed is
/// reported instead of any directive.
pub fn parse_builder_attrs(attrs: &Vec<Attribute>) -> (r: Extraction)
    ensures
        extraction_spec(attrs@, r),
{
    let mut out: Vec<Directive> = Vec::new();
    let mut i: usize = 0;
    while i < attrs.len()
        invariant
            i <= attrs@.len(),
            forall|j: int| 0 <= j < i ==> !is_malformed(#[trigger] attrs@[j]),
            views(out@) == directives_of(attrs@.subrange(0, i as int)),
        decreases attrs@.len() - i,
    {
        let a = &attrs[i];
        proof {
            assert(attrs@.subrange(0, i + 1).drop_last() == attrs@.subrange(0, i as int));
            assert(attrs@.subrange(0, i + 1).last() == attrs@[i as int]);
        }
        if in_builder_namespace(a) {
            match &a.body {
                AttrBody::Malformed => {
                    return Extraction { directives: Vec::new(), malformed: Some(i) };
                },
                AttrBody::Items(items) => {
                    push_item_directives(items, i, &mut out);
                },
            }
        }
        i = i + 1;
    }
    assert(attrs@.subrange(0, i as int) == attrs@);
    Extraction { directives: out, malformed: None }
}

} // verus!
