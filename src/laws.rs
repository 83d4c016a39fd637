//! What holds of every generated builder.
use vstd::prelude::*;
use crate::classify::{inner_of, is_optional, is_repeated, optional_name, repeated_name};
use crate::decl::{Attribute, AttrBody, FieldDecl, TypeDecl};
use crate::directive::{attr_directives, directives_of, in_namespace, item_directives, KeyView};
use crate::model::{call_slots, first_missing, missing, start_slots, well_formed, PayloadView};
use crate::plan::{
    has_malformed, plan_of, Diagnostic, DiagnosticKind, SetterKind, SetterPlanView, SetterView,
};
use crate::synth::{generate_spec, Generated, GeneratedView};

verus! {

/// The generated artifacts of a declaration with named fields.
pub open spec fn gen_of(decl: TypeDecl) -> GeneratedView {
    generate_spec(decl)->Some_0
}

pub open spec fn field_of(decl: TypeDecl, i: int) -> FieldDecl {
    decl.fields->Named_0@[i]
}

pub open spec fn valid_field(decl: TypeDecl, i: int) -> bool {
    decl.fields is Named && 0 <= i < decl.fields->Named_0@.len()
}

/// A field without directives: no attribute of the namespace.
pub open spec fn no_directives(f: FieldDecl) -> bool {
    directives_of(f.attrs@).len() == 0 && !has_malformed(f.attrs@)
}

/// The artifacts of a declaration have one entry per field, and entry `i`
/// of each is the plan of field `i` alone.
pub proof fn lemma_generated_shape(decl: TypeDecl)
    requires
        decl.fields is Named,
    ensures
        well_formed(gen_of(decl)),
        gen_of(decl).setters.len() == decl.fields->Named_0@.len(),
        forall|i: int|
            #![trigger gen_of(decl).setters[i]]
            valid_field(decl, i) ==> {
                &&& gen_of(decl).setters[i] == plan_of(field_of(decl, i)).setters
                &&& gen_of(decl).defaults[i] == (
                field_of(decl, i).name@,
                plan_of(field_of(decl, i)).default_value,
            )
                &&& gen_of(decl).build_fields[i] == (
                field_of(decl, i).name@,
                plan_of(field_of(decl, i)).extraction,
            )
            },
{
}

/// A field with no directives whose type is neither optional nor repeated
/// gets exactly one replacing setter named after it, taking the declared
/// type, and starts absent. Calling that setter stores its argument, so the
/// field is no longer missing; while it is absent and every earlier field
/// is present or optional, building fails naming this field.
pub proof fn law_plain_field<V>(
    decl: TypeDecl,
    i: int,
    slots: Seq<Option<PayloadView<V>>>,
    arg: PayloadView<V>,
)
    requires
        valid_field(decl, i),
        no_directives(field_of(decl, i)),
        !is_optional(field_of(decl, i).ty@),
        !is_repeated(field_of(decl, i).ty@),
        slots.len() == decl.fields->Named_0@.len(),
    ensures
        gen_of(decl).setters[i] == SetterPlanView::Methods(
            seq![
                SetterView {
                    method_name: field_of(decl, i).name@,
                    param_type: field_of(decl, i).ty@,
                    kind: SetterKind::Replace,
                },
            ],
        ),
        start_slots::<V>(gen_of(decl))[i] is None,
        call_slots(gen_of(decl), slots, i, 0, arg)[i] == Some(arg),
        !missing(gen_of(decl), call_slots(gen_of(decl), slots, i, 0, arg), i),
        (slots[i] is None && forall|j: int| 0 <= j < i ==> !#[trigger] missing(gen_of(decl), slots, j))
            ==> first_missing(gen_of(decl), slots, i) && gen_of(decl).build_fields[i].0 == field_of(
            decl,
            i,
        ).name@,
{
    lemma_generated_shape(decl);
    let g = gen_of(decl);
    assert(g.setters[i] == plan_of(field_of(decl, i)).setters);
}

/// An optional field starts absent and is never missing: building without
/// calling its setter yields its absence, never an error.
pub proof fn law_optional_field<V>(decl: TypeDecl, i: int, slots: Seq<Option<PayloadView<V>>>)
    requires
        valid_field(decl, i),
        is_optional(field_of(decl, i).ty@),
        slots.len() == decl.fields->Named_0@.len(),
    ensures
        start_slots::<V>(gen_of(decl))[i] is None,
        !missing(gen_of(decl), slots, i),
{
    lemma_generated_shape(decl);
    lemma_wrappers_differ();
    let g = gen_of(decl);
    assert(g.setters[i] == plan_of(field_of(decl, i)).setters);
    assert(!is_repeated(field_of(decl, i).ty@));
}

/// A repeated field without directives starts as a present empty sequence,
/// so building without calling a setter yields an empty sequence and no
/// missing-field error; it gets one replacing setter taking the whole
/// sequence.
pub proof fn law_repeated_field<V>(decl: TypeDecl, i: int)
    requires
        valid_field(decl, i),
        no_directives(field_of(decl, i)),
        is_repeated(field_of(decl, i).ty@),
    ensures
        start_slots::<V>(gen_of(decl))[i] == Some(PayloadView::<V>::Many(Seq::empty())),
        !missing(gen_of(decl), start_slots::<V>(gen_of(decl)), i),
        gen_of(decl).setters[i] == SetterPlanView::Methods(
            seq![
                SetterView {
                    method_name: field_of(decl, i).name@,
                    param_type: field_of(decl, i).ty@,
                    kind: SetterKind::Replace,
                },
            ],
        ),
{
    lemma_generated_shape(decl);
    lemma_wrappers_differ();
    let g = gen_of(decl);
    assert(g.setters[i] == plan_of(field_of(decl, i)).setters);
    assert(!is_optional(field_of(decl, i).ty@));
}

/// The field's first directive is `each = alias`.
pub open spec fn each_alias(f: FieldDecl, alias: Seq<char>) -> bool {
    &&& !has_malformed(f.attrs@)
    &&& directives_of(f.attrs@).len() > 0
    &&& directives_of(f.attrs@)[0].key is Each
    &&& directives_of(f.attrs@)[0].value == Some(alias)
}

/// A repeated field with `each = alias`, where `alias` differs from the
/// field's name, gets a replacing setter named after the field, taking the
/// whole sequence, and an appending setter named `alias`, taking one
/// element. Three appends from the start give the three elements in call
/// order; a replacement stores exactly the given sequence.
pub proof fn law_each_with_distinct_name<V>(
    decl: TypeDecl,
    i: int,
    alias: Seq<char>,
    a: V,
    b: V,
    c: V,
    items: Seq<V>,
    slots: Seq<Option<PayloadView<V>>>,
)
    requires
        valid_field(decl, i),
        is_repeated(field_of(decl, i).ty@),
        each_alias(field_of(decl, i), alias),
        alias != field_of(decl, i).name@,
        slots.len() == decl.fields->Named_0@.len(),
    ensures
        gen_of(decl).setters[i] == SetterPlanView::Methods(
            seq![
                SetterView {
                    method_name: field_of(decl, i).name@,
                    param_type: field_of(decl, i).ty@,
                    kind: SetterKind::Replace,
                },
                SetterView {
                    method_name: alias,
                    param_type: inner_of(field_of(decl, i).ty@, repeated_name())->Some_0,
                    kind: SetterKind::Append,
                },
            ],
        ),
        ({
            let g = gen_of(decl);
            let s0 = start_slots::<V>(g);
            let s1 = call_slots(g, s0, i, 1, PayloadView::One(a));
            let s2 = call_slots(g, s1, i, 1, PayloadView::One(b));
            let s3 = call_slots(g, s2, i, 1, PayloadView::One(c));
            s3[i] == Some(PayloadView::<V>::Many(seq![a, b, c]))
        }),
        call_slots(gen_of(decl), slots, i, 0, PayloadView::Many(items))[i] == Some(
            PayloadView::<V>::Many(items),
        ),
{
    lemma_generated_shape(decl);
    lemma_wrappers_differ();
    let g = gen_of(decl);
    let f = field_of(decl, i);
    assert(g.setters[i] == plan_of(f).setters);
    assert(!is_optional(f.ty@));
    let s0 = start_slots::<V>(g);
    assert(s0[i] == Some(PayloadView::<V>::Many(Seq::empty())));
    assert(seq![a, b, c] =~= Seq::<V>::empty().push(a).push(b).push(c));
}

/// A repeated field with `each = alias`, where `alias` is the field's own
/// name, gets only the appending setter: no replacing setter of the same
/// name.
pub proof fn law_each_with_same_name(decl: TypeDecl, i: int)
    requires
        valid_field(decl, i),
        is_repeated(field_of(decl, i).ty@),
        each_alias(field_of(decl, i), field_of(decl, i).name@),
    ensures
        gen_of(decl).setters[i] == SetterPlanView::Methods(
            seq![
                SetterView {
                    method_name: field_of(decl, i).name@,
                    param_type: inner_of(field_of(decl, i).ty@, repeated_name())->Some_0,
                    kind: SetterKind::Append,
                },
            ],
        ),
{
    lemma_generated_shape(decl);
    assert(gen_of(decl).setters[i] == plan_of(field_of(decl, i)).setters);
}

/// An `each` directive on a field whose type is not repeated yields a
/// diagnostic in place of the field's setters, anchored at the directive's
/// attribute; every other field's setters are its own plan's, whatever this
/// field holds.
pub proof fn law_each_without_repeated_type(decl: TypeDecl, i: int, alias: Seq<char>)
    requires
        valid_field(decl, i),
        !is_repeated(field_of(decl, i).ty@),
        each_alias(field_of(decl, i), alias),
    ensures
        gen_of(decl).setters[i] == SetterPlanView::Failed(
            Diagnostic {
                kind: DiagnosticKind::MissingRepeatedWrapper,
                attr: directives_of(field_of(decl, i).attrs@)[0].attr as usize,
            },
        ),
        in_namespace(field_of(decl, i).attrs@[directives_of(field_of(decl, i).attrs@)[0].attr as int]),
        forall|j: int|
            valid_field(decl, j) && j != i ==> #[trigger] gen_of(decl).setters[j] == plan_of(
                field_of(decl, j),
            ).setters,
{
    lemma_generated_shape(decl);
    assert(gen_of(decl).setters[i] == plan_of(field_of(decl, i)).setters);
    lemma_directive_anchor(field_of(decl, i).attrs@, 0);
}

/// A field whose first directive has an unknown key yields a diagnostic in
/// place of its setters, anchored at an attribute of the namespace; every
/// other field's setters are its own plan's.
pub proof fn law_unknown_directive(decl: TypeDecl, i: int, key: Seq<char>)
    requires
        valid_field(decl, i),
        !has_malformed(field_of(decl, i).attrs@),
        directives_of(field_of(decl, i).attrs@).len() > 0,
        directives_of(field_of(decl, i).attrs@)[0].key == KeyView::Unknown(key),
    ensures
        gen_of(decl).setters[i] == SetterPlanView::Failed(
            Diagnostic {
                kind: DiagnosticKind::UnrecognizedDirective,
                attr: directives_of(field_of(decl, i).attrs@)[0].attr as usize,
            },
        ),
        directives_of(field_of(decl, i).attrs@)[0].attr < field_of(decl, i).attrs@.len(),
        in_namespace(field_of(decl, i).attrs@[directives_of(field_of(decl, i).attrs@)[0].attr as int]),
        forall|j: int|
            valid_field(decl, j) && j != i ==> #[trigger] gen_of(decl).setters[j] == plan_of(
                field_of(decl, j),
            ).setters,
{
    lemma_generated_shape(decl);
    assert(gen_of(decl).setters[i] == plan_of(field_of(decl, i)).setters);
    lemma_directive_anchor(field_of(decl, i).attrs@, 0);
}

/// Generation is a function of the declaration: two results from the same
/// declaration are identical.
pub proof fn law_generation_deterministic(decl: TypeDecl, g1: Generated, g2: Generated)
    requires
        generate_spec(decl) == Some(g1@),
        generate_spec(decl) == Some(g2@),
    ensures
        g1@ == g2@,
{
}

/// The optional and repeated wrappers have different names, so no type is
/// classified as both.
pub proof fn lemma_wrappers_differ()
    ensures
        optional_name() != repeated_name(),
        forall|t: crate::decl::TypeView| !(is_optional(t) && is_repeated(t)),
{
    reveal_strlit("Option");
    reveal_strlit("Vec");
    assert(optional_name().len() != repeated_name().len());
}

proof fn lemma_item_anchor(items: Seq<crate::decl::MetaItem>, a: nat, k: int)
    requires
        0 <= k < item_directives(items, a).len(),
    ensures
        item_directives(items, a)[k].attr == a,
    decreases items.len(),
{
    if items.len() > 0 {
        let prev = item_directives(items.drop_last(), a);
        if k < prev.len() {
            lemma_item_anchor(items.drop_last(), a, k);
        }
    }
}

/// Every directive comes from an attribute of the namespace.
pub proof fn lemma_directive_anchor(attrs: Seq<Attribute>, k: int)
    requires
        0 <= k < directives_of(attrs).len(),
    ensures
        directives_of(attrs)[k].attr < attrs.len(),
        in_namespace(attrs[directives_of(attrs)[k].attr as int]),
    decreases attrs.len(),
{
    let prev = directives_of(attrs.drop_last());
    let n = (attrs.len() - 1) as nat;
    if k < prev.len() {
        lemma_directive_anchor(attrs.drop_last(), k);
    } else {
        let last = attrs.last();
        let ds = attr_directives(last, n);
        assert(ds.len() > 0);
        assert(in_namespace(last));
        match last.body {
            AttrBody::Items(items) => lemma_item_anchor(items@, n, k - prev.len()),
            AttrBody::Malformed => {},
        }
    }
}

} // verus!
