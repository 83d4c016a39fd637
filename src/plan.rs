//! The field plan builder: the decision tree from a field's type and
//! directives to what the builder stores, seeds, exposes and extracts.
use vstd::prelude::*;
use vstd::string::*;
use crate::classify::{
    extract_inner_type, inner_of, is_optional, is_repeated, optional_name, optional_wrapper,
    repeated_name, repeated_wrapper,
};
use crate::decl::{FieldDecl, TypeExpr, TypeView};
use crate::directive::{
    directives_of, is_malformed, parse_builder_attrs, views, Directive, DirectiveKey, DirectiveView,
};
use crate::text::str_eq;

verus! {

/// How a setter changes the stored value.
#[derive(PartialEq, Eq, Structural, Clone, Copy, Debug)]
pub enum SetterKind {
    /// Overwrites the stored value with the argument.
    Replace,
    /// Pushes the argument onto the stored sequence, creating it if absent.
    Append,
}

/// A setter method of the builder.
pub struct SetterSpec {
    pub method_name: String,
    pub param_type: TypeExpr,
    pub kind: SetterKind,
}

pub struct SetterView {
    pub method_name: Seq<char>,
    pub param_type: TypeView,
    pub kind: SetterKind,
}

impl View for SetterSpec {
    type V = SetterView;

    open spec fn view(&self) -> SetterView {
        SetterView { method_name: self.method_name@, param_type: self.param_type@, kind: self.kind }
    }
}

/// What the builder holds for a field before any setter is called.
#[derive(PartialEq, Eq, Structural, Clone, Copy, Debug)]
pub enum DefaultValue {
    Absent,
    /// A present, empty sequence.
    EmptySeq,
}

/// How `build` turns the stored value into the record's field.
#[derive(PartialEq, Eq, Structural, Clone, Copy, Debug)]
pub enum Extract {
    /// The stored value is the record's value, absence included.
    AsIs,
    /// The stored value must be present; absence fails with a missing-field error.
    Required,
}

/// Why no setter could be generated for a field.
#[derive(PartialEq, Eq, Structural, Clone, Copy, Debug)]
pub enum DiagnosticKind {
    /// An `each` directive on a field whose type is not the repeated wrapper.
    MissingRepeatedWrapper,
    /// A directive with an unknown key, or `each` without a value.
    UnrecognizedDirective,
    /// An attribute of the namespace whose body is not a list of entries.
    MalformedAttribute,
}

/// A compile-time error for one field, anchored at one of its attributes.
#[derive(PartialEq, Eq, Structural, Clone, Copy, Debug)]
pub struct Diagnostic {
    pub kind: DiagnosticKind,
    /// The index of the offending attribute among the field's attributes.
    pub attr: usize,
}

pub open spec fn diagnostic_text(k: DiagnosticKind) -> Seq<char> {
    match k {
        DiagnosticKind::MissingRepeatedWrapper => "`each` needs a field of type `Vec<T>`"@,
        _ => "expected `builder(each = \"...\")`"@,
    }
}

impl Diagnostic {
    /// The human-readable message of this diagnostic.
    pub fn message(&self) -> (r: String)
        ensures
            r@ == diagnostic_text(self.kind),
    {
        match self.kind {
            DiagnosticKind::MissingRepeatedWrapper => String::from_str(
                "`each` needs a field of type `Vec<T>`",
            ),
            _ => String::from_str("expected `builder(each = \"...\")`"),
        }
    }
}

/// The setters of a field, or the diagnostic emitted in their place.
pub enum SetterPlan {
    Methods(Vec<SetterSpec>),
    Failed(Diagnostic),
}

pub enum SetterPlanView {
    Methods(Seq<SetterView>),
    Failed(Diagnostic),
}

impl View for SetterPlan {
    type V = SetterPlanView;

    open spec fn view(&self) -> SetterPlanView {
        match self {
            SetterPlan::Methods(ms) => SetterPlanView::Methods(
                ms@.map_values(|s: SetterSpec| s@),
            ),
            SetterPlan::Failed(d) => SetterPlanView::Failed(*d),
        }
    }
}

/// The plan for one field.
pub struct FieldPlan {
    pub name: String,
    /// The type the builder stores for the field.
    pub storage_type: TypeExpr,
    pub default_value: DefaultValue,
    pub setters: SetterPlan,
    pub extraction: Extract,
}

pub struct PlanView {
    pub name: Seq<char>,
    pub storage_type: TypeView,
    pub default_value: DefaultValue,
    pub setters: SetterPlanView,
    pub extraction: Extract,
}

impl View for FieldPlan {
    type V = PlanView;

    open spec fn view(&self) -> PlanView {
        PlanView {
            name: self.name@,
            storage_type: self.storage_type@,
            default_value: self.default_value,
            setters: self.setters@,
            extraction: self.extraction,
        }
    }
}

/// `Option<ty>`, written with its full path.
pub open spec fn optional_of(ty: TypeView) -> TypeView {
    TypeView::Generic {
        text: "std::option::Option<"@ + ty.text() + ">"@,
        ident: optional_name(),
        arg_count: 1,
        last_type: Some(Box::new(ty)),
    }
}

/// The builder stores an optional field as declared, any other as `Option<ty>`.
pub open spec fn storage_of(ty: TypeView) -> TypeView {
    if is_optional(ty) {
        ty
    } else {
        optional_of(ty)
    }
}

/// A repeated field starts as a present empty sequence, any other as absent.
pub open spec fn default_of(ty: TypeView) -> DefaultValue {
    if is_repeated(ty) {
        DefaultValue::EmptySeq
    } else {
        DefaultValue::Absent
    }
}

/// An optional field is copied as it is; any other is required.
pub open spec fn extraction_of(ty: TypeView) -> Extract {
    if is_optional(ty) {
        Extract::AsIs
    } else {
        Extract::Required
    }
}

/// The parameter type of the replacing setter: the optional wrapper's inner
/// type, else the declared type.
pub open spec fn param_of(ty: TypeView) -> TypeView {
    match inner_of(ty, optional_name()) {
        Some(t) => t,
        None => ty,
    }
}

pub open spec fn has_malformed(attrs: Seq<crate::decl::Attribute>) -> bool {
    exists|j: int| 0 <= j < attrs.len() && is_malformed(#[trigger] attrs[j])
}

/// The index of the first malformed namespace attribute.
pub open spec fn first_malformed(attrs: Seq<crate::decl::Attribute>) -> nat
    recommends
        has_malformed(attrs),
{
    choose|i: nat|
        i < attrs.len() && is_malformed(#[trigger] attrs[i as int]) && forall|j: int|
            0 <= j < i ==> !is_malformed(#[trigger] attrs[j])
}

pub open spec fn replace_setter(name: Seq<char>, ty: TypeView) -> SetterView {
    SetterView { method_name: name, param_type: param_of(ty), kind: SetterKind::Replace }
}

/// The setters decided by a field's first directive.
pub open spec fn directive_setters(name: Seq<char>, ty: TypeView, d: DirectiveView) -> SetterPlanView {
    if d.key is Each && d.value is Some {
        let alias = d.value.unwrap();
        match inner_of(ty, repeated_name()) {
            None => SetterPlanView::Failed(
                Diagnostic { kind: DiagnosticKind::MissingRepeatedWrapper, attr: d.attr as usize },
            ),
            Some(u) => {
                let append = SetterView { method_name: alias, param_type: u, kind: SetterKind::Append };
                if alias == name {
                    SetterPlanView::Methods(seq![append])
                } else {
                    SetterPlanView::Methods(seq![replace_setter(name, ty), append])
                }
            },
        }
    } else {
        SetterPlanView::Failed(
            Diagnostic { kind: DiagnosticKind::UnrecognizedDirective, attr: d.attr as usize },
        )
    }
}

/// The setters of a field: a diagnostic for the first malformed namespace
/// attribute; one replacing setter without directives; else what the first
/// directive decides.
pub open spec fn setters_of(name: Seq<char>, ty: TypeView, attrs: Seq<crate::decl::Attribute>) -> SetterPlanView {
    if has_malformed(attrs) {
        SetterPlanView::Failed(
            Diagnostic { kind: DiagnosticKind::MalformedAttribute, attr: first_malformed(attrs) as usize },
        )
    } else if directives_of(attrs).len() == 0 {
        SetterPlanView::Methods(seq![replace_setter(name, ty)])
    } else {
        directive_setters(name, ty, directives_of(attrs)[0])
    }
}

/// The plan of a field.
pub open spec fn plan_of(f: FieldDecl) -> PlanView {
    PlanView {
        name: f.name@,
        storage_type: storage_of(f.ty@),
        default_value: default_of(f.ty@),
        setters: setters_of(f.name@, f.ty@, f.attrs@),
        extraction: extraction_of(f.ty@),
    }
}

/// `Option<ty>` as a type expression.
fn wrap_optional(ty: &TypeExpr) -> (r: TypeExpr)
    ensures
        r@ == optional_of(ty@),
{
    let text = String::from_str("std::option::Option<").concat(ty.text().as_str()).concat(">");
    let ident = String::from_str(optional_wrapper());
    TypeExpr::Generic { text, ident, arg_count: 1, last_type: Some(Box::new(ty.duplicate())) }
}

fn replacing(name: &String, ty: &TypeExpr) -> (r: SetterSpec)
    ensures
        r@ == replace_setter(name@, ty@),
{
    let param = match extract_inner_type(ty, optional_wrapper()) {
        Some(t) => t,
        None => ty.duplicate(),
    };
    SetterSpec { method_name: name.clone(), param_type: param, kind: SetterKind::Replace }
}

fn setters_for_directive(name: &String, ty: &TypeExpr, d: &Directive) -> (r: SetterPlan)
    ensures
        r@ == directive_setters(name@, ty@, d@),
{
    match (&d.key, &d.value) {
        (DirectiveKey::Each, Some(alias)) => {
            match extract_inner_type(ty, repeated_wrapper()) {
                None => SetterPlan::Failed(
                    Diagnostic { kind: DiagnosticKind::MissingRepeatedWrapper, attr: d.attr },
                ),
                Some(u) => {
                    let append = SetterSpec {
                        method_name: alias.clone(),
                        param_type: u,
                        kind: SetterKind::Append,
                    };
                    let mut ms: Vec<SetterSpec> = Vec::new();
                    if !str_eq(alias.as_str(), name.as_str()) {
                        ms.push(replacing(name, ty));
                    }
                    ms.push(append);
                    proof {
                        let want = directive_setters(name@, ty@, d@)->Methods_0;
                        assert(ms@.map_values(|s: SetterSpec| s@) =~= want);
                    }
                    SetterPlan::Methods(ms)
                },
            }
        },
        _ => SetterPlan::Failed(
            Diagnostic { kind: DiagnosticKind::UnrecognizedDirective, attr: d.attr },
        ),
    }
}

/// The setters of a field, from its attributes.
pub fn plan_setters(f: &FieldDecl) -> (r: SetterPlan)
    ensures
        r@ == setters_of(f.name@, f.ty@, f.attrs@),
{
    let ex = parse_builder_attrs(&f.attrs);
    match ex.malformed {
        Some(i) => {
            proof {
                let fm = first_malformed(f.attrs@);
                assert(has_malformed(f.attrs@)) by {
                    assert(is_malformed(f.attrs@[i as int]));
                }
                assert(fm == i as nat) by {
                    if fm < i {
                        assert(!is_malformed(f.attrs@[fm as int]));
                    } else if fm > i {
                        assert(!is_malformed(f.attrs@[i as int]));
                    }
                }
            }
            SetterPlan::Failed(Diagnostic { kind: DiagnosticKind::MalformedAttribute, attr: i })
        },
        None => {
            assert(views(ex.directives@).len() == ex.directives@.len());
            if ex.directives.len() == 0 {
                let ms = vec![replacing(&f.name, &f.ty)];
                assert(ms@.map_values(|s: SetterSpec| s@) =~= seq![replace_setter(f.name@, f.ty@)]);
                SetterPlan::Methods(ms)
            } else {
                assert(views(ex.directives@)[0] == ex.directives@[0]@);
                setters_for_directive(&f.name, &f.ty, &ex.directives[0])
            }
        },
    }
}

/// The plan of one field, independent of every other field.
pub fn plan_field(f: &FieldDecl) -> (r: FieldPlan)
    ensures
        r@ == plan_of(*f),
{
    let storage_type = match extract_inner_type(&f.ty, optional_wrapper()) {
        Some(_) => f.ty.duplicate(),
        None => wrap_optional(&f.ty),
    };
    let default_value = match extract_inner_type(&f.ty, repeated_wrapper()) {
        Some(_) => DefaultValue::EmptySeq,
        None => DefaultValue::Absent,
    };
    let extraction = match extract_inner_type(&f.ty, optional_wrapper()) {
        Some(_) => Extract::AsIs,
        None => Extract::Required,
    };
    FieldPlan {
        name: f.name.clone(),
        storage_type,
        default_value,
        setters: plan_setters(f),
        extraction,
    }
}

} // verus!
