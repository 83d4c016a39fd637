//! The type classifier: is a declared type an instance of a given wrapper?
use vstd::prelude::*;
use vstd::string::*;
use crate::decl::{TypeExpr, TypeView};
use crate::text::str_eq;

verus! {

/// The name of the optional wrapper.
pub open spec fn optional_name() -> Seq<char> {
    "Option"@
}

/// The name of the repeated wrapper.
pub open spec fn repeated_name() -> Seq<char> {
    "Vec"@
}

/// The optional wrapper's name.
pub fn optional_wrapper() -> (r: &'static str)
    ensures
        r@ == optional_name(),
{
    "Option"
}

/// The repeated wrapper's name.
pub fn repeated_wrapper() -> (r: &'static str)
    ensures
        r@ == repeated_name(),
{
    "Vec"
}

/// The type wrapped by `wrapper` in `ty`: when the last path segment is
/// named `wrapper` and carries exactly one generic argument, a type, that
/// type; otherwise nothing.
pub open spec fn inner_of(ty: TypeView, wrapper: Seq<char>) -> Option<TypeView> {
    match ty {
        TypeView::Generic { ident, arg_count, last_type, .. } => if ident == wrapper && arg_count
            == 1 && last_type is Some {
            Some(*last_type.unwrap())
        } else {
            None
        },
        TypeView::Other { .. } => None,
    }
}

pub open spec fn opt_type_view(o: Option<TypeExpr>) -> Option<TypeView> {
    match o {
        Some(t) => Some(t@),
        None => None,
    }
}

pub open spec fn is_optional(ty: TypeView) -> bool {
    inner_of(ty, optional_name()) is Some
}

pub open spec fn is_repeated(ty: TypeView) -> bool {
    inner_of(ty, repeated_name()) is Some
}

/// The inner type of `ty` under `wrapper`, if `ty` is an instance of it.
pub fn extract_inner_type(ty: &TypeExpr, wrapper: &str) -> (r: Option<TypeExpr>)
    ensures
        opt_type_view(r) == inner_of(ty@, wrapper@),
{
    match ty {
        TypeExpr::Generic { ident, arg_count, last_type, .. } => {
            if *arg_count != 1 || !str_eq(ident.as_str(), wrapper) {
                return None;
            }
            match last_type {
                Some(t) => Some(t.duplicate()),
                None => None,
            }
        },
        TypeExpr::Other { .. } => None,
    }
}

} // verus!
