//! The input: a plain description of a record declaration.
use vstd::prelude::*;

verus! {

/// A field's declared type, as far as classification reads it.
///
/// Classification is syntactic: a type alias is not followed.
pub enum TypeExpr {
    /// A path type whose last segment carries angle-bracketed generic
    /// arguments: `a::b::ident<..>`. `arg_count` is how many arguments it
    /// carries; `last_type` is the last of them when that one is a type.
    Generic { text: String, ident: String, arg_count: usize, last_type: Option<Box<TypeExpr>> },
    /// Any other type, kept by its source form.
    Other { text: String },
}

/// The mathematical value of a [`TypeExpr`].
pub enum TypeView {
    Generic { text: Seq<char>, ident: Seq<char>, arg_count: nat, last_type: Option<Box<TypeView>> },
    Other { text: Seq<char> },
}

impl TypeView {
    pub open spec fn text(self) -> Seq<char> {
        match self {
            TypeView::Generic { text, .. } => text,
            TypeView::Other { text } => text,
        }
    }
}

impl View for TypeExpr {
    type V = TypeView;

    open spec fn view(&self) -> TypeView
        decreases self,
    {
        match self {
            TypeExpr::Generic { text, ident, arg_count, last_type } => TypeView::Generic {
                text: text@,
                ident: ident@,
                arg_count: *arg_count as nat,
                last_type: match last_type {
                    Some(t) => Some(Box::new((**t).view())),
                    None => None,
                },
            },
            TypeExpr::Other { text } => TypeView::Other { text: text@ },
        }
    }
}

impl TypeExpr {
    /// The type's source form.
    pub fn text(&self) -> (r: &String)
        ensures
            r@ == self@.text(),
    {
        match self {
            TypeExpr::Generic { text, .. } => text,
            TypeExpr::Other { text } => text,
        }
    }

    /// A copy of this type expression, equal to it.
    pub fn duplicate(&self) -> (r: TypeExpr)
        ensures
            r == *self,
            r@ == self@,
        decreases self,
    {
        match self {
            TypeExpr::Generic { text, ident, arg_count, last_type } => {
                let last = match last_type {
                    Some(t) => Some(Box::new(t.duplicate())),
                    None => None,
                };
                TypeExpr::Generic {
                    text: text.clone(),
                    ident: ident.clone(),
                    arg_count: *arg_count,
                    last_type: last,
                }
            },
            TypeExpr::Other { text } => TypeExpr::Other { text: text.clone() },
        }
    }
}

} // verus!

verus! {

/// The literal on the right of `key = literal` in an attribute entry.
pub enum LitValue {
    Str(String),
    Bool(bool),
    /// An integer literal, by its base-10 digits.
    Int(String),
    /// Any other kind of literal (character, byte string, float, ...).
    Other,
}

/// The shape of one entry in an attribute's body.
pub enum MetaValue {
    /// `key`
    Word,
    /// `key(...)`
    List,
    /// `key = literal`
    Lit(LitValue),
    /// `key = expr`, where the expression is not a literal.
    Expr,
}

/// One comma-separated entry in an attribute's body.
pub struct MetaItem {
    /// The entry's path when it is a single identifier.
    pub key: Option<String>,
    pub value: MetaValue,
}

/// The body of an attribute, `#[path(body)]`.
pub enum AttrBody {
    /// The body parsed as a comma-separated list of entries.
    Items(Vec<MetaItem>),
    /// The body did not parse as such a list.
    Malformed,
}

/// An attribute attached to a field.
pub struct Attribute {
    /// The attribute's path when it is a single identifier.
    pub path: Option<String>,
    pub body: AttrBody,
}

/// A named field of the record.
pub struct FieldDecl {
    pub name: String,
    pub ty: TypeExpr,
    pub attrs: Vec<Attribute>,
}

/// The field list of the declaration.
pub enum Fields {
    Named(Vec<FieldDecl>),
    /// Tuple fields, no fields at all, or a declaration that is no struct.
    Unsupported,
}

/// The record declaration that a builder is generated for.
pub struct TypeDecl {
    pub name: String,
    pub fields: Fields,
}

/// The named fields of a declaration, if it has them.
pub fn named_fields(decl: &TypeDecl) -> (r: Option<&Vec<FieldDecl>>)
    ensures
        decl.fields is Named <==> r is Some,
        decl.fields is Named ==> r.unwrap() == decl.fields->Named_0,
{
    match &decl.fields {
        Fields::Named(fs) => Some(fs),
        Fields::Unsupported => None,
    }
}

} // verus!
