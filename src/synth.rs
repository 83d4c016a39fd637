//! The synthesizer: assembles the generated artifacts from the field plans.
use vstd::prelude::*;
use vstd::string::*;
use crate::decl::{named_fields, FieldDecl, Fields, TypeDecl, TypeExpr, TypeView};
use crate::plan::{plan_field, plan_of, DefaultValue, Extract, SetterPlan, SetterPlanView};

verus! {

/// A field of the builder struct.
pub struct StructField {
    pub name: String,
    pub ty: TypeExpr,
}

/// A field's value in the builder's default construction.
pub struct DefaultField {
    pub name: String,
    pub value: DefaultValue,
}

/// A field's value in the record that `build` assembles.
pub struct BuildField {
    pub name: String,
    pub extraction: Extract,
}

/// The generated artifacts: the builder struct, its default construction,
/// its setters (one entry per field) and its `build` operation. Each holds
/// one entry per field of the record, in declaration order.
pub struct Generated {
    pub record_name: String,
    pub builder_name: String,
    pub struct_fields: Vec<StructField>,
    pub defaults: Vec<DefaultField>,
    pub setters: Vec<SetterPlan>,
    pub build_fields: Vec<BuildField>,
}

/// Why no builder is generated at all.
#[derive(PartialEq, Eq, Structural, Clone, Copy, Debug)]
pub enum GenError {
    /// The declaration has no named fields.
    UnsupportedShape,
}

pub struct GeneratedView {
    pub record_name: Seq<char>,
    pub builder_name: Seq<char>,
    pub struct_fields: Seq<(Seq<char>, TypeView)>,
    pub defaults: Seq<(Seq<char>, DefaultValue)>,
    pub setters: Seq<SetterPlanView>,
    pub build_fields: Seq<(Seq<char>, Extract)>,
}

impl View for Generated {
    type V = GeneratedView;

    open spec fn view(&self) -> GeneratedView {
        GeneratedView {
            record_name: self.record_name@,
            builder_name: self.builder_name@,
            struct_fields: self.struct_fields@.map_values(|s: StructField| (s.name@, s.ty@)),
            defaults: self.defaults@.map_values(|d: DefaultField| (d.name@, d.value)),
            setters: self.setters@.map_values(|s: SetterPlan| s@),
            build_fields: self.build_fields@.map_values(|b: BuildField| (b.name@, b.extraction)),
        }
    }
}

/// What generation yields for the fields `fs` of a record named `name`.
pub open spec fn generated_of(name: Seq<char>, fs: Seq<FieldDecl>) -> GeneratedView {
    GeneratedView {
        record_name: name,
        builder_name: name + "Builder"@,
        struct_fields: fs.map_values(|f: FieldDecl| (f.name@, plan_of(f).storage_type)),
        defaults: fs.map_values(|f: FieldDecl| (f.name@, plan_of(f).default_value)),
        setters: fs.map_values(|f: FieldDecl| plan_of(f).setters),
        build_fields: fs.map_values(|f: FieldDecl| (f.name@, plan_of(f).extraction)),
    }
}

/// What generation yields for a declaration: nothing without named fields.
pub open spec fn generate_spec(decl: TypeDecl) -> Option<GeneratedView> {
    match decl.fields {
        Fields::Named(fs) => Some(generated_of(decl.name@, fs@)),
        Fields::Unsupported => None,
    }
}

/// Generates the builder for a record declaration. A field whose setters
/// cannot be generated carries a diagnostic in their place; the other
/// artifacts and the other fields are unaffected.
pub fn derive(decl: &TypeDecl) -> (r: Result<Generated, GenError>)
    ensures
        match r {
            Ok(g) => generate_spec(*decl) == Some(g@),
            Err(e) => e == GenError::UnsupportedShape && generate_spec(*decl) is None,
        },
{
    let fields = match named_fields(decl) {
        Some(fs) => fs,
        None => {
            return Err(GenError::UnsupportedShape);
        },
    };
    let ghost fs = fields@;
    let mut struct_fields: Vec<StructField> = Vec::new();
    let mut defaults: Vec<DefaultField> = Vec::new();
    let mut setters: Vec<SetterPlan> = Vec::new();
    let mut build_fields: Vec<BuildField> = Vec::new();
    let mut i: usize = 0;
    while i < fields.len()
        invariant
            fs == fields@,
            i <= fs.len(),
            struct_fields@.len() == i,
            defaults@.len() == i,
            setters@.len() == i,
            build_fields@.len() == i,
            forall|j: int|
                #![trigger fs[j]]
                0 <= j < i ==> {
                    &&& struct_fields@[j].name@ == fs[j].name@
                    &&& struct_fields@[j].ty@ == plan_of(fs[j]).storage_type
                    &&& defaults@[j].name@ == fs[j].name@
                    &&& defaults@[j].value == plan_of(fs[j]).default_value
                    &&& setters@[j]@ == plan_of(fs[j]).setters
                    &&& build_fields@[j].name@ == fs[j].name@
                    &&& build_fields@[j].extraction == plan_of(fs[j]).extraction
                },
        decreases fs.len() - i,
    {
        let f = &fields[i];
        let p = plan_field(f);
        struct_fields.push(StructField { name: p.name.clone(), ty: p.storage_type });
        defaults.push(DefaultField { name: p.name.clone(), value: p.default_value });
        build_fields.push(BuildField { name: p.name, extraction: p.extraction });
        setters.push(p.setters);
        i = i + 1;
    }
    let builder_name = decl.name.clone().concat("Builder");
    let g = Generated {
        record_name: decl.name.clone(),
        builder_name,
        struct_fields,
        defaults,
        setters,
        build_fields,
    };
    proof {
        let want = generated_of(decl.name@, fs);
        assert(g@.struct_fields =~= want.struct_fields);
        assert(g@.defaults =~= want.defaults);
        assert(g@.setters =~= want.setters);
        assert(g@.build_fields =~= want.build_fields);
    }
    Ok(g)
}

} // verus!
