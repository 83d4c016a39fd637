use builder::classify::{extract_inner_type, optional_wrapper, repeated_wrapper};
use builder::decl::{
    named_fields, AttrBody, Attribute, FieldDecl, Fields, LitValue, MetaItem, MetaValue, TypeDecl,
    TypeExpr,
};
use builder::directive::{parse_builder_attrs, DirectiveKey};
use builder::model::{find_setter, BuildError, BuilderState, Payload};
use builder::plan::{plan_field, DefaultValue, DiagnosticKind, Extract, SetterKind, SetterPlan};
use builder::synth::{GenError, Generated};
use builder::text::str_eq;

fn plain(text: &str) -> TypeExpr {
    TypeExpr::Other { text: text.to_string() }
}

fn generic(wrapper: &str, arg: TypeExpr) -> TypeExpr {
    let text = format!("{}<{}>", wrapper, arg.text());
    TypeExpr::Generic { text, ident: wrapper.to_string(), arg_count: 1, last_type: Some(Box::new(arg)) }
}

fn generic2(wrapper: &str, first: TypeExpr, last: TypeExpr) -> TypeExpr {
    let text = format!("{}<{}, {}>", wrapper, first.text(), last.text());
    TypeExpr::Generic { text, ident: wrapper.to_string(), arg_count: 2, last_type: Some(Box::new(last)) }
}

fn item(key: &str, value: MetaValue) -> MetaItem {
    MetaItem { key: Some(key.to_string()), value }
}

fn builder_attr(items: Vec<MetaItem>) -> Attribute {
    Attribute { path: Some("builder".to_string()), body: AttrBody::Items(items) }
}

fn each(alias: &str) -> Attribute {
    builder_attr(vec![item("each", MetaValue::Lit(LitValue::Str(alias.to_string())))])
}

fn field(name: &str, ty: TypeExpr, attrs: Vec<Attribute>) -> FieldDecl {
    FieldDecl { name: name.to_string(), ty, attrs }
}

fn command() -> TypeDecl {
    TypeDecl {
        name: "Command".to_string(),
        fields: Fields::Named(vec![
            field("executable", plain("String"), vec![]),
            field("args", generic("Vec", plain("String")), vec![each("arg")]),
            field("env", generic("Vec", plain("String")), vec![each("env")]),
            field("current_dir", generic("Option", plain("String")), vec![]),
        ]),
    }
}

fn generate(decl: &TypeDecl) -> Generated {
    match builder::synth::derive(decl) {
        Ok(g) => g,
        Err(e) => panic!("generation failed: {:?}", e),
    }
}

fn methods(g: &Generated, i: usize) -> Vec<(String, SetterKind, String)> {
    match &g.setters[i] {
        SetterPlan::Methods(ms) => ms
            .iter()
            .map(|m| (m.method_name.clone(), m.kind, m.param_type.text().clone()))
            .collect(),
        SetterPlan::Failed(d) => panic!("field {} failed: {:?}", i, d.kind),
    }
}

fn one(s: &str) -> Payload<String> {
    Payload::One(s.to_string())
}

fn set(state: &mut BuilderState<String>, g: &Generated, name: &str, arg: Payload<String>) {
    let (f, k) = find_setter(g, name).expect("no such setter");
    state.call(g, f, k, arg);
}

fn as_many(v: &Option<Payload<String>>) -> Vec<String> {
    match v {
        Some(Payload::Many(vs)) => vs.clone(),
        _ => panic!("not a sequence"),
    }
}

#[test]
fn classifier_reads_last_segment_and_argument() {
    let t = generic("Option", plain("u32"));
    let inner = extract_inner_type(&t, optional_wrapper()).expect("optional");
    assert_eq!(inner.text(), "u32");
    assert!(extract_inner_type(&t, repeated_wrapper()).is_none());
    assert!(extract_inner_type(&plain("MaybeString"), optional_wrapper()).is_none());
    let nested = generic("Vec", generic("Option", plain("u8")));
    let inner = extract_inner_type(&nested, repeated_wrapper()).expect("repeated");
    assert_eq!(inner.text(), "Option<u8>");
}

#[test]
fn classifier_needs_exactly_one_type_argument() {
    let two = generic2("Vec", plain("u8"), plain("A"));
    assert!(extract_inner_type(&two, repeated_wrapper()).is_none());
    let two = generic2("Option", plain("u8"), plain("A"));
    assert!(extract_inner_type(&two, optional_wrapper()).is_none());
    let lifetime = TypeExpr::Generic {
        text: "Vec<'a>".to_string(),
        ident: "Vec".to_string(),
        arg_count: 1,
        last_type: None,
    };
    assert!(extract_inner_type(&lifetime, repeated_wrapper()).is_none());
}

#[test]
fn two_argument_wrapper_is_a_plain_field() {
    let p = plan_field(&field("xs", generic2("Vec", plain("u8"), plain("A")), vec![each("x")]));
    assert_eq!(p.storage_type.text(), "std::option::Option<Vec<u8, A>>");
    assert_eq!(p.default_value, DefaultValue::Absent);
    assert_eq!(p.extraction, Extract::Required);
    match p.setters {
        SetterPlan::Failed(d) => assert_eq!(d.kind, DiagnosticKind::MissingRepeatedWrapper),
        SetterPlan::Methods(_) => panic!("expected a diagnostic"),
    }
    let p = plan_field(&field("o", generic2("Option", plain("u8"), plain("A")), vec![]));
    assert_eq!(p.extraction, Extract::Required);
    assert_eq!(p.storage_type.text(), "std::option::Option<Option<u8, A>>");
}

#[test]
fn string_equality() {
    assert!(str_eq("each", "each"));
    assert!(!str_eq("each", "eac"));
    assert!(!str_eq("abc", "abd"));
    assert!(str_eq("", ""));
}

#[test]
fn extractor_normalises_literals_and_ignores_other_namespaces() {
    let attrs = vec![
        Attribute { path: Some("doc".to_string()), body: AttrBody::Malformed },
        builder_attr(vec![
            item("each", MetaValue::Lit(LitValue::Str("x".to_string()))),
            item("flag", MetaValue::Lit(LitValue::Bool(true))),
            item("off", MetaValue::Lit(LitValue::Bool(false))),
            item("n", MetaValue::Lit(LitValue::Int("42".to_string()))),
            item("c", MetaValue::Lit(LitValue::Other)),
            item("w", MetaValue::Word),
            MetaItem { key: None, value: MetaValue::Word },
        ]),
    ];
    let ex = parse_builder_attrs(&attrs);
    assert_eq!(ex.malformed, None);
    let got: Vec<(String, Option<String>, usize)> = ex
        .directives
        .iter()
        .map(|d| {
            let k = match &d.key {
                DirectiveKey::Each => "each".to_string(),
                DirectiveKey::Unknown(k) => format!("?{}", k),
            };
            (k, d.value.clone(), d.attr)
        })
        .collect();
    assert_eq!(
        got,
        vec![
            ("each".to_string(), Some("x".to_string()), 1),
            ("?flag".to_string(), Some("true".to_string()), 1),
            ("?off".to_string(), Some("false".to_string()), 1),
            ("?n".to_string(), Some("42".to_string()), 1),
            ("?c".to_string(), None, 1),
            ("?w".to_string(), None, 1),
        ]
    );
}

#[test]
fn extractor_reports_malformed_attribute() {
    let attrs = vec![
        each("x"),
        Attribute { path: Some("builder".to_string()), body: AttrBody::Malformed },
    ];
    let ex = parse_builder_attrs(&attrs);
    assert_eq!(ex.malformed, Some(1));
    assert!(ex.directives.is_empty());
}

#[test]
fn plan_of_plain_field() {
    let p = plan_field(&field("executable", plain("String"), vec![]));
    assert_eq!(p.storage_type.text(), "std::option::Option<String>");
    assert_eq!(p.default_value, DefaultValue::Absent);
    assert_eq!(p.extraction, Extract::Required);
}

#[test]
fn plan_of_optional_and_repeated_fields() {
    let p = plan_field(&field("dir", generic("Option", plain("String")), vec![]));
    assert_eq!(p.storage_type.text(), "Option<String>");
    assert_eq!(p.default_value, DefaultValue::Absent);
    assert_eq!(p.extraction, Extract::AsIs);
    let p = plan_field(&field("xs", generic("Vec", plain("u8")), vec![]));
    assert_eq!(p.storage_type.text(), "std::option::Option<Vec<u8>>");
    assert_eq!(p.default_value, DefaultValue::EmptySeq);
    assert_eq!(p.extraction, Extract::Required);
}

#[test]
fn artifacts_follow_declaration_order() {
    let g = generate(&command());
    assert_eq!(g.record_name, "Command");
    assert_eq!(g.builder_name, "CommandBuilder");
    let names: Vec<&str> = g.struct_fields.iter().map(|f| f.name.as_str()).collect();
    assert_eq!(names, vec!["executable", "args", "env", "current_dir"]);
    let defaults: Vec<DefaultValue> = g.defaults.iter().map(|d| d.value).collect();
    assert_eq!(
        defaults,
        vec![DefaultValue::Absent, DefaultValue::EmptySeq, DefaultValue::EmptySeq, DefaultValue::Absent]
    );
    assert_eq!(g.struct_fields[3].ty.text(), "Option<String>");
    assert_eq!(g.build_fields[3].extraction, Extract::AsIs);
    assert_eq!(g.build_fields[0].extraction, Extract::Required);
}

#[test]
fn plain_field_gets_one_replace_setter_and_is_required() {
    let g = generate(&command());
    assert_eq!(methods(&g, 0), vec![("executable".to_string(), SetterKind::Replace, "String".to_string())]);
    let state: BuilderState<String> = BuilderState::start(&g);
    assert!(state.slots[0].is_none());
    match state.build(&g) {
        Err(e) => {
            let BuildError::MissingRequiredField(name) = &e;
            assert_eq!(name, "executable");
            assert_eq!(e.message(), "executable needed");
        },
        Ok(_) => panic!("build succeeded without a required field"),
    }
    let mut state: BuilderState<String> = BuilderState::start(&g);
    set(&mut state, &g, "executable", one("cargo"));
    let rec = state.build(&g).ok().expect("build");
    assert!(matches!(&rec[0], Some(Payload::One(s)) if s == "cargo"));
}

#[test]
fn first_missing_field_wins() {
    let decl = TypeDecl {
        name: "Pair".to_string(),
        fields: Fields::Named(vec![field("a", plain("u8"), vec![]), field("b", plain("u8"), vec![])]),
    };
    let g = generate(&decl);
    let state: BuilderState<String> = BuilderState::start(&g);
    let Err(BuildError::MissingRequiredField(name)) = state.build(&g) else { panic!("expected error") };
    assert_eq!(name, "a");
    let mut state: BuilderState<String> = BuilderState::start(&g);
    set(&mut state, &g, "a", one("1"));
    let Err(BuildError::MissingRequiredField(name)) = state.build(&g) else { panic!("expected error") };
    assert_eq!(name, "b");
}

#[test]
fn optional_field_builds_absent() {
    let g = generate(&command());
    assert_eq!(methods(&g, 3), vec![("current_dir".to_string(), SetterKind::Replace, "String".to_string())]);
    let mut state: BuilderState<String> = BuilderState::start(&g);
    set(&mut state, &g, "executable", one("cargo"));
    let rec = state.build(&g).ok().expect("build");
    assert!(rec[3].is_none());
}

#[test]
fn repeated_field_without_directive_defaults_empty() {
    let decl = TypeDecl {
        name: "R".to_string(),
        fields: Fields::Named(vec![field("xs", generic("Vec", plain("u8")), vec![])]),
    };
    let g = generate(&decl);
    assert_eq!(methods(&g, 0), vec![("xs".to_string(), SetterKind::Replace, "Vec<u8>".to_string())]);
    let state: BuilderState<String> = BuilderState::start(&g);
    let rec = state.build(&g).ok().expect("build");
    assert!(as_many(&rec[0]).is_empty());
}

#[test]
fn each_with_distinct_name_gives_both_setters() {
    let g = generate(&command());
    assert_eq!(
        methods(&g, 1),
        vec![
            ("args".to_string(), SetterKind::Replace, "Vec<String>".to_string()),
            ("arg".to_string(), SetterKind::Append, "String".to_string()),
        ]
    );
    let mut state: BuilderState<String> = BuilderState::start(&g);
    set(&mut state, &g, "executable", one("cargo"));
    set(&mut state, &g, "arg", one("build"));
    set(&mut state, &g, "arg", one("--release"));
    set(&mut state, &g, "arg", one("-q"));
    let rec = state.build(&g).ok().expect("build");
    assert_eq!(as_many(&rec[1]), vec!["build", "--release", "-q"]);

    let mut state: BuilderState<String> = BuilderState::start(&g);
    set(&mut state, &g, "executable", one("cargo"));
    set(&mut state, &g, "args", Payload::Many(vec!["a".to_string(), "b".to_string()]));
    let rec = state.build(&g).ok().expect("build");
    assert_eq!(as_many(&rec[1]), vec!["a", "b"]);
}

#[test]
fn append_starts_a_sequence_when_absent() {
    let g = generate(&command());
    let mut state: BuilderState<String> = BuilderState::start(&g);
    state.slots[1] = None;
    set(&mut state, &g, "arg", one("x"));
    assert_eq!(as_many(&state.slots[1]), vec!["x"]);
}

#[test]
fn each_with_same_name_gives_only_append() {
    let g = generate(&command());
    assert_eq!(methods(&g, 2), vec![("env".to_string(), SetterKind::Append, "String".to_string())]);
    let mut state: BuilderState<String> = BuilderState::start(&g);
    set(&mut state, &g, "executable", one("cargo"));
    set(&mut state, &g, "env", one("A=1"));
    set(&mut state, &g, "env", one("B=2"));
    let rec = state.build(&g).ok().expect("build");
    assert_eq!(as_many(&rec[2]), vec!["A=1", "B=2"]);
}

#[test]
fn each_on_non_repeated_field_is_a_diagnostic() {
    let decl = TypeDecl {
        name: "R".to_string(),
        fields: Fields::Named(vec![
            field("name", plain("String"), vec![]),
            field("tag", plain("String"), vec![each("t")]),
            field("xs", generic("Vec", plain("u8")), vec![each("x")]),
        ]),
    };
    let g = generate(&decl);
    match &g.setters[1] {
        SetterPlan::Failed(d) => {
            assert_eq!(d.kind, DiagnosticKind::MissingRepeatedWrapper);
            assert_eq!(d.attr, 0);
            assert_eq!(d.message(), "`each` needs a field of type `Vec<T>`");
        },
        SetterPlan::Methods(_) => panic!("expected a diagnostic"),
    }
    assert_eq!(methods(&g, 0).len(), 1);
    assert_eq!(methods(&g, 2).len(), 2);
    assert!(find_setter(&g, "tag").is_none());
    assert!(find_setter(&g, "t").is_none());
    assert_eq!(g.struct_fields.len(), 3);
}

#[test]
fn unknown_directive_is_a_diagnostic_at_its_attribute() {
    let doc = Attribute { path: Some("doc".to_string()), body: AttrBody::Items(vec![]) };
    let bad = builder_attr(vec![item("eac", MetaValue::Lit(LitValue::Str("arg".to_string())))]);
    let decl = TypeDecl {
        name: "R".to_string(),
        fields: Fields::Named(vec![
            field("args", generic("Vec", plain("String")), vec![doc, bad]),
            field("name", plain("String"), vec![]),
        ]),
    };
    let g = generate(&decl);
    match &g.setters[0] {
        SetterPlan::Failed(d) => {
            assert_eq!(d.kind, DiagnosticKind::UnrecognizedDirective);
            assert_eq!(d.attr, 1);
            assert_eq!(d.message(), "expected `builder(each = \"...\")`");
        },
        SetterPlan::Methods(_) => panic!("expected a diagnostic"),
    }
    assert_eq!(methods(&g, 1), vec![("name".to_string(), SetterKind::Replace, "String".to_string())]);
}

#[test]
fn each_without_value_is_unrecognized() {
    let attr = builder_attr(vec![item("each", MetaValue::Word)]);
    let p = plan_field(&field("xs", generic("Vec", plain("u8")), vec![attr]));
    match p.setters {
        SetterPlan::Failed(d) => assert_eq!(d.kind, DiagnosticKind::UnrecognizedDirective),
        SetterPlan::Methods(_) => panic!("expected a diagnostic"),
    }
}

#[test]
fn malformed_attribute_is_a_diagnostic() {
    let attr = Attribute { path: Some("builder".to_string()), body: AttrBody::Malformed };
    let p = plan_field(&field("xs", generic("Vec", plain("u8")), vec![attr]));
    match p.setters {
        SetterPlan::Failed(d) => {
            assert_eq!(d.kind, DiagnosticKind::MalformedAttribute);
            assert_eq!(d.attr, 0);
        },
        SetterPlan::Methods(_) => panic!("expected a diagnostic"),
    }
}

#[test]
fn foreign_attributes_do_not_change_the_plan() {
    let doc = Attribute { path: Some("doc".to_string()), body: AttrBody::Malformed };
    let p = plan_field(&field("name", plain("String"), vec![doc]));
    match p.setters {
        SetterPlan::Methods(ms) => {
            assert_eq!(ms.len(), 1);
            assert_eq!(ms[0].method_name, "name");
            assert_eq!(ms[0].kind, SetterKind::Replace);
        },
        SetterPlan::Failed(_) => panic!("unexpected diagnostic"),
    }
}

#[test]
fn unnamed_fields_are_unsupported() {
    let decl = TypeDecl { name: "T".to_string(), fields: Fields::Unsupported };
    assert!(named_fields(&decl).is_none());
    assert!(matches!(builder::synth::derive(&decl), Err(GenError::UnsupportedShape)));
}

#[test]
fn empty_record_generates_empty_artifacts() {
    let decl = TypeDecl { name: "Unit".to_string(), fields: Fields::Named(vec![]) };
    let g = generate(&decl);
    assert_eq!(g.builder_name, "UnitBuilder");
    assert!(g.setters.is_empty());
    let state: BuilderState<String> = BuilderState::start(&g);
    assert!(state.build(&g).ok().expect("build").is_empty());
}

fn summary(g: &Generated) -> String {
    let mut out = format!("{} {}", g.record_name, g.builder_name);
    for i in 0..g.struct_fields.len() {
        out += &format!(
            " [{}:{}:{:?}:{:?}",
            g.struct_fields[i].name,
            g.struct_fields[i].ty.text(),
            g.defaults[i].value,
            g.build_fields[i].extraction
        );
        match &g.setters[i] {
            SetterPlan::Methods(ms) => {
                for m in ms {
                    out += &format!(" {}({}){:?}", m.method_name, m.param_type.text(), m.kind);
                }
            },
            SetterPlan::Failed(d) => out += &format!(" !{:?}@{}", d.kind, d.attr),
        }
        out += "]";
    }
    out
}

#[test]
fn generating_twice_is_identical() {
    let decl = command();
    let a = summary(&generate(&decl));
    let b = summary(&generate(&decl));
    assert_eq!(a, b);
    assert!(a.contains("args(Vec<String>)Replace arg(String)Append"));
}
