use builder_derive::ast::{Attrs, Input};
use builder_derive::expand::{inner_ty, Builder, Empty};
use builder_derive::instance::Stored;
use builder_derive::syntax::{
    Attribute, Data, DataStruct, DeriveInput, Diagnostic, Field, GenericArgument, Generics, Lit,
    LitStr, Meta, MetaList, MetaNameValue, NestedMeta, Path, PathArguments, PathSegment, Span,
    Type,
};

fn at(id: u64) -> Span {
    Span { id }
}

fn plain_path(name: &str) -> Path {
    Path {
        leading_colon: false,
        segments: vec![PathSegment { ident: name.to_string(), arguments: PathArguments::Empty }],
    }
}

fn plain_type(name: &str, span: u64) -> Type {
    Type { tokens: name.to_string(), path: Some(plain_path(name)), span: at(span) }
}

fn wrapped_type(wrapper: &str, inner: &str, span: u64) -> Type {
    Type {
        tokens: format!("{}<{}>", wrapper, inner),
        path: Some(Path {
            leading_colon: false,
            segments: vec![PathSegment {
                ident: wrapper.to_string(),
                arguments: PathArguments::AngleBracketed(vec![GenericArgument::Type(plain_type(
                    inner,
                    span + 1,
                ))]),
            }],
        }),
        span: at(span),
    }
}

fn pair(key: &str, lit: Lit, span: u64) -> NestedMeta {
    NestedMeta::Meta(Meta::NameValue(MetaNameValue { path: plain_path(key), lit, span: at(span) }))
}

fn string(value: &str, span: u64) -> Lit {
    Lit::Str(LitStr { value: value.to_string(), span: at(span) })
}

fn list(name: &str, nested: Vec<NestedMeta>, span: u64) -> Attribute {
    Attribute {
        meta: Ok(Meta::List(MetaList { path: plain_path(name), nested, span: at(span + 1) })),
        span: at(span),
    }
}

fn each(value: &str, span: u64) -> Attribute {
    list("builder", vec![pair("each", string(value, span + 3), span + 2)], span)
}

fn field(name: &str, ty: Type, attrs: Vec<Attribute>, span: u64) -> Field {
    Field { attrs, ident: Some(name.to_string()), ty, span: at(span) }
}

fn record(name: &str, fields: Vec<Field>) -> DeriveInput {
    DeriveInput {
        attrs: vec![],
        ident: name.to_string(),
        generics: Generics { tokens: String::new() },
        data: Data::Struct(DataStruct { fields }),
        span: at(1),
    }
}

fn command() -> DeriveInput {
    record(
        "Command",
        vec![
            field("executable", plain_type("String", 11), vec![], 10),
            field("args", wrapped_type("Vec", "String", 21), vec![each("arg", 25)], 20),
            field("env", wrapped_type("Vec", "String", 31), vec![each("env", 35)], 30),
            field("current_dir", wrapped_type("Option", "String", 41), vec![], 40),
        ],
    )
}

fn plain_command(current_dir: Type) -> DeriveInput {
    record(
        "Command",
        vec![
            field("executable", plain_type("String", 11), vec![], 10),
            field("args", wrapped_type("Vec", "String", 21), vec![], 20),
            field("env", wrapped_type("Vec", "String", 31), vec![], 30),
            field("current_dir", current_dir, vec![], 40),
        ],
    )
}

fn refusal(node: &DeriveInput) -> Diagnostic {
    match builder_derive::expand::derive(node) {
        Ok(_) => panic!("the declaration was accepted"),
        Err(d) => d,
    }
}

fn accepted(node: &DeriveInput) -> Builder<'_> {
    match builder_derive::expand::derive(node) {
        Ok(b) => b,
        Err(d) => panic!("refused: {}", d.message),
    }
}

fn pass(_case: &str, node: DeriveInput) {
    assert!(builder_derive::expand::derive(&node).is_ok());
}

fn compile_fail(_case: &str, node: DeriveInput) {
    assert!(builder_derive::expand::derive(&node).is_err());
}

#[test]
fn trybuild() {
    pass("trybuild/01-parse.rs", plain_command(plain_type("String", 41)));
    compile_fail(
        "trybuild/test_enum_fail.rs",
        DeriveInput {
            attrs: vec![],
            ident: "Command".to_string(),
            generics: Generics { tokens: String::new() },
            data: Data::Enum,
            span: at(1),
        },
    );
    compile_fail(
        "trybuild/test_nonnamed_fail.rs",
        record(
            "Command",
            vec![Field { attrs: vec![], ident: None, ty: plain_type("String", 11), span: at(10) }],
        ),
    );
    pass("trybuild/02-create-builder.rs", plain_command(plain_type("String", 41)));
    pass("trybuild/03-call-setters.rs", plain_command(plain_type("String", 41)));
    pass("trybuild/04-call-build.rs", plain_command(plain_type("String", 41)));
    pass("trybuild/05-method-chaining.rs", plain_command(plain_type("String", 41)));
    pass("trybuild/06-optional-field.rs", plain_command(wrapped_type("Option", "String", 41)));
    pass("trybuild/07-repeated-field.rs", command());
    compile_fail(
        "trybuild/08-unrecognized-attribute.rs",
        record(
            "Command",
            vec![field(
                "args",
                wrapped_type("Vec", "String", 21),
                vec![list("builder", vec![pair("eac", string("arg", 28), 27)], 25)],
                20,
            )],
        ),
    );
    pass("trybuild/09-redefined-prelude-types.rs", command());
}

#[test]
fn command_builder_is_described() {
    let node = command();
    let b = accepted(&node);
    assert_eq!(b.ident, "Command");
    assert_eq!(b.builder_ident, "CommandBuilder");

    let storage: Vec<(&str, &str, bool)> =
        b.builder_fields.iter().map(|f| (f.ident.as_str(), f.ty.tokens.as_str(), f.wrapped)).collect();
    assert_eq!(
        storage,
        vec![
            ("executable", "String", true),
            ("args", "Vec<String>", false),
            ("env", "Vec<String>", false),
            ("current_dir", "Option<String>", false),
        ]
    );

    let setters: Vec<(&str, &str)> =
        b.methods.iter().map(|m| (m.ident.as_str(), m.param.tokens.as_str())).collect();
    assert_eq!(setters, vec![("executable", "String"), ("current_dir", "String")]);

    let appenders: Vec<(&str, &str, &str)> = b
        .each_methods
        .iter()
        .map(|m| (m.name.as_str(), m.field.as_str(), m.item.tokens.as_str()))
        .collect();
    assert_eq!(appenders, vec![("arg", "args", "String"), ("env", "env", "String")]);

    let build: Vec<(&str, Option<&str>)> =
        b.build_fields.iter().map(|f| (f.ident.as_str(), f.missing.as_deref())).collect();
    assert_eq!(
        build,
        vec![
            ("executable", Some("executable is not set")),
            ("args", None),
            ("env", None),
            ("current_dir", None),
        ]
    );

    let empty: Vec<(&str, Empty)> =
        b.builder_fields_empty.iter().map(|f| (f.ident.as_str(), f.value)).collect();
    assert_eq!(
        empty,
        vec![
            ("executable", Empty::Absent),
            ("args", Empty::NoItems),
            ("env", Empty::NoItems),
            ("current_dir", Empty::Absent),
        ]
    );
}

#[test]
fn one_of_each_per_field() {
    let node = command();
    let b = accepted(&node);
    assert_eq!(b.builder_fields.len(), 4);
    assert_eq!(b.methods.len() + b.each_methods.len(), 4);
    assert_eq!(b.build_fields.len(), 4);
    assert_eq!(b.builder_fields_empty.len(), 4);
}

#[test]
fn record_without_fields_gets_an_empty_builder() {
    let node = record("Unit", vec![]);
    let b = accepted(&node);
    assert_eq!(b.builder_ident, "UnitBuilder");
    assert!(b.builder_fields.is_empty());
    assert!(b.methods.is_empty());
    assert!(b.each_methods.is_empty());
    assert!(b.build_fields.is_empty());
    assert!(b.builder_fields_empty.is_empty());
}

#[test]
fn vec_without_each_is_required() {
    let node = plain_command(plain_type("String", 41));
    let b = accepted(&node);
    assert!(b.builder_fields[1].wrapped);
    assert_eq!(b.methods[1].ident, "args");
    assert_eq!(b.methods[1].param.tokens, "Vec<String>");
    assert_eq!(b.build_fields[1].missing.as_deref(), Some("args is not set"));
    assert_eq!(b.builder_fields_empty[1].value, Empty::Absent);
}

#[test]
fn enum_is_refused_at_the_declaration() {
    let mut node = command();
    node.data = Data::Enum;
    node.span = at(77);
    let d = refusal(&node);
    assert_eq!(d.message, "sum types are not yet supported");
    assert_eq!(d.span, at(77));
}

#[test]
fn union_is_refused_at_the_declaration() {
    let mut node = command();
    node.data = Data::Union;
    let d = refusal(&node);
    assert_eq!(d.message, "union types are not yet supported");
    assert_eq!(d.span, at(1));
}

#[test]
fn unnamed_field_is_refused() {
    let node = record(
        "Pair",
        vec![
            field("first", plain_type("u8", 11), vec![], 10),
            Field { attrs: vec![], ident: None, ty: plain_type("u8", 21), span: at(20) },
        ],
    );
    let d = refusal(&node);
    assert_eq!(d.message, "fields must be named");
    assert_eq!(d.span, at(20));
}

#[test]
fn name_is_checked_before_the_attributes() {
    let node = record(
        "Pair",
        vec![Field {
            attrs: vec![list("builder", vec![pair("eac", string("x", 14), 13)], 11)],
            ident: None,
            ty: plain_type("u8", 21),
            span: at(20),
        }],
    );
    let d = refusal(&node);
    assert_eq!(d.message, "fields must be named");
    assert_eq!(d.span, at(20));
    match builder_derive::ast::Field::from_syn(match &node.data {
        Data::Struct(data) => &data.fields[0],
        _ => unreachable!(),
    }) {
        Ok(_) => panic!("accepted"),
        Err(d) => {
            assert_eq!(d.message, "fields must be named");
            assert_eq!(d.span, at(20));
        },
    }
}

#[test]
fn named_field_with_a_faulty_attribute_is_refused_for_the_attribute() {
    let node = record(
        "Pair",
        vec![field(
            "first",
            plain_type("u8", 21),
            vec![list("builder", vec![pair("eac", string("x", 14), 13)], 11)],
            20,
        )],
    );
    let d = refusal(&node);
    assert_eq!(d.message, "unrecognized key");
    assert_eq!(d.span, at(13));
}

#[test]
fn unrecognized_key_is_refused() {
    let attrs = vec![list("builder", vec![pair("eac", string("arg", 14), 13)], 11)];
    match Attrs::get(&attrs) {
        Ok(_) => panic!("accepted"),
        Err(d) => {
            assert_eq!(d.message, "unrecognized key");
            assert_eq!(d.span, at(13));
        },
    }
}

#[test]
fn duplicate_each_is_refused() {
    let attrs = vec![list(
        "builder",
        vec![pair("each", string("arg", 14), 13), pair("each", string("other", 16), 15)],
        11,
    )];
    match Attrs::get(&attrs) {
        Ok(_) => panic!("accepted"),
        Err(d) => {
            assert_eq!(d.message, "duplicate meta key each");
            assert_eq!(d.span, at(15));
        },
    }
}

#[test]
fn duplicate_each_across_attributes_is_refused() {
    let attrs = vec![each("arg", 10), each("other", 20)];
    match Attrs::get(&attrs) {
        Ok(_) => panic!("accepted"),
        Err(d) => {
            assert_eq!(d.message, "duplicate meta key each");
            assert_eq!(d.span, at(22));
        },
    }
}

#[test]
fn each_must_be_a_string_literal() {
    let attrs = vec![list("builder", vec![pair("each", Lit::Other(at(14)), 13)], 11)];
    match Attrs::get(&attrs) {
        Ok(_) => panic!("accepted"),
        Err(d) => {
            assert_eq!(d.message, "expected a string literal");
            assert_eq!(d.span, at(14));
        },
    }
}

#[test]
fn attribute_must_be_named_builder() {
    let attrs = vec![list("derive", vec![], 11)];
    match Attrs::get(&attrs) {
        Ok(_) => panic!("accepted"),
        Err(d) => {
            assert_eq!(d.message, "the attribute path was not `builder`");
            assert_eq!(d.span, at(11));
        },
    }
}

#[test]
fn attribute_must_be_a_list() {
    let attrs = vec![Attribute { meta: Ok(Meta::Path(plain_path("builder"), at(12))), span: at(11) }];
    match Attrs::get(&attrs) {
        Ok(_) => panic!("accepted"),
        Err(d) => {
            assert_eq!(d.message, "The meta attribute must be a MetaList");
            assert_eq!(d.span, at(12));
        },
    }
}

#[test]
fn entry_must_be_a_pair() {
    let attrs = vec![list(
        "builder",
        vec![NestedMeta::Meta(Meta::Path(plain_path("each"), at(13)))],
        11,
    )];
    match Attrs::get(&attrs) {
        Ok(_) => panic!("accepted"),
        Err(d) => {
            assert_eq!(d.message, "The meta attribute must be a MetaNameValue");
            assert_eq!(d.span, at(13));
        },
    }
}

#[test]
fn entry_must_not_be_a_literal() {
    let attrs = vec![list("builder", vec![NestedMeta::Lit(string("each", 13))], 11)];
    match Attrs::get(&attrs) {
        Ok(_) => panic!("accepted"),
        Err(d) => {
            assert_eq!(d.message, "The nested meta must be another meta, not a literal");
            assert_eq!(d.span, at(13));
        },
    }
}

#[test]
fn malformed_attribute_keeps_its_diagnostic() {
    let attrs = vec![Attribute {
        meta: Err(Diagnostic { message: "expected `,`".to_string(), span: at(15) }),
        span: at(11),
    }];
    match Attrs::get(&attrs) {
        Ok(_) => panic!("accepted"),
        Err(d) => {
            assert_eq!(d.message, "expected `,`");
            assert_eq!(d.span, at(15));
        },
    }
}

#[test]
fn no_attributes_set_nothing() {
    let attrs: Vec<Attribute> = vec![];
    match Attrs::get(&attrs) {
        Ok(a) => assert!(a.each.is_none()),
        Err(d) => panic!("refused: {}", d.message),
    }
    let empty_list = vec![list("builder", vec![], 11)];
    match Attrs::get(&empty_list) {
        Ok(a) => assert!(a.each.is_none()),
        Err(d) => panic!("refused: {}", d.message),
    }
}

#[test]
fn each_is_read() {
    let attrs = vec![each("arg", 10)];
    match Attrs::get(&attrs) {
        Ok(a) => {
            let lit = a.each.expect("each was given");
            assert_eq!(lit.value, "arg");
            assert_eq!(lit.span, at(13));
        },
        Err(d) => panic!("refused: {}", d.message),
    }
}

#[test]
fn record_attributes_are_read_too() {
    let mut node = command();
    node.attrs = vec![list("builder", vec![pair("other", string("x", 5), 4)], 2)];
    let d = refusal(&node);
    assert_eq!(d.message, "unrecognized key");
    assert_eq!(d.span, at(4));
}

#[test]
fn record_keeps_the_order_of_the_fields() {
    let node = command();
    match Input::from_syn(&node) {
        Ok(Input::Struct(record)) => {
            assert_eq!(record.ident, "Command");
            let names: Vec<&str> = record.fields.iter().map(|f| f.ident.as_str()).collect();
            assert_eq!(names, vec!["executable", "args", "env", "current_dir"]);
            assert!(record.fields[0].attrs.each.is_none());
            assert_eq!(record.fields[1].attrs.each.map(|l| l.value.as_str()), Some("arg"));
            assert_eq!(record.fields[3].ty.tokens, "Option<String>");
        },
        Err(d) => panic!("refused: {}", d.message),
    }
}

#[test]
fn each_on_a_plain_type_is_refused() {
    let node = record(
        "Command",
        vec![field("executable", plain_type("String", 11), vec![each("arg", 15)], 10)],
    );
    let d = refusal(&node);
    assert_eq!(d.message, "the `each` key may only be used with Vec");
    assert_eq!(d.span, at(11));
}

#[test]
fn each_on_an_option_is_refused() {
    let node = record(
        "Command",
        vec![field("dir", wrapped_type("Option", "String", 11), vec![each("arg", 15)], 10)],
    );
    let d = refusal(&node);
    assert_eq!(d.message, "the `each` key may only be used with Vec");
}

#[test]
fn each_must_name_an_identifier() {
    let node = record(
        "Command",
        vec![field("args", wrapped_type("Vec", "String", 11), vec![each("fn", 15)], 10)],
    );
    let d = refusal(&node);
    assert_eq!(d.message, "expected identifier");
    assert_eq!(d.span, at(18));
}

#[test]
fn each_name_is_the_identifier_not_the_text() {
    let node = record(
        "Command",
        vec![field("args", wrapped_type("Vec", "String", 11), vec![each(" arg ", 15)], 10)],
    );
    let b = accepted(&node);
    assert_eq!(b.each_methods[0].name, "arg");
}

#[test]
fn first_refused_each_is_reported() {
    let node = record(
        "Command",
        vec![
            field("args", wrapped_type("Vec", "String", 11), vec![each("a b", 15)], 10),
            field("env", plain_type("String", 21), vec![each("env", 25)], 20),
        ],
    );
    let d = refusal(&node);
    assert_eq!(d.span, at(18));
}

#[test]
fn inner_type_of_a_wrapper() {
    let ty = wrapped_type("Option", "String", 11);
    assert_eq!(inner_ty(&ty, "Option").map(|t| t.tokens.as_str()), Some("String"));
    assert!(inner_ty(&ty, "Vec").is_none());
    assert!(inner_ty(&plain_type("Option", 11), "Option").is_none());
}

#[test]
fn inner_type_goes_by_the_last_segment() {
    let ty = Type {
        tokens: "std::option::Option<u8>".to_string(),
        path: Some(Path {
            leading_colon: false,
            segments: vec![
                PathSegment { ident: "std".to_string(), arguments: PathArguments::Empty },
                PathSegment { ident: "option".to_string(), arguments: PathArguments::Empty },
                PathSegment {
                    ident: "Option".to_string(),
                    arguments: PathArguments::AngleBracketed(vec![GenericArgument::Type(
                        plain_type("u8", 12),
                    )]),
                },
            ],
        }),
        span: at(11),
    };
    assert_eq!(inner_ty(&ty, "Option").map(|t| t.tokens.as_str()), Some("u8"));
}

#[test]
fn inner_type_needs_exactly_one_type_argument() {
    let two = Type {
        tokens: "Vec<u8, A>".to_string(),
        path: Some(Path {
            leading_colon: false,
            segments: vec![PathSegment {
                ident: "Vec".to_string(),
                arguments: PathArguments::AngleBracketed(vec![
                    GenericArgument::Type(plain_type("u8", 12)),
                    GenericArgument::Type(plain_type("A", 13)),
                ]),
            }],
        }),
        span: at(11),
    };
    assert!(inner_ty(&two, "Vec").is_none());
    let lifetime = Type {
        tokens: "Vec<'a>".to_string(),
        path: Some(Path {
            leading_colon: false,
            segments: vec![PathSegment {
                ident: "Vec".to_string(),
                arguments: PathArguments::AngleBracketed(vec![GenericArgument::Other]),
            }],
        }),
        span: at(11),
    };
    assert!(inner_ty(&lifetime, "Vec").is_none());
    let call = Type {
        tokens: "Vec(u8)".to_string(),
        path: Some(Path {
            leading_colon: false,
            segments: vec![PathSegment {
                ident: "Vec".to_string(),
                arguments: PathArguments::Parenthesized,
            }],
        }),
        span: at(11),
    };
    assert!(inner_ty(&call, "Vec").is_none());
    let reference = Type { tokens: "&Vec<u8>".to_string(), path: None, span: at(11) };
    assert!(inner_ty(&reference, "Vec").is_none());
    let no_segments = Type {
        tokens: String::new(),
        path: Some(Path { leading_colon: false, segments: vec![] }),
        span: at(11),
    };
    assert!(inner_ty(&no_segments, "Vec").is_none());
}

#[test]
fn path_is_a_plain_name() {
    assert!(plain_path("builder").is_ident("builder"));
    assert!(!plain_path("builder").is_ident("each"));
    let rooted = Path { leading_colon: true, ..plain_path("builder") };
    assert!(!rooted.is_ident("builder"));
    let long = Path {
        leading_colon: false,
        segments: vec![
            PathSegment { ident: "a".to_string(), arguments: PathArguments::Empty },
            PathSegment { ident: "builder".to_string(), arguments: PathArguments::Empty },
        ],
    };
    assert!(!long.is_ident("builder"));
    let with_arguments = Path {
        leading_colon: false,
        segments: vec![PathSegment {
            ident: "builder".to_string(),
            arguments: PathArguments::Parenthesized,
        }],
    };
    assert!(!with_arguments.is_ident("builder"));
}

fn take(slots: &mut Vec<Stored<String>>, i: usize) -> Stored<String> {
    std::mem::replace(&mut slots[i], Stored::Absent)
}

fn items(slot: &Stored<String>) -> Option<Vec<&str>> {
    match slot {
        Stored::Items(items) => Some(items.iter().map(|s| s.as_str()).collect()),
        _ => None,
    }
}

fn value(slot: &Stored<String>) -> Option<&str> {
    match slot {
        Stored::Value(v) => Some(v.as_str()),
        _ => None,
    }
}

fn with_two_args<'a>(b: &Builder<'a>) -> Vec<Stored<String>> {
    let mut slots: Vec<Stored<String>> = b.fresh();
    let arg = &b.each_methods[0];
    assert_eq!(arg.name, "arg");
    assert_eq!(arg.field, "args");
    assert_eq!(b.builder_fields[1].ident, "args");
    let held = take(&mut slots, 1);
    slots[1] = arg.append(held, "ls".to_string());
    let held = take(&mut slots, 1);
    slots[1] = arg.append(held, "-l".to_string());
    slots
}

#[test]
fn command_scenario() {
    let node = command();
    let b = accepted(&node);

    let fresh: Vec<Stored<String>> = b.fresh();
    assert_eq!(fresh.len(), 4);
    assert!(matches!(fresh[0], Stored::Absent));
    assert_eq!(items(&fresh[1]), Some(vec![]));
    assert_eq!(items(&fresh[2]), Some(vec![]));
    assert!(matches!(fresh[3], Stored::Absent));

    match b.build(with_two_args(&b)) {
        Ok(_) => panic!("built without an executable"),
        Err(failure) => {
            assert_eq!(failure.message, "executable is not set");
            assert_eq!(failure.slots.len(), 4);
            assert!(matches!(failure.slots[0], Stored::Absent));
            assert_eq!(items(&failure.slots[1]), Some(vec!["ls", "-l"]));
            assert_eq!(items(&failure.slots[2]), Some(vec![]));
            assert!(matches!(failure.slots[3], Stored::Absent));
        },
    }

    let mut slots = with_two_args(&b);
    let executable = &b.methods[0];
    assert_eq!(executable.ident, "executable");
    let held = take(&mut slots, 0);
    slots[0] = executable.store(held, "ls".to_string());
    match b.build(slots) {
        Ok(built) => {
            assert_eq!(value(&built[0]), Some("ls"));
            assert_eq!(items(&built[1]), Some(vec!["ls", "-l"]));
            assert_eq!(items(&built[2]), Some(vec![]));
            assert!(matches!(built[3], Stored::Absent));
        },
        Err(failure) => panic!("not built: {}", failure.message),
    }
}

#[test]
fn optional_field_never_fails() {
    let node = record("Dir", vec![field("dir", wrapped_type("Option", "String", 11), vec![], 10)]);
    let b = accepted(&node);
    assert_eq!(b.methods[0].param.tokens, "String");
    let slots: Vec<Stored<String>> = b.fresh();
    match b.build(slots) {
        Ok(built) => assert!(matches!(built[0], Stored::Absent)),
        Err(failure) => panic!("not built: {}", failure.message),
    }
    let set = b.methods[0].store(Stored::Absent, "/tmp".to_string());
    match b.build_fields[0].finish(set) {
        Ok(slot) => assert_eq!(value(&slot), Some("/tmp")),
        Err(message) => panic!("not built: {}", message),
    }
}

#[test]
fn appended_items_keep_the_order_of_the_calls() {
    let node = record(
        "Args",
        vec![field("args", wrapped_type("Vec", "String", 11), vec![each("arg", 15)], 10)],
    );
    let b = accepted(&node);
    let mut slot: Stored<String> = b.builder_fields_empty[0].start();
    for item in ["c", "a", "b", "a"] {
        slot = b.each_methods[0].append(slot, item.to_string());
    }
    match b.build_fields[0].finish(slot) {
        Ok(slot) => assert_eq!(items(&slot), Some(vec!["c", "a", "b", "a"])),
        Err(message) => panic!("not built: {}", message),
    }
    let untouched: Stored<String> = b.builder_fields_empty[0].start();
    match b.build_fields[0].finish(untouched) {
        Ok(slot) => assert_eq!(items(&slot), Some(vec![])),
        Err(message) => panic!("not built: {}", message),
    }
}

#[test]
fn required_field_takes_the_last_value() {
    let node = record("Exe", vec![field("executable", plain_type("String", 11), vec![], 10)]);
    let b = accepted(&node);
    let fresh: Stored<String> = b.builder_fields_empty[0].start();
    match b.build_fields[0].finish(fresh) {
        Ok(_) => panic!("built without a value"),
        Err(message) => assert_eq!(message, "executable is not set"),
    }
    let slot: Stored<String> = b.builder_fields_empty[0].start();
    let slot = b.methods[0].store(slot, "first".to_string());
    let slot = b.methods[0].store(slot, "second".to_string());
    match b.build_fields[0].finish(slot) {
        Ok(slot) => assert_eq!(value(&slot), Some("second")),
        Err(message) => panic!("not built: {}", message),
    }
}

#[test]
fn build_reports_the_first_missing_field() {
    let node = record(
        "Pair",
        vec![
            field("first", plain_type("u8", 11), vec![], 10),
            field("second", plain_type("u8", 21), vec![], 20),
        ],
    );
    let b = accepted(&node);
    let slots: Vec<Stored<String>> = b.fresh();
    match b.build(slots) {
        Ok(_) => panic!("built without values"),
        Err(failure) => assert_eq!(failure.message, "first is not set"),
    }
    let mut slots: Vec<Stored<String>> = b.fresh();
    slots[0] = b.methods[0].store(Stored::Absent, "1".to_string());
    match b.build(slots) {
        Ok(_) => panic!("built without the second value"),
        Err(failure) => {
            assert_eq!(failure.message, "second is not set");
            assert_eq!(value(&failure.slots[0]), Some("1"));
            assert!(matches!(failure.slots[1], Stored::Absent));
        },
    }
}

#[test]
fn appending_to_a_field_without_items_changes_nothing() {
    let node = command();
    let b = accepted(&node);
    let after = b.each_methods[0].append(Stored::Absent, "x".to_string());
    assert!(matches!(after, Stored::Absent));
    let after = b.each_methods[0].append(Stored::Value("v".to_string()), "x".to_string());
    assert_eq!(value(&after), Some("v"));
}

#[test]
fn each_with_too_many_opening_brackets_is_refused_unparsed() {
    let deep = "(".repeat(65);
    let node = record(
        "Command",
        vec![field("args", wrapped_type("Vec", "String", 11), vec![each(&deep, 15)], 10)],
    );
    let d = refusal(&node);
    assert_eq!(d.message, "expected identifier");
    assert_eq!(d.span, at(18));
    assert!(builder_derive::ident::too_many_openings(&deep));
    assert!(!builder_derive::ident::too_many_openings(&"[".repeat(64)));
    assert!(!builder_derive::ident::too_many_openings("arg"));
}

#[test]
fn vec_is_checked_before_the_each_value() {
    let deep = "{".repeat(65);
    let node = record(
        "Command",
        vec![field("args", plain_type("String", 11), vec![each(&deep, 15)], 10)],
    );
    let d = refusal(&node);
    assert_eq!(d.message, "the `each` key may only be used with Vec");
    assert_eq!(d.span, at(11));
}

#[test]
fn each_with_nested_brackets_is_refused_at_the_literal() {
    let node = record(
        "Command",
        vec![field("args", wrapped_type("Vec", "String", 11), vec![each("((a))", 15)], 10)],
    );
    let d = refusal(&node);
    assert_eq!(d.span, at(18));
}

#[test]
fn appending_method_keeps_the_place_of_its_literal() {
    let node = command();
    let b = accepted(&node);
    assert_eq!(b.each_methods[0].span, at(28));
    assert_eq!(b.each_methods[1].span, at(38));
}

#[test]
fn ident_from_names_an_identifier() {
    assert_eq!(builder_derive::ident::ident_from("arg"), Ok("arg".to_string()));
    assert!(builder_derive::ident::ident_from("1x").is_err());
    assert!(builder_derive::ident::ident_from("").is_err());
}
