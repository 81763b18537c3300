use azalia_config::derive::container::Container;
use azalia_config::derive::emit::decimal_text;
use azalia_config::derive::error::{Error, ErrorKind};
use azalia_config::derive::expand::{
    assignment_for, expand_struct, gen_field_assignment, Assignment, Expansion,
};
use azalia_config::derive::field::Field;
use azalia_config::derive::input::{
    same_text, AttrBody, Attribute, Data, DeriveInput, FieldInput, Member, MetaArg, MetaItem,
};
use azalia_config::derive::path::Path;
use azalia_config::merge::Merge;

fn item(key: &str, arg: MetaArg) -> MetaItem {
    MetaItem { key: key.to_string(), arg }
}

fn skip() -> MetaItem {
    item("skip", MetaArg::Absent)
}

fn strategy(path: &str) -> MetaItem {
    item("strategy", MetaArg::Tokens(path.to_string()))
}

fn list(name: &str, items: Vec<MetaItem>) -> Attribute {
    Attribute { name: name.to_string(), body: AttrBody::List(items) }
}

fn merge_attr(items: Vec<MetaItem>) -> Attribute {
    list("merge", items)
}

fn named(name: &str, attrs: Vec<Attribute>) -> FieldInput {
    FieldInput { ident: Some(name.to_string()), attrs }
}

fn unnamed(attrs: Vec<Attribute>) -> FieldInput {
    FieldInput { ident: None, attrs }
}

fn input(ident: &str, attrs: Vec<Attribute>, data: Data) -> DeriveInput {
    DeriveInput {
        ident: ident.to_string(),
        impl_generics: String::new(),
        ty_generics: String::new(),
        where_clause: String::new(),
        attrs,
        data,
    }
}

fn at_field(kind: ErrorKind, field: usize) -> Error {
    Error { kind, field: Some(field) }
}

fn default_call(member: Member) -> Assignment {
    Assignment { member, strategy: None }
}

#[test]
fn merge() {
    // A union and an enum are turned down.
    let union = input("Both", vec![], Data::Union);
    assert_eq!(
        azalia_config::derive::expand::merge(&union),
        Err(Error { kind: ErrorKind::Union, field: None })
    );
    let enumeration = input("Either", vec![], Data::Enum);
    assert_eq!(
        azalia_config::derive::expand::merge(&enumeration),
        Err(Error { kind: ErrorKind::Enumeration, field: None })
    );

    // Several strategies in one struct.
    let several = input(
        "Several",
        vec![],
        Data::Struct(vec![
            named("a", vec![merge_attr(vec![strategy("strategy::string::append")])]),
            named("b", vec![merge_attr(vec![strategy("strategy::vec::overwrite_empty")])]),
        ]),
    );
    let expansion = azalia_config::derive::expand::merge(&several).unwrap();
    assert_eq!(
        expansion.assignments,
        vec![
            Assignment {
                member: Member::Named("a".into()),
                strategy: Some(Path("strategy::string::append".into())),
            },
            Assignment {
                member: Member::Named("b".into()),
                strategy: Some(Path("strategy::vec::overwrite_empty".into())),
            },
        ]
    );

    // A strategy of the user's own, named in a string literal.
    let custom = input(
        "Custom",
        vec![],
        Data::Struct(vec![named(
            "c",
            vec![merge_attr(vec![item("strategy", MetaArg::Literal("i32::merge".into()))])],
        )]),
    );
    let expansion = azalia_config::derive::expand::merge(&custom).unwrap();
    assert_eq!(
        expansion.assignments,
        vec![Assignment { member: Member::Named("c".into()), strategy: Some(Path("i32::merge".into())) }]
    );

    // A skipped field.
    let skipped = input(
        "Skipped",
        vec![],
        Data::Struct(vec![named("a", vec![merge_attr(vec![skip()])]), named("b", vec![])]),
    );
    let expansion = azalia_config::derive::expand::merge(&skipped).unwrap();
    assert_eq!(expansion.assignments, vec![default_call(Member::Named("b".into()))]);

    // Generics are carried into the `impl` header.
    let mut generic = input("Wrapper", vec![], Data::Struct(vec![named("inner", vec![])]));
    generic.impl_generics = "<T: Merge>".into();
    generic.ty_generics = "<T>".into();
    let expansion = azalia_config::derive::expand::merge(&generic).unwrap();
    assert!(expansion
        .render()
        .contains("impl<T: Merge> ::azalia::config::merge::Merge for Wrapper<T>  {"));

    // A tuple struct: the fields are reached by position.
    let tuple = input("Pair", vec![], Data::Struct(vec![unnamed(vec![]), unnamed(vec![])]));
    let expansion = azalia_config::derive::expand::merge(&tuple).unwrap();
    assert_eq!(
        expansion.assignments,
        vec![default_call(Member::Unnamed(0)), default_call(Member::Unnamed(1))]
    );

    // A plain struct, and one without fields.
    let plain = input("Plain", vec![], Data::Struct(vec![named("a", vec![]), named("b", vec![])]));
    let expansion = azalia_config::derive::expand::merge(&plain).unwrap();
    assert!(!expansion.unit);
    assert_eq!(expansion.assignments.len(), 2);
    let empty = input("Empty", vec![], Data::Struct(vec![]));
    let expansion = azalia_config::derive::expand::merge(&empty).unwrap();
    assert!(expansion.unit);
    assert!(expansion.assignments.is_empty());
}

#[test]
fn skip_twice_is_refused() {
    let fields = vec![named("a", vec![merge_attr(vec![skip()]), merge_attr(vec![skip()])])];
    let given = input("A", vec![], Data::Struct(fields.clone()));
    assert_eq!(expand_struct(&given, &fields), Err(at_field(ErrorKind::DuplicateSkip, 0)));

    let fields = vec![named("a", vec![merge_attr(vec![skip(), skip()])])];
    assert_eq!(expand_struct(&given, &fields), Err(at_field(ErrorKind::DuplicateSkip, 0)));
}

#[test]
fn a_strategy_that_is_no_path_is_refused() {
    let fields = vec![named(
        "b",
        vec![merge_attr(vec![item("strategy", MetaArg::Literal("x + 1".into()))])],
    )];
    let given = input("B", vec![], Data::Struct(fields.clone()));
    assert_eq!(expand_struct(&given, &fields), Err(at_field(ErrorKind::InvalidPath, 0)));

    let fields =
        vec![named("c", vec![merge_attr(vec![item("strategy", MetaArg::Tokens("1234".into()))])])];
    let given = input("C", vec![], Data::Struct(fields.clone()));
    assert_eq!(expand_struct(&given, &fields), Err(at_field(ErrorKind::ExpectedPath, 0)));
}

#[test]
fn strategy_twice_is_refused() {
    let path = "azalia_config::merge::strategy::f32::with_negatives";
    let fields = vec![named(
        "d",
        vec![merge_attr(vec![strategy(path)]), merge_attr(vec![strategy(path)])],
    )];
    let given = input("D", vec![], Data::Struct(fields.clone()));
    assert_eq!(expand_struct(&given, &fields), Err(at_field(ErrorKind::DuplicateStrategy, 0)));
}

#[test]
fn skip_with_an_argument_is_refused() {
    let fields =
        vec![named("e", vec![merge_attr(vec![item("skip", MetaArg::Literal("data".into()))])])];
    let given = input("E", vec![], Data::Struct(fields.clone()));
    assert_eq!(expand_struct(&given, &fields), Err(at_field(ErrorKind::UnexpectedArgument, 0)));

    let fields =
        vec![named("e", vec![merge_attr(vec![item("skip", MetaArg::Other("now".into()))])])];
    assert_eq!(expand_struct(&given, &fields), Err(at_field(ErrorKind::UnexpectedArgument, 0)));
}

#[test]
fn an_unknown_key_is_refused() {
    let fields = vec![named("f", vec![merge_attr(vec![item("unknown_field", MetaArg::Absent)])])];
    let given = input("F", vec![], Data::Struct(fields.clone()));
    assert_eq!(expand_struct(&given, &fields), Err(at_field(ErrorKind::UnknownField, 0)));
}

#[test]
fn strategy_without_a_value_is_refused() {
    let fields = vec![named("g", vec![merge_attr(vec![item("strategy", MetaArg::Absent)])])];
    let given = input("G", vec![], Data::Struct(fields.clone()));
    assert_eq!(expand_struct(&given, &fields), Err(at_field(ErrorKind::ExpectedValue, 0)));

    let fields =
        vec![named("g", vec![merge_attr(vec![item("strategy", MetaArg::Other("a::b".into()))])])];
    assert_eq!(expand_struct(&given, &fields), Err(at_field(ErrorKind::ExpectedValue, 0)));
}

#[test]
fn a_merge_attribute_without_a_list_is_refused() {
    let bare = Attribute { name: "merge".into(), body: AttrBody::Bare };
    let fields = vec![named("h", vec![bare])];
    let given = input("H", vec![], Data::Struct(fields.clone()));
    assert_eq!(expand_struct(&given, &fields), Err(at_field(ErrorKind::ExpectedList, 0)));

    let value = Attribute { name: "merge".into(), body: AttrBody::Value };
    let given = input("H", vec![value], Data::Struct(vec![]));
    assert_eq!(
        expand_struct(&given, &vec![]),
        Err(Error { kind: ErrorKind::ExpectedList, field: None })
    );
}

#[test]
fn the_first_fault_is_reported() {
    let fields = vec![
        named("ok", vec![merge_attr(vec![skip()])]),
        named("first", vec![merge_attr(vec![item("nope", MetaArg::Absent)])]),
        named("second", vec![merge_attr(vec![skip(), skip()])]),
    ];
    let given = input("Faulty", vec![], Data::Struct(fields.clone()));
    assert_eq!(expand_struct(&given, &fields), Err(at_field(ErrorKind::UnknownField, 1)));

    // The attributes of the struct are read before those of its fields.
    let given = input(
        "Faulty",
        vec![merge_attr(vec![item("krate", MetaArg::Tokens("a".into()))])],
        Data::Struct(fields.clone()),
    );
    assert_eq!(
        expand_struct(&given, &fields),
        Err(Error { kind: ErrorKind::OnlyCrate, field: None })
    );

    // Within one list, the duplicate is seen before the stray argument.
    let asked = Field::parse(&vec![merge_attr(vec![
        skip(),
        item("skip", MetaArg::Literal("data".into())),
    ])]);
    assert_eq!(asked, Err(ErrorKind::DuplicateSkip));
    // A second strategy is refused before its value is looked at.
    let asked = Field::parse(&vec![merge_attr(vec![
        strategy("a::b"),
        item("strategy", MetaArg::Tokens("1 + 1".into())),
    ])]);
    assert_eq!(asked, Err(ErrorKind::DuplicateStrategy));
}

#[test]
fn other_attributes_and_empty_lists_ask_for_nothing() {
    let attrs = vec![
        list("serde", vec![item("skip", MetaArg::Absent)]),
        Attribute { name: "doc".into(), body: AttrBody::Value },
        merge_attr(vec![]),
        Attribute { name: "inline".into(), body: AttrBody::Bare },
    ];
    assert_eq!(Field::parse(&attrs), Ok(Field { skipped: false, strategy: None }));
    assert_eq!(Field::parse(&vec![]), Ok(Field { skipped: false, strategy: None }));
}

#[test]
fn skip_and_strategy_together_skip_the_field() {
    let attrs = vec![merge_attr(vec![strategy("a::b"), skip()])];
    assert_eq!(
        Field::parse(&attrs),
        Ok(Field { skipped: true, strategy: Some(Path("a::b".into())) })
    );
    let field = named("x", attrs);
    assert_eq!(gen_field_assignment(3, &field), Ok(None));
}

#[test]
fn field_entries_are_applied_one_by_one() {
    let plain = Field { skipped: false, strategy: None };
    let no_path = Err(ErrorKind::ExpectedValue);
    assert_eq!(
        plain.clone().apply(&skip(), no_path.clone()),
        Ok(Field { skipped: true, strategy: None })
    );
    assert_eq!(
        plain.clone().apply(&strategy("a"), Ok(Path("a".into()))),
        Ok(Field { skipped: false, strategy: Some(Path("a".into())) })
    );
    assert_eq!(
        plain.clone().apply(&strategy("1"), Err(ErrorKind::ExpectedPath)),
        Err(ErrorKind::ExpectedPath)
    );
    assert_eq!(
        plain.apply(&item("Skip", MetaArg::Absent), no_path),
        Err(ErrorKind::UnknownField)
    );
}

#[test]
fn paths_are_checked() {
    assert_eq!(Path::parse(&MetaArg::Tokens("std::mem::replace".into())), Ok(Path("std::mem::replace".into())));
    assert_eq!(Path::parse(&MetaArg::Tokens("replace".into())), Ok(Path("replace".into())));
    assert_eq!(Path::parse(&MetaArg::Tokens("::a :: b".into())), Ok(Path("::a :: b".into())));
    assert_eq!(Path::parse(&MetaArg::Literal("i32::merge".into())), Ok(Path("i32::merge".into())));
    assert_eq!(Path::parse(&MetaArg::Literal("<T as Merge>::merge".into())), Ok(Path("<T as Merge>::merge".into())));
    assert_eq!(Path::parse(&MetaArg::Tokens("1234".into())), Err(ErrorKind::ExpectedPath));
    assert_eq!(Path::parse(&MetaArg::Tokens("a + b".into())), Err(ErrorKind::ExpectedPath));
    assert_eq!(Path::parse(&MetaArg::Tokens("".into())), Err(ErrorKind::ExpectedPath));
    assert_eq!(Path::parse(&MetaArg::Literal("x + 1".into())), Err(ErrorKind::InvalidPath));
    assert_eq!(Path::parse(&MetaArg::Literal("a::".into())), Err(ErrorKind::InvalidPath));
    assert_eq!(Path::parse(&MetaArg::Literal("\"".into())), Err(ErrorKind::InvalidPath));
    assert_eq!(Path::parse(&MetaArg::Absent), Err(ErrorKind::ExpectedValue));
    assert_eq!(Path::parse(&MetaArg::Other("a::b".into())), Err(ErrorKind::ExpectedValue));
}

#[test]
fn a_checked_path_is_taken_or_turned_down() {
    let tokens = MetaArg::Tokens("a::b".into());
    let literal = MetaArg::Literal("a::b".into());
    assert_eq!(Path::checked(&tokens, true), Ok(Path("a::b".into())));
    assert_eq!(Path::checked(&tokens, false), Err(ErrorKind::ExpectedPath));
    assert_eq!(Path::checked(&literal, true), Ok(Path("a::b".into())));
    assert_eq!(Path::checked(&literal, false), Err(ErrorKind::InvalidPath));
    assert_eq!(Path::checked(&MetaArg::Absent, true), Err(ErrorKind::ExpectedValue));
    assert_eq!(Path::checked(&MetaArg::Other("x".into()), true), Err(ErrorKind::ExpectedValue));
}

#[test]
fn the_container_names_the_crate() {
    assert_eq!(Container::default().krate, Path("::azalia::config".into()));
    assert_eq!(Container::parse(&vec![]), Ok(Container::default()));
    assert_eq!(
        Container::parse(&vec![list("derive", vec![item("Debug", MetaArg::Absent)])]),
        Ok(Container::default())
    );
    let own = merge_attr(vec![item("crate", MetaArg::Tokens("::azalia_config".into()))]);
    assert_eq!(
        Container::parse(&vec![own.clone()]),
        Ok(Container { krate: Path("::azalia_config".into()) })
    );
    // A later `crate` replaces an earlier one.
    let other = merge_attr(vec![item("crate", MetaArg::Literal("some::other".into()))]);
    assert_eq!(
        Container::parse(&vec![own.clone(), other]),
        Ok(Container { krate: Path("some::other".into()) })
    );
    assert_eq!(
        Container::parse(&vec![merge_attr(vec![skip()])]),
        Err(ErrorKind::OnlyCrate)
    );
    assert_eq!(
        Container::parse(&vec![merge_attr(vec![item("crate", MetaArg::Absent)])]),
        Err(ErrorKind::ExpectedValue)
    );
    assert_eq!(
        Container::parse(&vec![merge_attr(vec![item("crate", MetaArg::Tokens("1".into()))])]),
        Err(ErrorKind::ExpectedPath)
    );
    assert_eq!(
        Container::default().apply(&item("crate", MetaArg::Absent), Ok(Path("x".into()))),
        Ok(Container { krate: Path("x".into()) })
    );
}

#[test]
fn members_are_names_or_positions() {
    assert_eq!(Member::from_field(4, &Some("host".to_string())), Member::Named("host".into()));
    assert_eq!(Member::from_field(4, &None), Member::Unnamed(4));
    assert_eq!(Member::Named("host".into()).render(), "host");
    assert_eq!(Member::Unnamed(0).render(), "0");
    assert_eq!(Member::Unnamed(12).render(), "12");
}

#[test]
fn numbers_are_written_in_decimal() {
    assert_eq!(decimal_text(0), "0");
    assert_eq!(decimal_text(7), "7");
    assert_eq!(decimal_text(10), "10");
    assert_eq!(decimal_text(109), "109");
    assert_eq!(decimal_text(65535), "65535");
    assert_eq!(decimal_text(usize::MAX), usize::MAX.to_string());
}

#[test]
fn texts_are_compared_by_their_characters() {
    assert!(same_text("merge", "merge"));
    assert!(!same_text("merge", "Merge"));
    assert!(!same_text("merge", "merge "));
    assert!(same_text("", ""));
}

#[test]
fn statements_are_written_for_fields_that_are_not_skipped() {
    let field = named("name", vec![]);
    assert_eq!(
        assignment_for(0, &field, Field { skipped: false, strategy: None }),
        Some(default_call(Member::Named("name".into())))
    );
    assert_eq!(assignment_for(0, &field, Field { skipped: true, strategy: None }), None);
    assert_eq!(
        assignment_for(2, &unnamed(vec![]), Field { skipped: false, strategy: Some(Path("f".into())) }),
        Some(Assignment { member: Member::Unnamed(2), strategy: Some(Path("f".into())) })
    );
    assert_eq!(
        default_call(Member::Named("name".into())).render("::azalia::config"),
        "        ::azalia::config::merge::Merge::merge(&mut self.name, other.name);\n"
    );
    assert_eq!(
        Assignment { member: Member::Unnamed(10), strategy: Some(Path("my::merge".into())) }
            .render("::azalia::config"),
        "        my::merge(&mut self.10, other.10);\n"
    );
}

#[test]
fn the_impl_block_is_written_out() {
    let fields = vec![
        named("a", vec![merge_attr(vec![skip()])]),
        named("b", vec![]),
        named("c", vec![merge_attr(vec![strategy("strategy::string::append")])]),
    ];
    let given = input(
        "Config",
        vec![merge_attr(vec![item("crate", MetaArg::Tokens("::azalia_config".into()))])],
        Data::Struct(fields.clone()),
    );
    let expansion = expand_struct(&given, &fields).unwrap();
    assert_eq!(
        expansion,
        Expansion {
            krate: Path("::azalia_config".into()),
            ident: "Config".into(),
            impl_generics: String::new(),
            ty_generics: String::new(),
            where_clause: String::new(),
            unit: false,
            assignments: vec![
                default_call(Member::Named("b".into())),
                Assignment {
                    member: Member::Named("c".into()),
                    strategy: Some(Path("strategy::string::append".into())),
                },
            ],
        }
    );
    assert_eq!(
        expansion.render(),
        "#[automatically_derived]\n\
         impl ::azalia_config::merge::Merge for Config  {\n    \
             fn merge(&mut self, other: Self) {\n        \
                 ::azalia_config::merge::Merge::merge(&mut self.b, other.b);\n        \
                 strategy::string::append(&mut self.c, other.c);\n    \
             }\n\
         }\n"
    );
}

#[test]
fn a_struct_without_fields_gets_a_merge_that_does_nothing() {
    let mut given = input("Nothing", vec![], Data::Struct(vec![]));
    given.impl_generics = "<'a, T>".into();
    given.ty_generics = "<'a, T>".into();
    given.where_clause = "where T: 'a".into();
    let expansion = expand_struct(&given, &vec![]).unwrap();
    assert_eq!(
        expansion.render(),
        "#[automatically_derived]\n\
         impl<'a, T> ::azalia::config::merge::Merge for Nothing<'a, T> where T: 'a {\n    \
             fn merge(&mut self, other: Self) {\n        \
                 let _ = other;\n    \
             }\n\
         }\n"
    );

    // All fields skipped: the body is empty, and `other` is not named.
    let fields = vec![named("a", vec![merge_attr(vec![skip()])])];
    let given = input("Kept", vec![], Data::Struct(fields.clone()));
    let expansion = expand_struct(&given, &fields).unwrap();
    assert_eq!(
        expansion.render(),
        "#[automatically_derived]\n\
         impl ::azalia::config::merge::Merge for Kept  {\n    \
             fn merge(&mut self, other: Self) {\n    \
             }\n\
         }\n"
    );
}

#[test]
fn errors_have_messages() {
    assert_eq!(ErrorKind::Enumeration.message(), "merge trait for enumerations are not supported");
    assert_eq!(ErrorKind::Union.message(), "merge trait for unions will never be supported");
    assert_eq!(ErrorKind::OnlyCrate.message(), "only `crate = <path>` is supported");
    assert_eq!(ErrorKind::DuplicateSkip.message(), "field already has `#[merge(skip)]`");
    assert_eq!(ErrorKind::DuplicateStrategy.message(), "field already has `#[merge(strategy)]`");
    assert_eq!(
        ErrorKind::UnknownField.message(),
        "unknown field, expected either `skip`, `strategy`"
    );
    assert_eq!(
        ErrorKind::ExpectedPath.message(),
        "expected either a qualified path (i.e, `std::mem::replace`) or a literal string that can be a qualified path"
    );
    assert_eq!(ErrorKind::ExpectedValue.message(), "expected `=`");
    assert_eq!(ErrorKind::UnexpectedArgument.message(), "expected `,`");
    assert_eq!(
        ErrorKind::ExpectedList.message(),
        "expected attribute arguments in parentheses: #[merge(...)]"
    );
    assert_eq!(
        ErrorKind::InvalidPath.message(),
        "expected the literal string to hold a qualified path (i.e, `std::mem::replace`)"
    );
    assert_eq!(at_field(ErrorKind::DuplicateSkip, 2).message(), ErrorKind::DuplicateSkip.message());
}

#[derive(Debug, PartialEq)]
struct Skipping {
    a: u32,
    b: u32,
}

// What the derivation writes for `Skipping`, with `a` marked `skip`.
impl Merge for Skipping {
    fn merge(&mut self, other: Self) {
        azalia_config::merge::Merge::merge(&mut self.b, other.b);
    }
}

#[test]
fn a_skipped_field_keeps_its_value() {
    let fields = vec![named("a", vec![merge_attr(vec![skip()])]), named("b", vec![])];
    let given = input(
        "Skipping",
        vec![merge_attr(vec![item("crate", MetaArg::Tokens("azalia_config".into()))])],
        Data::Struct(fields.clone()),
    );
    let expansion = expand_struct(&given, &fields).unwrap();
    assert_eq!(
        expansion.render(),
        "#[automatically_derived]\n\
         impl azalia_config::merge::Merge for Skipping  {\n    \
             fn merge(&mut self, other: Self) {\n        \
                 azalia_config::merge::Merge::merge(&mut self.b, other.b);\n    \
             }\n\
         }\n"
    );

    let mut left = Skipping { a: 1, b: 0 };
    left.merge(Skipping { a: 99, b: 8 });
    assert_eq!(left, Skipping { a: 1, b: 8 });

    let mut left = Skipping { a: 0, b: 5 };
    left.merge(Skipping { a: 7, b: 0 });
    assert_eq!(left, Skipping { a: 0, b: 5 });
}

#[test]
fn what_is_written_reads_as_an_impl_block() {
    let fields = vec![
        unnamed(vec![]),
        unnamed(vec![merge_attr(vec![skip()])]),
        unnamed(vec![merge_attr(vec![item(
            "strategy",
            MetaArg::Literal("azalia_config::merge::strategy::vec::append".into()),
        )])]),
    ];
    let mut given = input("Triple", vec![], Data::Struct(fields.clone()));
    given.impl_generics = "< T : Clone >".into();
    given.ty_generics = "< T >".into();
    given.where_clause = "where T : Default".into();
    let written = expand_struct(&given, &fields).unwrap().render();

    let block: syn::ItemImpl = syn::parse_str(&written).unwrap();
    assert_eq!(block.attrs.len(), 1);
    assert_eq!(block.generics.params.len(), 1);
    assert!(block.generics.where_clause.is_some());
    assert_eq!(block.items.len(), 1);
    let syn::ImplItem::Fn(method) = &block.items[0] else { panic!("the one item is `merge`") };
    assert_eq!(method.sig.ident.to_string(), "merge");
    assert_eq!(method.sig.inputs.len(), 2);
    assert_eq!(method.block.stmts.len(), 2);

    let unit = input("Unit", vec![], Data::Struct(vec![]));
    let written = expand_struct(&unit, &vec![]).unwrap().render();
    let block: syn::ItemImpl = syn::parse_str(&written).unwrap();
    let syn::ImplItem::Fn(method) = &block.items[0] else { panic!("the one item is `merge`") };
    assert_eq!(method.block.stmts.len(), 1);
}

#[test]
fn struct_fields_keeps_the_order_of_the_fields() {
    let fields = vec![
        named("z", vec![]),
        named("skipped", vec![merge_attr(vec![skip()])]),
        named("a", vec![merge_attr(vec![strategy("pick")])]),
        named("m", vec![]),
    ];
    assert_eq!(
        azalia_config::derive::expand::struct_fields(&fields),
        Ok(vec![
            default_call(Member::Named("z".into())),
            Assignment { member: Member::Named("a".into()), strategy: Some(Path("pick".into())) },
            default_call(Member::Named("m".into())),
        ])
    );
    assert_eq!(azalia_config::derive::expand::struct_fields(&vec![]), Ok(vec![]));
}

#[test]
fn a_list_that_stops_short_is_refused() {
    let broken = |items: Vec<MetaItem>| Attribute { name: "merge".into(), body: AttrBody::Broken(items) };
    assert_eq!(Field::parse(&vec![broken(vec![])]), Err(ErrorKind::Malformed));
    assert_eq!(Field::parse(&vec![broken(vec![skip()])]), Err(ErrorKind::Malformed));
    // An entry before that place that is at fault comes first.
    assert_eq!(
        Field::parse(&vec![broken(vec![item("nope", MetaArg::Absent)])]),
        Err(ErrorKind::UnknownField)
    );
    assert_eq!(Field::parse(&vec![merge_attr(vec![skip()]), broken(vec![skip()])]), Err(ErrorKind::DuplicateSkip));
    // Someone else's list may stop where it likes.
    let other = Attribute { name: "serde".into(), body: AttrBody::Broken(vec![skip()]) };
    assert_eq!(Field::parse(&vec![other.clone()]), Ok(Field { skipped: false, strategy: None }));
    assert_eq!(Container::parse(&vec![other]), Ok(Container::default()));
    assert_eq!(Container::parse(&vec![broken(vec![])]), Err(ErrorKind::Malformed));
    assert_eq!(
        Container::parse(&vec![broken(vec![skip()])]),
        Err(ErrorKind::OnlyCrate)
    );

    let fields = vec![
        named("first", vec![merge_attr(vec![item("nope", MetaArg::Absent)])]),
        named("second", vec![broken(vec![])]),
    ];
    let given = input("Faulty", vec![], Data::Struct(fields.clone()));
    assert_eq!(expand_struct(&given, &fields), Err(at_field(ErrorKind::UnknownField, 0)));
    let fields = vec![named("first", vec![]), named("second", vec![broken(vec![])])];
    assert_eq!(expand_struct(&given, &fields), Err(at_field(ErrorKind::Malformed, 1)));
    assert_eq!(
        ErrorKind::Malformed.message(),
        "unexpected token in nested attribute, expected ident"
    );
}

#[test]
fn the_text_that_has_to_be_a_path_is_handed_over() {
    assert_eq!(Path::handed_over(&MetaArg::Tokens("a::b".into())), Some(&"a::b".to_string()));
    assert_eq!(Path::handed_over(&MetaArg::Literal("a b".into())), Some(&"a b".to_string()));
    assert_eq!(Path::handed_over(&MetaArg::Absent), None);
    assert_eq!(Path::handed_over(&MetaArg::Other("a::b".into())), None);
}

#[test]
fn what_stands_behind_skip_is_refused_whatever_it_is() {
    for stray in ["now", "(now)", "\"x\"", "1 + 1"] {
        let attrs = vec![merge_attr(vec![item("skip", MetaArg::Other(stray.into()))])];
        assert_eq!(Field::parse(&attrs), Err(ErrorKind::UnexpectedArgument));
        let attrs = vec![merge_attr(vec![item("strategy", MetaArg::Other(stray.into()))])];
        assert_eq!(Field::parse(&attrs), Err(ErrorKind::ExpectedValue));
    }
}
