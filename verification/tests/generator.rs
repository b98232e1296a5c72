use filecaster::{
    add_trait_bounds, build_derive_clause, build_where_clause, extract_named_fields,
    generate_impl, impl_from_file, is_from_file_struct, parse_from_file_default_attr,
    process_fields, Attribute, Decl, DeclBody, Delim, Directive, Field, FromFileError,
    GenericParam, Spacing, Struct, Token, Visibility,
};

fn ident(s: &str) -> Token {
    Token::Ident(s.to_string())
}

fn lit(s: &str) -> Token {
    Token::Lit(s.to_string())
}

fn punct(c: char) -> Token {
    Token::Punct(c, Spacing::Alone)
}

fn joint(c: char) -> Token {
    Token::Punct(c, Spacing::Joint)
}

fn from_file_attr(tokens: Vec<Token>) -> Attribute {
    Attribute {
        path: "from_file".to_string(),
        tokens,
        span: 1,
    }
}

fn plain_field(name: &str, ty: &str) -> Field {
    Field {
        attrs: vec![],
        vis: Visibility::Inherited,
        name: name.to_string(),
        ty: ty.to_string(),
        span: 0,
    }
}

fn named_decl(name: &str, fields: Vec<Field>) -> Decl {
    Decl {
        vis: Visibility::Inherited,
        name: name.to_string(),
        generics: vec![],
        where_preds: None,
        body: DeclBody::Named(fields),
        span: 3,
    }
}

#[test]
fn extract_named_fields_success() {
    let input = named_decl("S", vec![plain_field("x", "i32"), plain_field("y", "String")]);
    let fields = extract_named_fields(&input).unwrap();
    let names = fields.iter().map(|f| f.name.clone()).collect::<Vec<_>>();
    assert_eq!(names, vec!["x", "y"]);
}

#[test]
fn extract_named_fields_err_on_enum() {
    let input = Decl {
        vis: Visibility::Inherited,
        name: "E".to_string(),
        generics: vec![],
        where_preds: None,
        body: DeclBody::Sum(vec!["A".to_string(), "B".to_string()]),
        span: 9,
    };
    assert!(extract_named_fields(&input).is_err());
}

#[test]
fn extract_named_fields_err_on_tuple_struct() {
    let input = Decl {
        vis: Visibility::Inherited,
        name: "T".to_string(),
        generics: vec![],
        where_preds: None,
        body: DeclBody::Positional(vec!["i32".to_string(), "String".to_string()]),
        span: 9,
    };
    assert!(extract_named_fields(&input).is_err());
}

#[test]
fn parse_default_attrs_none() {
    let attrs = vec![Attribute {
        path: "foo".to_string(),
        tokens: vec![],
        span: 0,
    }];
    assert_eq!(parse_from_file_default_attr(&attrs).unwrap(), Directive::Absent);
}

#[test]
fn parse_default_attrs_picks_first_default() {
    let attrs = vec![
        Attribute {
            path: "foo".to_string(),
            tokens: vec![],
            span: 0,
        },
        from_file_attr(vec![ident("default"), punct('='), lit("\"bar\"")]),
        from_file_attr(vec![ident("default"), punct('='), lit("\"baz\"")]),
    ];
    let d = parse_from_file_default_attr(&attrs).unwrap();
    // should pick the first default attribute
    assert_eq!(d, Directive::Explicit("\"bar\" . to_string ()".to_string()));
}

#[test]
fn parse_default_first_key_wins_within_attribute() {
    let attrs = vec![from_file_attr(vec![
        ident("default"),
        punct('='),
        lit("1"),
        punct(','),
        ident("default"),
        punct('='),
        lit("2"),
    ])];
    let d = parse_from_file_default_attr(&attrs).unwrap();
    assert_eq!(d, Directive::Explicit("1".to_string()));
}

#[test]
fn parse_default_expression_value() {
    // a full expression as the value; the comma inside the call does not
    // end the collected value
    let attrs = vec![from_file_attr(vec![
        ident("default"),
        punct('='),
        ident("foo"),
        Token::Open(Delim::Paren),
        lit("1"),
        punct(','),
        lit("2"),
        Token::Close(Delim::Paren),
    ])];
    let d = parse_from_file_default_attr(&attrs).unwrap();
    assert_eq!(d, Directive::Explicit("foo ( 1 , 2 )".to_string()));
}

#[test]
fn parse_default_operator_expression() {
    let attrs = vec![from_file_attr(vec![
        ident("default"),
        punct('='),
        lit("1"),
        punct('+'),
        lit("2"),
    ])];
    let d = parse_from_file_default_attr(&attrs).unwrap();
    assert_eq!(d, Directive::Explicit("1 + 2".to_string()));
}

#[test]
fn parse_default_path_expression() {
    // `::` arrives as a joint colon followed by an alone colon and must
    // render as one operator for the grammar check to accept it
    let attrs = vec![from_file_attr(vec![
        ident("default"),
        punct('='),
        ident("String"),
        joint(':'),
        punct(':'),
        ident("new"),
        Token::Open(Delim::Paren),
        Token::Close(Delim::Paren),
    ])];
    let d = parse_from_file_default_attr(&attrs).unwrap();
    assert_eq!(d, Directive::Explicit("String :: new ( )".to_string()));
}

#[test]
fn parse_default_range_expression() {
    // `..` is a joint dot followed by an alone dot
    let attrs = vec![from_file_attr(vec![
        ident("default"),
        punct('='),
        lit("1"),
        joint('.'),
        punct('.'),
        lit("2"),
    ])];
    let d = parse_from_file_default_attr(&attrs).unwrap();
    assert_eq!(d, Directive::Explicit("1 .. 2".to_string()));
}

#[test]
fn parse_default_raw_string_literal() {
    let attrs = vec![from_file_attr(vec![
        ident("default"),
        punct('='),
        lit("r\"bar\""),
    ])];
    let d = parse_from_file_default_attr(&attrs).unwrap();
    assert_eq!(d, Directive::Explicit("r\"bar\" . to_string ()".to_string()));
}

#[test]
fn parse_default_err_on_wrong_key() {
    let attrs = vec![from_file_attr(vec![ident("foo"), punct('='), lit("\"x\"")])];
    let e = parse_from_file_default_attr(&attrs).unwrap_err();
    assert_eq!(e, FromFileError::InvalidAttribute { span: 1 });
}

#[test]
fn parse_default_err_on_missing_value() {
    let attrs = vec![from_file_attr(vec![ident("default"), punct('=')])];
    let e = parse_from_file_default_attr(&attrs).unwrap_err();
    assert_eq!(e, FromFileError::InvalidAttribute { span: 1 });
}

#[test]
fn parse_default_err_on_invalid_expression() {
    let attrs = vec![from_file_attr(vec![
        ident("default"),
        punct('='),
        Token::Close(Delim::Paren),
        Token::Open(Delim::Paren),
    ])];
    let e = parse_from_file_default_attr(&attrs).unwrap_err();
    assert_eq!(e, FromFileError::InvalidAttribute { span: 1 });
}

#[test]
fn classify_simple_paths_and_primitives() {
    assert!(is_from_file_struct("Coordinates"));
    assert!(!is_from_file_struct("i32"));
    assert!(!is_from_file_struct("String"));
    assert!(!is_from_file_struct("bool"));
    assert!(!is_from_file_struct("Vec < u8 >"));
    assert!(!is_from_file_struct("std :: path :: PathBuf"));
    assert!(!is_from_file_struct(""));
}

#[test]
fn process_fields_mixed() {
    let mut a = plain_field("a", "u32");
    a.attrs = vec![from_file_attr(vec![ident("default"), punct('='), lit("1")])];
    let b = plain_field("b", "String");
    let (assign, file_fields, bounds) = process_fields(&vec![a, b], false).unwrap();
    // two fields
    assert_eq!(assign.len(), 2);
    assert_eq!(file_fields.len(), 2);
    // a resolves a present value recursively and falls back to the override
    assert!(assign[0].contains("a : file . a . map"));
    assert!(assign[0].contains(". unwrap_or (1)"));
    // b uses the zero-value fallback
    assert!(assign[1].contains("b : file . b . unwrap_or_default"));
    // the zero-value obligation should only mention String
    assert_eq!(bounds.len(), 1);
    assert!(bounds[0].contains("String : Default"));
}

#[test]
fn build_where_clause_to_new() {
    let bounds = vec!["A : Default".to_string(), "B : Default".to_string()];
    let wc = build_where_clause(None, bounds, 0).unwrap().unwrap();
    assert_eq!(wc, vec!["A : Default".to_string(), "B : Default".to_string()]);
}

#[test]
fn build_where_clause_append_existing() {
    let orig = vec!["X : Clone".to_string()];
    let bounds = vec!["Y : Default".to_string()];
    let wc = build_where_clause(Some(orig), bounds, 0).unwrap().unwrap();
    assert!(wc.contains(&"X : Clone".to_string()));
    assert!(wc.contains(&"Y : Default".to_string()));
}

#[test]
fn build_where_clause_no_bounds_keeps_original() {
    let orig = vec!["Z : Eq".to_string()];
    let wc = build_where_clause(Some(orig), vec![], 0).unwrap().unwrap();
    assert_eq!(wc, vec!["Z : Eq".to_string()]);
}

#[test]
fn build_where_clause_err_on_bad_predicate() {
    let bounds = vec!["? ?".to_string()];
    let e = build_where_clause(None, bounds, 4).unwrap_err();
    assert_eq!(e, FromFileError::InvalidAttribute { span: 4 });
}

#[test]
fn build_derive_clause_defaults() {
    let s = build_derive_clause(false);
    assert!(s.contains(
        "derive (Debug , Clone , Default , serde :: Deserialize , serde :: Serialize)"
    ));
    let m = build_derive_clause(true);
    assert!(m.contains("merge :: Merge"));
}

#[test]
fn add_trait_bouds_appends_default() {
    let gens = vec![
        GenericParam {
            name: "T".to_string(),
            bounds: vec![],
        },
        GenericParam {
            name: "U".to_string(),
            bounds: vec![],
        },
    ];
    let s = add_trait_bounds(&gens);
    assert!(s.contains("T : Default"));
    assert!(s.contains("U : Default"));
}

#[test]
fn add_trait_bounds_keeps_declared_bounds() {
    let gens = vec![GenericParam {
        name: "T".to_string(),
        bounds: vec!["Clone".to_string()],
    }];
    let s = add_trait_bounds(&gens);
    assert!(s.contains("T : Clone + Default"));
}

#[test]
fn implementation() {
    // pub struct Foo { #[attr("value")] pub bar: String, #[attr("number")] pub baz: i32 }
    let mut bar = plain_field("bar", "String");
    bar.vis = Visibility::Public;
    bar.attrs = vec![Attribute {
        path: "attr".to_string(),
        tokens: vec![lit("\"value\"")],
        span: 0,
    }];
    let mut baz = plain_field("baz", "i32");
    baz.vis = Visibility::Public;
    baz.attrs = vec![Attribute {
        path: "attr".to_string(),
        tokens: vec![lit("\"number\"")],
        span: 0,
    }];
    let info = Struct {
        vis: Visibility::Public,
        name: "Foo".to_string(),
        generics: vec![],
        where_preds: None,
        fields: vec![bar, baz],
        span: 0,
    };
    let out = generate_impl(&info, false).expect("failed to generate implementation");
    assert!(out.contains("pub struct FooFile"));
    assert!(out.contains("impl filecaster :: FromFile for Foo"));
}

#[test]
fn impl_from_file_exact_output() {
    let input = named_decl("Foo", vec![plain_field("bar", "String")]);
    let out = impl_from_file(input, false).unwrap();
    let mut expected = String::new();
    expected.push_str(
        "# [derive (Debug , Clone , Default , serde :: Deserialize , serde :: Serialize)]\n",
    );
    expected.push_str("struct FooFile where String : Default { pub bar : Option < String > }\n");
    expected.push_str("impl filecaster :: FromFile for Foo where String : Default ");
    expected.push_str("{ type Shadow = FooFile ; fn from_file (file : Option < Self :: Shadow >) -> Self ");
    expected.push_str("{ let file = file . unwrap_or_default () ; Self { bar : file . bar . unwrap_or_default () } } }\n");
    expected.push_str("impl From < Option < FooFile > > for Foo where String : Default ");
    expected.push_str("{ fn from (value : Option < FooFile >) -> Self { < Self as filecaster :: FromFile > :: from_file (value) } }\n");
    expected.push_str("impl From < FooFile > for Foo where String : Default ");
    expected.push_str("{ fn from (value : FooFile ) -> Self { < Self as filecaster :: FromFile > :: from_file (Some (value)) } }");
    assert_eq!(out, expected);
}

#[test]
fn impl_from_file_nested_delegates() {
    let input = named_decl("Wrapper", vec![plain_field("parent", "Parent")]);
    let out = impl_from_file(input, false).unwrap();
    assert!(out.contains("pub parent : Option < < Parent as filecaster :: FromFile > :: Shadow >"));
    assert!(out.contains("parent : < Parent as filecaster :: FromFile > :: from_file (file . parent)"));
    // a nested field records no zero-value obligation
    assert!(!out.contains("where"));
}

#[test]
fn impl_from_file_merge_capability() {
    let input = named_decl("Foo", vec![plain_field("bar", "String")]);
    let out = impl_from_file(input, true).unwrap();
    assert!(out.contains("merge :: Merge"));
    assert!(out.contains("# [merge (strategy = merge :: option :: overwrite_none)] pub bar"));
}

#[test]
fn impl_from_file_generic_parameters() {
    let input = Decl {
        vis: Visibility::Inherited,
        name: "G".to_string(),
        generics: vec![
            GenericParam {
                name: "T".to_string(),
                bounds: vec!["Clone".to_string()],
            },
            GenericParam {
                name: "U".to_string(),
                bounds: vec![],
            },
        ],
        where_preds: None,
        body: DeclBody::Named(vec![plain_field("x", "i32")]),
        span: 0,
    };
    let out = impl_from_file(input, false).unwrap();
    assert!(out.contains("impl < T : Clone + Default , U : Default > filecaster :: FromFile for G < T , U >"));
    assert!(out.contains("struct GFile < T , U > where i32 : Default"));
}

#[test]
fn impl_from_file_keeps_restricted_visibility() {
    let input = Decl {
        vis: Visibility::Restricted("pub (crate)".to_string()),
        name: "Foo".to_string(),
        generics: vec![],
        where_preds: None,
        body: DeclBody::Named(vec![plain_field("bar", "String")]),
        span: 0,
    };
    let out = impl_from_file(input, false).unwrap();
    assert!(out.contains("pub (crate) struct FooFile"));
}

#[test]
fn impl_from_file_rejects_sum_type() {
    let input = Decl {
        vis: Visibility::Inherited,
        name: "E".to_string(),
        generics: vec![],
        where_preds: None,
        body: DeclBody::Sum(vec!["A".to_string()]),
        span: 12,
    };
    let e = impl_from_file(input, false).unwrap_err();
    assert_eq!(e, FromFileError::NotNamedStruct { span: 12 });
}

#[test]
fn impl_from_file_propagates_attribute_error() {
    let mut f = plain_field("x", "i32");
    f.attrs = vec![from_file_attr(vec![ident("nope")])];
    let input = named_decl("S", vec![f]);
    let e = impl_from_file(input, false).unwrap_err();
    assert_eq!(e, FromFileError::InvalidAttribute { span: 1 });
}

#[test]
fn error_messages_and_spans() {
    let e = FromFileError::NotNamedStruct { span: 5 };
    assert_eq!(e.span(), 5);
    assert_eq!(e.message(), "FromFile only works on structs with named fields");
    assert_eq!(
        e.to_compile_error(),
        "compile_error ! (\"FromFile only works on structs with named fields\")"
    );
    let e = FromFileError::InvalidAttribute { span: 8 };
    assert_eq!(e.message(), "Invalid #[from_file] attribute format");
    assert_eq!(
        e.to_compile_error(),
        "compile_error ! (\"Invalid #[from_file] attribute format\")"
    );
}
