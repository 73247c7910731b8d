use varianteq::decl::{
    DeclKind, FieldShape, GeneratedFragment, GenerationError, GenericParam, TypeDeclaration,
    Variant,
};
use varianteq::generate::{generate, impl_generics_tokens, ty_generics_tokens};

fn toks(ts: &[&str]) -> Vec<String> {
    ts.iter().map(|t| t.to_string()).collect()
}

fn union_decl(name: &str, params: Vec<GenericParam>, where_clause: &str, variants: Vec<Variant>) -> TypeDeclaration {
    TypeDeclaration {
        name: name.to_string(),
        kind: DeclKind::TaggedUnion,
        params,
        where_clause: where_clause.to_string(),
        variants,
    }
}

fn unit_variant(name: &str) -> Variant {
    Variant { name: name.to_string(), shape: FieldShape::Unit }
}

fn tuple_variant(name: &str, count: usize) -> Variant {
    Variant { name: name.to_string(), shape: FieldShape::Unnamed { count } }
}

fn expected_fragment(name: &str, ig: &[&str], tg: &[&str], wc: &str) -> Vec<String> {
    let mut out: Vec<&str> = Vec::new();
    out.push("impl");
    out.extend(ig);
    out.extend(["PartialEq", "for", name]);
    out.extend(tg);
    if !wc.is_empty() {
        out.push(wc);
    }
    out.extend(["{", "fn", "eq", "(", "&", "self", ",", "other", ":", "&", name]);
    out.extend(tg);
    out.extend([")", "->", "bool", "{", "::std::mem::discriminant", "(", "self", ")", "=="]);
    out.extend(["::std::mem::discriminant", "(", "other", ")", "}", "}"]);
    out.push("impl");
    out.extend(ig);
    out.extend(["Eq", "for", name]);
    out.extend(tg);
    if !wc.is_empty() {
        out.push(wc);
    }
    out.extend(["{", "}"]);
    toks(&out)
}

fn generate_ok(decl: &TypeDeclaration) -> GeneratedFragment {
    match generate(decl) {
        Ok(fragment) => fragment,
        Err(_) => panic!("generation failed on a tagged union"),
    }
}

#[test]
fn plain_union_fragment() {
    let decl = union_decl(
        "E",
        Vec::new(),
        "",
        vec![tuple_variant("A", 1), tuple_variant("B", 1), tuple_variant("C", 2)],
    );
    let fragment = generate_ok(&decl);
    assert_eq!(fragment.tokens, expected_fragment("E", &[], &[], ""));
    assert_eq!(fragment.impl_generics, toks(&[]));
    assert_eq!(fragment.ty_generics, toks(&[]));
    assert_eq!(fragment.where_clause, "".to_string());
}

#[test]
fn single_variant_union_fragment() {
    let decl = union_decl("U", Vec::new(), "", vec![unit_variant("X")]);
    let fragment = generate_ok(&decl);
    assert_eq!(fragment.tokens, expected_fragment("U", &[], &[], ""));
}

#[test]
fn plain_record_rejected() {
    let decl = TypeDeclaration {
        name: "S".to_string(),
        kind: DeclKind::PlainRecord,
        params: Vec::new(),
        where_clause: "".to_string(),
        variants: Vec::new(),
    };
    match generate(&decl) {
        Ok(_) => panic!("a plain record must not receive the capability"),
        Err(e) => assert_eq!(e, GenerationError::UnsupportedKind),
    }
}

#[test]
fn other_kind_rejected() {
    let decl = TypeDeclaration {
        name: "W".to_string(),
        kind: DeclKind::Other,
        params: Vec::new(),
        where_clause: "".to_string(),
        variants: Vec::new(),
    };
    match generate(&decl) {
        Ok(_) => panic!("only a tagged union may receive the capability"),
        Err(e) => assert_eq!(e, GenerationError::UnsupportedKind),
    }
}

#[test]
fn error_message_names_the_restriction() {
    assert_eq!(
        GenerationError::UnsupportedKind.message(),
        "#[derive(VariantEq)] is only defined for enums".to_string()
    );
}

#[test]
fn unconstrained_type_parameter_fragment() {
    let params = vec![GenericParam::Type {
        name: "T".to_string(),
        bounds: "".to_string(),
        default_ty: "".to_string(),
    }];
    let decl = union_decl("G", params, "", vec![tuple_variant("V", 1)]);
    let fragment = generate_ok(&decl);
    assert_eq!(fragment.impl_generics, toks(&["<", "T", ">"]));
    assert_eq!(fragment.ty_generics, toks(&["<", "T", ">"]));
    assert_eq!(
        fragment.tokens,
        expected_fragment("G", &["<", "T", ">"], &["<", "T", ">"], "")
    );
}

#[test]
fn bounded_generics_split_three_ways() {
    let params = vec![
        GenericParam::Lifetime { name: "'a".to_string(), bounds: "'b".to_string() },
        GenericParam::Lifetime { name: "'b".to_string(), bounds: "".to_string() },
        GenericParam::Type {
            name: "T".to_string(),
            bounds: "Clone + Send".to_string(),
            default_ty: "u32".to_string(),
        },
        GenericParam::Const {
            name: "N".to_string(),
            ty: "usize".to_string(),
            default_val: "4".to_string(),
        },
    ];
    let wc = "where T : Sized";
    let decl = union_decl("G", params, wc, vec![tuple_variant("V", 1)]);
    let fragment = generate_ok(&decl);
    let ig = [
        "<", "'a", ":", "'b", ",", "'b", ",", "T", ":", "Clone + Send", ",", "const", "N", ":",
        "usize", ">",
    ];
    let tg = ["<", "'a", ",", "'b", ",", "T", ",", "N", ">"];
    assert_eq!(fragment.impl_generics, toks(&ig));
    assert_eq!(fragment.ty_generics, toks(&tg));
    assert_eq!(fragment.where_clause, wc.to_string());
    assert_eq!(fragment.tokens, expected_fragment("G", &ig, &tg, wc));
}

#[test]
fn generics_views_standalone_builders() {
    let params = vec![
        GenericParam::Type {
            name: "T".to_string(),
            bounds: "Ord".to_string(),
            default_ty: "".to_string(),
        },
        GenericParam::Type {
            name: "U".to_string(),
            bounds: "".to_string(),
            default_ty: "T".to_string(),
        },
    ];
    assert_eq!(impl_generics_tokens(&params), toks(&["<", "T", ":", "Ord", ",", "U", ">"]));
    assert_eq!(ty_generics_tokens(&params), toks(&["<", "T", ",", "U", ">"]));
    let empty: Vec<GenericParam> = Vec::new();
    assert_eq!(impl_generics_tokens(&empty), toks(&[]));
    assert_eq!(ty_generics_tokens(&empty), toks(&[]));
}

#[test]
fn fragment_parses_as_two_impl_items() {
    let params = vec![
        GenericParam::Lifetime { name: "'a".to_string(), bounds: "".to_string() },
        GenericParam::Type {
            name: "T".to_string(),
            bounds: "Clone + Send".to_string(),
            default_ty: "".to_string(),
        },
        GenericParam::Const {
            name: "N".to_string(),
            ty: "usize".to_string(),
            default_val: "".to_string(),
        },
    ];
    let decl = union_decl("G", params, "where T : Sized", vec![tuple_variant("V", 1)]);
    let fragment = generate_ok(&decl);
    let code = fragment.tokens.join(" ");
    let file: syn::File = syn::parse_str(&code).expect("the fragment is well-formed Rust");
    assert_eq!(file.items.len(), 2);
    assert!(matches!(file.items[0], syn::Item::Impl(_)));
    assert!(matches!(file.items[1], syn::Item::Impl(_)));
}

#[test]
fn variants_never_inspected() {
    let with_fields = union_decl(
        "E",
        Vec::new(),
        "",
        vec![
            unit_variant("A"),
            tuple_variant("B", 7),
            Variant {
                name: "C".to_string(),
                shape: FieldShape::Named { names: vec!["x".to_string(), "y".to_string()] },
            },
        ],
    );
    let without = union_decl("E", Vec::new(), "", Vec::new());
    assert_eq!(generate_ok(&with_fields).tokens, generate_ok(&without).tokens);
}
