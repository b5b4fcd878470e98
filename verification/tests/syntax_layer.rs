use kj_rs::classify_output;
use kj_rs::classify_outputs;
use kj_rs::split_for_impl;
use kj_rs::to_underscore_lifetimes;
use kj_rs::ForeignName;
use kj_rs::ImplKey;
use kj_rs::Kind;
use kj_rs::Lifetimes;
use kj_rs::NameError;
use kj_rs::NamedType;
use kj_rs::Output;
use kj_rs::Pair;
use kj_rs::Receiver;
use kj_rs::ReceiverType;
use kj_rs::ReceiverTypeSelf;
use kj_rs::StructDef;
use kj_rs::Type;
use kj_rs::Types;

fn empty_types() -> Types {
    Types { structs: Vec::new(), enums: Vec::new() }
}

fn ident(name: &str) -> Type {
    Type::Ident(NamedType::new(name.to_string()))
}

#[test]
fn pod_atoms() {
    let types = empty_types();
    assert!(types.is_guaranteed_pod(&ident("bool")));
    assert!(types.is_guaranteed_pod(&ident("u8")));
    assert!(types.is_guaranteed_pod(&ident("i64")));
    assert!(types.is_guaranteed_pod(&ident("f64")));
    assert!(!types.is_guaranteed_pod(&ident("String")));
    assert!(!types.is_guaranteed_pod(&ident("CxxString")));
}

#[test]
fn pod_wrappers_and_builtins() {
    let types = empty_types();
    assert!(!types.is_guaranteed_pod(&Type::RustBox(Box::new(ident("u8")))));
    assert!(!types.is_guaranteed_pod(&Type::KjOwn(Box::new(ident("u8")))));
    assert!(!types.is_guaranteed_pod(&Type::KjMaybe(Box::new(ident("u8")))));
    assert!(!types.is_guaranteed_pod(&Type::Future(Box::new(ident("u8")))));
    assert!(!types.is_guaranteed_pod(&Type::Void));
    assert!(types.is_guaranteed_pod(&Type::KjDate));
    assert!(types.is_guaranteed_pod(&Type::Str));
    assert!(types.is_guaranteed_pod(&Type::Ref(Box::new(ident("String")))));
    assert!(types.is_guaranteed_pod(&Type::Array(Box::new(ident("u8")))));
    assert!(!types.is_guaranteed_pod(&Type::Array(Box::new(ident("String")))));
}

#[test]
fn pod_structs_and_enums() {
    let types = Types {
        structs: vec![
            StructDef {
                name: "CopyStruct".to_string(),
                copy_derived: true,
                fields: vec![ident("String")],
            },
            StructDef {
                name: "PlainStruct".to_string(),
                copy_derived: false,
                fields: vec![ident("u8"), ident("bool")],
            },
            StructDef {
                name: "StringStruct".to_string(),
                copy_derived: false,
                fields: vec![ident("u8"), ident("String")],
            },
            StructDef {
                name: "NestedStruct".to_string(),
                copy_derived: false,
                fields: vec![ident("PlainStruct")],
            },
        ],
        enums: vec!["Color".to_string()],
    };
    // A derived copy makes the struct plain-old-data outright.
    assert!(types.is_guaranteed_pod(&ident("CopyStruct")));
    // Otherwise every field must be plain-old-data.
    assert!(types.is_guaranteed_pod(&ident("PlainStruct")));
    assert!(!types.is_guaranteed_pod(&ident("StringStruct")));
    assert!(types.is_guaranteed_pod(&ident("NestedStruct")));
    // Enums are plain-old-data; unknown names are not.
    assert!(types.is_guaranteed_pod(&ident("Color")));
    assert!(!types.is_guaranteed_pod(&ident("Mystery")));
}

#[test]
fn impl_keys_for_wrappers() {
    let key = Type::RustBox(Box::new(ident("Thing"))).impl_key();
    match key {
        Some(ImplKey::RustBox(named)) => assert_eq!(named.rust, "Thing"),
        _ => panic!("expected a box key"),
    }
    let key = Type::KjOwn(Box::new(ident("Thing"))).impl_key();
    assert!(matches!(key, Some(ImplKey::Own(_))));
    let key = Type::KjMaybe(Box::new(ident("Thing"))).impl_key();
    assert!(matches!(key, Some(ImplKey::Maybe(_))));
    let key = Type::CxxVector(Box::new(ident("Thing"))).impl_key();
    assert!(matches!(key, Some(ImplKey::CxxVector(_))));
    // Only plain named inner types yield keys.
    let key = Type::RustBox(Box::new(Type::RustVec(Box::new(ident("Thing"))))).impl_key();
    assert!(key.is_none());
    assert!(ident("Thing").impl_key().is_none());
}

#[test]
fn symbol_and_fully_qualified() {
    let pair = Pair {
        namespace: vec!["org".to_string(), "example".to_string()],
        cxx: "Thing".to_string(),
        rust: "Thing".to_string(),
    };
    assert_eq!(pair.to_symbol().as_str(), "org$example$Thing");
    assert_eq!(pair.to_fully_qualified(), "::org::example::Thing");

    let bare = Pair {
        namespace: Vec::new(),
        cxx: "Thing".to_string(),
        rust: "Thing".to_string(),
    };
    assert_eq!(bare.to_symbol().as_str(), "Thing");
    assert_eq!(bare.to_fully_qualified(), "::Thing");
}

#[test]
fn foreign_name_parsing() {
    let name = ForeignName::parse("foo").unwrap();
    assert_eq!(name.text(), "foo");
    // Keywords are accepted as foreign names.
    let keyword = ForeignName::parse("async").unwrap();
    assert_eq!(keyword.text(), "async");
    // Anything that is not a single identifier is rejected.
    assert!(matches!(
        ForeignName::parse("1abc"),
        Err(NameError::InvalidIdentifier)
    ));
    assert!(matches!(
        ForeignName::parse("a b"),
        Err(NameError::InvalidIdentifier)
    ));
    assert!(matches!(
        ForeignName::parse("operator++"),
        Err(NameError::InvalidIdentifier)
    ));
}

#[test]
fn named_type_has_no_lifetimes() {
    let nt = NamedType::new("Widget".to_string());
    assert_eq!(nt.rust, "Widget");
    assert!(nt.lifetimes.is_empty());
}

#[test]
fn receiver_rendering() {
    let receiver = Receiver {
        pinned: true,
        ampersand: true,
        lifetime: Some("a".to_string()),
        mutable: true,
        ty: "Widget".to_string(),
    };
    let mut out = String::new();
    ReceiverType(&receiver).to_tokens(&mut out);
    assert_eq!(out, "::cxx::core::pin::Pin<&'a mut Widget>");
    let mut out = String::new();
    ReceiverTypeSelf(&receiver).to_tokens(&mut out);
    assert_eq!(out, "::cxx::core::pin::Pin<&'a mut Self>");

    let plain = Receiver {
        pinned: false,
        ampersand: true,
        lifetime: None,
        mutable: false,
        ty: "Widget".to_string(),
    };
    let mut out = String::new();
    ReceiverType(&plain).to_tokens(&mut out);
    assert_eq!(out, "&Widget");
}

#[test]
fn generics_rendering() {
    let resolve = Lifetimes {
        lifetimes: vec!["a".to_string(), "b".to_string()],
        bracketed: true,
    };
    let (impl_generics, ty_generics) = split_for_impl(None, &resolve);
    let mut out = String::new();
    impl_generics.to_tokens(&mut out);
    assert_eq!(out, "<'a, 'b>");
    let mut out = String::new();
    ty_generics.to_tokens(&mut out);
    assert_eq!(out, "<'a, 'b>");

    // A type position brackets resolved lifetimes even when the
    // declaration wrote none.
    let unbracketed = Lifetimes {
        lifetimes: vec!["a".to_string()],
        bracketed: false,
    };
    let (impl_generics, ty_generics) = split_for_impl(None, &unbracketed);
    let mut out = String::new();
    impl_generics.to_tokens(&mut out);
    assert_eq!(out, "");
    let mut out = String::new();
    ty_generics.to_tokens(&mut out);
    assert_eq!(out, "<'a>");

    let mut out = String::new();
    to_underscore_lifetimes(&resolve).to_tokens(&mut out);
    assert_eq!(out, "<'_, '_>");
}

#[test]
fn output_classification() {
    // Without an input file every output receives the support header.
    assert_eq!(classify_output(false, false, &Output::Stdout), Kind::Header);
    // The header flag forces the generated header.
    assert_eq!(
        classify_output(true, true, &Output::File(b"out.cc".to_vec())),
        Kind::GeneratedHeader
    );
    // Header extensions select the generated header.
    assert_eq!(
        classify_output(true, false, &Output::File(b"bridge.h".to_vec())),
        Kind::GeneratedHeader
    );
    assert_eq!(
        classify_output(true, false, &Output::File(b"bridge.hh".to_vec())),
        Kind::GeneratedHeader
    );
    assert_eq!(
        classify_output(true, false, &Output::File(b"bridge.hpp".to_vec())),
        Kind::GeneratedHeader
    );
    // Everything else receives the generated implementation.
    assert_eq!(
        classify_output(true, false, &Output::File(b"bridge.cc".to_vec())),
        Kind::GeneratedImplementation
    );
    assert_eq!(
        classify_output(true, false, &Output::Stdout),
        Kind::GeneratedImplementation
    );

    let outputs = vec![
        Output::File(b"bridge.h".to_vec()),
        Output::File(b"bridge.cc".to_vec()),
    ];
    let plan = classify_outputs(true, false, &outputs);
    assert_eq!(plan.kinds.len(), 2);
    assert_eq!(plan.kinds[0], Kind::GeneratedHeader);
    assert_eq!(plan.kinds[1], Kind::GeneratedImplementation);
    assert!(plan.gen_header);
    assert!(plan.gen_implementation);

    let plan = classify_outputs(true, false, &vec![Output::File(b"only.h".to_vec())]);
    assert!(plan.gen_header);
    assert!(!plan.gen_implementation);
}
