use try_from_map::descriptor::{
    Attribute, Data, FieldDescriptor, Fields, PathSegment, TypeDescriptor, TypeShape,
};
use try_from_map::field::{
    has_attr, is_optional_field, parse_field, parse_fields, DecodeStrategy, Field, Modality,
    UnsupportedShape,
};
use try_from_map::generation::generate_from_impl;
use try_from_map::{_derive_try_from_map, derive_try_from_map};

fn segment(name: &str, arguments: usize) -> PathSegment {
    PathSegment { ident: name.to_string(), arguments }
}

fn path(segments: Vec<PathSegment>) -> TypeShape {
    TypeShape::Path { qualified: false, segments }
}

fn field(name: &str, ty: TypeShape, attrs: &[&[&str]]) -> FieldDescriptor {
    FieldDescriptor {
        ident: name.to_string(),
        ty,
        attrs: attrs
            .iter()
            .map(|path| Attribute { path: path.iter().map(|s| s.to_string()).collect() })
            .collect(),
    }
}

fn declaration(name: &str, data: Data) -> TypeDescriptor {
    TypeDescriptor { ident: name.to_string(), data }
}

#[test]
fn option_with_one_argument_is_optional() {
    assert!(is_optional_field(&field("a", path(vec![segment("Option", 1)]), &[])));
}

#[test]
fn other_names_are_required() {
    assert!(!is_optional_field(&field("a", path(vec![segment("String", 0)]), &[])));
    assert!(!is_optional_field(&field("a", path(vec![segment("Vec", 1)]), &[])));
    assert!(!is_optional_field(&field("a", path(vec![segment("option", 1)]), &[])));
    assert!(!is_optional_field(&field("a", path(vec![segment("Optional", 1)]), &[])));
}

#[test]
fn wrapped_option_is_required() {
    // Box<Option<T>>: only the outermost name counts.
    assert!(!is_optional_field(&field("a", path(vec![segment("Box", 1)]), &[])));
}

#[test]
fn option_reached_through_a_module_path_is_required() {
    // std::option::Option<T>: the path starts with `std`.
    let ty = path(vec![segment("std", 0), segment("option", 0), segment("Option", 1)]);
    assert!(!is_optional_field(&field("a", ty, &[])));
}

#[test]
fn option_without_one_argument_is_required() {
    assert!(!is_optional_field(&field("a", path(vec![segment("Option", 0)]), &[])));
    assert!(!is_optional_field(&field("a", path(vec![segment("Option", 2)]), &[])));
}

#[test]
fn qualified_path_is_required() {
    let ty = TypeShape::Path { qualified: true, segments: vec![segment("Option", 1)] };
    assert!(!is_optional_field(&field("a", ty, &[])));
}

#[test]
fn types_that_are_no_path_are_required() {
    assert!(!is_optional_field(&field("a", TypeShape::Other, &[])));
    assert!(!is_optional_field(&field("a", path(vec![]), &[])));
}

#[test]
fn marker_is_found_among_other_attributes() {
    let attrs = field("a", TypeShape::Other, &[&["doc"], &["serde_json"], &["allow"]]).attrs;
    assert!(has_attr(&attrs, "serde_json"));
    assert!(has_attr(&attrs, "doc"));
    assert!(has_attr(&attrs, "allow"));
    assert!(!has_attr(&attrs, "serde"));
    assert!(!has_attr(&attrs, "json"));
}

#[test]
fn marker_is_matched_by_the_first_segment_of_the_path() {
    let attrs = field("a", TypeShape::Other, &[&["serde", "serde_json"], &[]]).attrs;
    assert!(!has_attr(&attrs, "serde_json"));
    assert!(has_attr(&attrs, "serde"));
    let attrs = field("a", TypeShape::Other, &[&["serde_json", "strict"]]).attrs;
    assert!(has_attr(&attrs, "serde_json"));
}

#[test]
fn field_without_attributes_has_no_marker() {
    assert!(!has_attr(&Vec::new(), "serde_json"));
}

#[test]
fn modality_and_strategy_are_independent() {
    let cases = [
        ("u8", 0, false, Modality::Required, DecodeStrategy::PlainParse),
        ("u8", 0, true, Modality::Required, DecodeStrategy::JsonDecode),
        ("Option", 1, false, Modality::Optional, DecodeStrategy::PlainParse),
        ("Option", 1, true, Modality::Optional, DecodeStrategy::JsonDecode),
    ];
    for (name, arguments, marked, modality, strategy) in cases {
        let attrs: &[&[&str]] = if marked { &[&["serde_json"]] } else { &[&["unknown"]] };
        let plan = parse_field(&field("x", path(vec![segment(name, arguments)]), attrs));
        assert_eq!(plan.ident(), "x");
        assert_eq!(plan.modality(), modality);
        assert_eq!(plan.decode_strategy(), strategy);
    }
}

#[test]
fn statement_text_of_each_kind_of_field() {
    let text = |modality, strategy| Field::new("x".to_string(), modality, strategy).generate_deserialize();
    assert_eq!(
        text(Modality::Required, DecodeStrategy::PlainParse),
        "let x = map.get(\"x\").map(|value| value.parse()).transpose()?.ok_or_else(|| \"Field x not found\")?;"
    );
    assert_eq!(
        text(Modality::Required, DecodeStrategy::JsonDecode),
        "let x = map.get(\"x\").map(|value| serde_json::from_str(&value)).transpose()?.ok_or_else(|| \"Field x not found\")?;"
    );
    assert_eq!(
        text(Modality::Optional, DecodeStrategy::PlainParse),
        "let x = map.get(\"x\").map(|value| value.parse()).transpose()?;"
    );
    assert_eq!(
        text(Modality::Optional, DecodeStrategy::JsonDecode),
        "let x = map.get(\"x\").map(|value| serde_json::from_str(&value)).transpose()?;"
    );
}

#[test]
fn missing_message_names_the_field() {
    let plan = Field::new("port".to_string(), Modality::Required, DecodeStrategy::PlainParse);
    assert_eq!(plan.missing_message(), "Field port not found");
}

#[test]
fn fields_keep_their_declaration_order() {
    let fields = vec![
        field("zeta", path(vec![segment("u8", 0)]), &[]),
        field("alpha", path(vec![segment("Option", 1)]), &[]),
        field("mid", path(vec![segment("u8", 0)]), &[&["serde_json"]]),
        field("alpha", path(vec![segment("u8", 0)]), &[]),
    ];
    let plans = parse_fields(&declaration("Config", Data::Struct(Fields::Named(fields)))).unwrap();
    let names: Vec<&str> = plans.iter().map(|p| p.ident().as_str()).collect();
    assert_eq!(names, vec!["zeta", "alpha", "mid", "alpha"]);
}

#[test]
fn tuple_struct_is_rejected() {
    let input = declaration("Pair", Data::Struct(Fields::Unnamed));
    assert_eq!(parse_fields(&input).unwrap_err(), UnsupportedShape::UnnamedFields);
    assert_eq!(_derive_try_from_map(&input).unwrap_err(), UnsupportedShape::UnnamedFields);
    assert_eq!(
        derive_try_from_map(&input),
        "::core::compile_error! { \"Only named fields are supported\" }\n"
    );
}

#[test]
fn unit_struct_is_rejected() {
    let input = declaration("Marker", Data::Struct(Fields::Unit));
    assert_eq!(parse_fields(&input).unwrap_err(), UnsupportedShape::UnnamedFields);
    assert_eq!(_derive_try_from_map(&input).unwrap_err(), UnsupportedShape::UnnamedFields);
    assert_eq!(
        derive_try_from_map(&input),
        "::core::compile_error! { \"Only named fields are supported\" }\n"
    );
}

#[test]
fn enum_is_rejected() {
    let input = declaration("Choice", Data::Enum);
    assert_eq!(parse_fields(&input).unwrap_err(), UnsupportedShape::NotAStruct);
    assert_eq!(_derive_try_from_map(&input).unwrap_err(), UnsupportedShape::NotAStruct);
    assert_eq!(
        derive_try_from_map(&input),
        "::core::compile_error! { \"Only structs are supported\" }\n"
    );
}

#[test]
fn union_is_rejected() {
    let input = declaration("Bits", Data::Union);
    assert_eq!(parse_fields(&input).unwrap_err(), UnsupportedShape::NotAStruct);
    assert_eq!(_derive_try_from_map(&input).unwrap_err(), UnsupportedShape::NotAStruct);
}

#[test]
fn rejection_messages() {
    assert_eq!(UnsupportedShape::NotAStruct.message(), "Only structs are supported");
    assert_eq!(UnsupportedShape::UnnamedFields.message(), "Only named fields are supported");
}

#[test]
fn same_declaration_gives_the_same_text() {
    let build = || {
        declaration(
            "Config",
            Data::Struct(Fields::Named(vec![
                field("host", path(vec![segment("String", 0)]), &[]),
                field("port", path(vec![segment("Option", 1)]), &[&["serde_json"]]),
            ])),
        )
    };
    let first = derive_try_from_map(&build());
    let second = derive_try_from_map(&build());
    assert_eq!(first.as_bytes(), second.as_bytes());
    assert_eq!(_derive_try_from_map(&build()).unwrap(), first);
    let plans = parse_fields(&build()).unwrap();
    assert_eq!(generate_from_impl("Config", &plans), first);
}

#[test]
fn routine_is_an_impl_of_try_from_for_the_named_type() {
    let input = declaration(
        "Config",
        Data::Struct(Fields::Named(vec![
            field("host", path(vec![segment("String", 0)]), &[]),
            field("tags", path(vec![segment("Option", 1)]), &[&["serde_json"]]),
        ])),
    );
    let text = derive_try_from_map(&input);
    let item: syn::ItemImpl = syn::parse_str(&text).unwrap();
    let (_, implemented, _) = item.trait_.as_ref().unwrap();
    assert_eq!(implemented.segments.last().unwrap().ident.to_string(), "TryFrom");
    match item.self_ty.as_ref() {
        syn::Type::Path(self_ty) => assert!(self_ty.path.is_ident("Config")),
        _ => panic!("the routine is not implemented for a named type"),
    }
    assert_eq!(item.items.len(), 2);
    match &item.items[1] {
        syn::ImplItem::Fn(method) => {
            assert_eq!(method.sig.ident.to_string(), "try_from");
            // One statement for each field, then the constructed value.
            assert_eq!(method.block.stmts.len(), 3);
        }
        _ => panic!("the routine has no method"),
    }
}

#[test]
fn rejection_text_is_a_macro_invocation() {
    let text = derive_try_from_map(&declaration("Choice", Data::Enum));
    let item: syn::ItemMacro = syn::parse_str(&text).unwrap();
    assert!(item.mac.path.segments.last().unwrap().ident == "compile_error");
    let message: syn::LitStr = item.mac.parse_body().unwrap();
    assert_eq!(message.value(), "Only structs are supported");
}
