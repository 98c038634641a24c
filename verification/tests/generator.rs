use enum_key::generate::{derive_keyable_enum, key_enum_ident, DeriveError};
use enum_key::mapping::{map_to_key, position_of_value, EnumValue};
use enum_key::render::render;
use enum_key::shape::{FieldShape, Opts, TypeData, TypeDecl, VariantDef};

fn my_enum_decl() -> TypeDecl {
    TypeDecl {
        ident: "MyEnum".to_string(),
        data: TypeData::Enum(vec![
            VariantDef {
                ident: "A".to_string(),
                shape: FieldShape::Positional,
            },
            VariantDef {
                ident: "B".to_string(),
                shape: FieldShape::Named,
            },
            VariantDef {
                ident: "C".to_string(),
                shape: FieldShape::Fieldless,
            },
        ]),
    }
}

fn value(tag: &str, fields: Vec<u64>) -> EnumValue {
    EnumValue {
        tag: tag.to_string(),
        fields,
    }
}

#[test]
fn generated_values_mirror_variants_in_order() {
    let g = derive_keyable_enum(&my_enum_decl(), &Opts { key_enum: None }).unwrap();
    assert_eq!(g.enum_ident, "MyEnum");
    assert_eq!(g.key_ident, "MyEnumKey");
    assert_eq!(g.values, vec!["A".to_string(), "B".to_string(), "C".to_string()]);
    assert_eq!(g.arms.len(), 3);
    for (i, arm) in g.arms.iter().enumerate() {
        assert_eq!(arm.variant, g.values[i]);
    }
    for i in 0..g.values.len() {
        for j in 0..g.values.len() {
            if i != j {
                assert_ne!(g.values[i], g.values[j]);
            }
        }
    }
}

#[test]
fn default_name_appends_fixed_suffix() {
    let name = key_enum_ident(&"MyEnum".to_string(), &Opts { key_enum: None });
    assert_eq!(name, "MyEnumKey");
}

#[test]
fn explicit_name_overrides_default() {
    let opts = Opts {
        key_enum: Some("AKey".to_string()),
    };
    let name = key_enum_ident(&"MyEnum".to_string(), &opts);
    assert_eq!(name, "AKey");

    let named = derive_keyable_enum(&my_enum_decl(), &opts).unwrap();
    let default = derive_keyable_enum(&my_enum_decl(), &Opts { key_enum: None }).unwrap();
    assert_eq!(named.key_ident, "AKey");
    assert_eq!(default.key_ident, "MyEnumKey");
    // The mapping behavior is identical under either name.
    assert_eq!(named.values, default.values);
    for tag in ["A", "B", "C"] {
        assert_eq!(
            map_to_key(&named, &value(tag, vec![])),
            map_to_key(&default, &value(tag, vec![]))
        );
    }
}

#[test]
fn mapping_ignores_field_contents() {
    let g = derive_keyable_enum(&my_enum_decl(), &Opts { key_enum: None }).unwrap();
    assert_eq!(map_to_key(&g, &value("A", vec![42])), Some(0));
    assert_eq!(map_to_key(&g, &value("A", vec![7])), Some(0));
    assert_eq!(map_to_key(&g, &value("A", vec![])), Some(0));
    assert_eq!(map_to_key(&g, &value("B", vec![1])), Some(1));
    assert_eq!(map_to_key(&g, &value("B", vec![2, 3])), Some(1));
}

#[test]
fn mapped_key_position_equals_declaration_position() {
    let g = derive_keyable_enum(&my_enum_decl(), &Opts { key_enum: None }).unwrap();
    for (i, tag) in ["A", "B", "C"].iter().enumerate() {
        let key_index = map_to_key(&g, &value(tag, vec![9])).unwrap();
        assert_eq!(key_index, i);
        let key_name = &g.values[key_index];
        assert_eq!(position_of_value(&g.values, key_name), Some(i));
    }
    assert_eq!(map_to_key(&g, &value("D", vec![])), None);
}

#[test]
fn non_enum_declarations_are_refused() {
    let record = TypeDecl {
        ident: "MyStruct".to_string(),
        data: TypeData::Struct,
    };
    let untagged = TypeDecl {
        ident: "MyUnion".to_string(),
        data: TypeData::Union,
    };
    let opts = Opts { key_enum: None };
    assert!(matches!(
        derive_keyable_enum(&record, &opts),
        Err(DeriveError::NotAnEnum)
    ));
    assert!(matches!(
        derive_keyable_enum(&untagged, &opts),
        Err(DeriveError::NotAnEnum)
    ));
}

#[test]
fn rendered_text_is_exact() {
    let opts = Opts {
        key_enum: Some("AKey".to_string()),
    };
    let g = derive_keyable_enum(&my_enum_decl(), &opts).unwrap();
    let expected = "impl ::enum_key::KeyableEnum for MyEnum {\n    type Key = AKey;\n\n    fn get_enum_key(&self) -> Self::Key {\n        match self {\n            Self::A(..) => Self::Key::A,\n            Self::B { .. } => Self::Key::B,\n            Self::C => Self::Key::C,\n        }\n    }\n}\n\n#[derive(Debug, Copy, Clone, PartialEq, Eq, PartialOrd, Ord, Hash)]\npub enum AKey {\n    A,\n    B,\n    C,\n}\n\nimpl ::enum_key::EnumKey for AKey {\n    type Enum = MyEnum;\n\n    const VALUES: &'static [Self] = &[Self::A, Self::B, Self::C];\n}\n";
    assert_eq!(render(&g), expected);
}

#[test]
fn rendering_an_empty_variant_list() {
    let decl = TypeDecl {
        ident: "Never".to_string(),
        data: TypeData::Enum(vec![]),
    };
    let g = derive_keyable_enum(&decl, &Opts { key_enum: None }).unwrap();
    assert_eq!(g.values.len(), 0);
    let text = render(&g);
    assert!(text.contains("pub enum NeverKey {\n}\n"));
    assert!(text.contains("const VALUES: &'static [Self] = &[];"));
}
