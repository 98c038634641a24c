// The companion definitions for `MyEnum` below are written out exactly as
// the generator emits them for a three-variant type with the key type name
// set to `AKey`; the generator tests check that emission character for
// character.

use enum_key::{EnumKey, KeyableEnum};

pub enum MyEnum {
    A(u8),
    B { inside: u32 },
    C,
}

impl ::enum_key::KeyableEnum for MyEnum {
    type Key = AKey;

    fn get_enum_key(&self) -> Self::Key {
        match self {
            Self::A(..) => Self::Key::A,
            Self::B { .. } => Self::Key::B,
            Self::C => Self::Key::C,
        }
    }
}

#[derive(Debug, Copy, Clone, PartialEq, Eq, PartialOrd, Ord, Hash)]
pub enum AKey {
    A,
    B,
    C,
}

impl ::enum_key::EnumKey for AKey {
    type Enum = MyEnum;

    const VALUES: &'static [Self] = &[Self::A, Self::B, Self::C];
}

#[test]
fn test_values() {
    assert_eq!(
        <MyEnum as KeyableEnum>::Key::VALUES,
        &[AKey::A, AKey::B, AKey::C],
        "VALUES should contain all key variants"
    )
}

#[test]
fn test_variant() {
    assert_eq!(
        MyEnum::A(0).get_enum_key(),
        AKey::A,
        "Variant A should have the key A"
    )
}

#[test]
fn values_are_distinct_and_ordered() {
    let values = <MyEnum as KeyableEnum>::Key::VALUES;
    assert_eq!(values.len(), 3);
    for i in 0..values.len() {
        for j in 0..values.len() {
            if i != j {
                assert_ne!(values[i], values[j]);
            }
        }
    }
}

#[test]
fn key_position_equals_declaration_position() {
    let values = <MyEnum as KeyableEnum>::Key::VALUES;
    let samples = [MyEnum::A(9), MyEnum::B { inside: 7 }, MyEnum::C];
    for (decl_pos, sample) in samples.iter().enumerate() {
        let key = sample.get_enum_key();
        let found = values.iter().position(|v| *v == key);
        assert_eq!(found, Some(decl_pos));
    }
}

#[test]
fn field_contents_do_not_affect_key() {
    assert_eq!(MyEnum::A(0).get_enum_key(), MyEnum::A(255).get_enum_key());
    assert_eq!(
        MyEnum::B { inside: 0 }.get_enum_key(),
        MyEnum::B { inside: 4_000_000 }.get_enum_key()
    );
}
