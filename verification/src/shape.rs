//! The shape of a type declaration, as the generator sees it: a name and,
//! for a variant type, an ordered list of variants, each with a name and a
//! field shape. Field contents are never inspected, so a variant carries no
//! per-field detail beyond the shape of its field list.

use vstd::prelude::*;

verus! {

/// The field shape of one variant: no fields at all, positional (unnamed)
/// fields, or named fields.
#[derive(Clone, Copy, PartialEq, Eq, Structural)]
pub enum FieldShape {
    Fieldless,
    Positional,
    Named,
}

/// One variant of a variant type: its name and the shape of its fields.
pub struct VariantDef {
    pub ident: String,
    pub shape: FieldShape,
}

/// The body of a type declaration: a variant type, a plain record type, or
/// an untagged union. Only variant types are accepted by the generator.
pub enum TypeData {
    Enum(Vec<VariantDef>),
    Struct,
    Union,
}

/// A type declaration: a name and a body.
pub struct TypeDecl {
    pub ident: String,
    pub data: TypeData,
}

/// The recognized configuration options: an optional name for the generated
/// key type. When absent, the key type's name is derived from the original
/// type's name.
pub struct Opts {
    pub key_enum: Option<String>,
}

/// The variants of a declaration, as a sequence; meaningful only when the
/// declaration is a variant type.
pub open spec fn variants_of(decl: TypeDecl) -> Seq<VariantDef> {
    decl.data->Enum_0@
}

/// Variant names are unique within a type declaration. The host language
/// enforces this of every real declaration; the generator's guarantees about
/// key distinctness and positions assume it.
pub open spec fn distinct_variant_names(vs: Seq<VariantDef>) -> bool {
    forall|i: int, j: int| 0 <= i < j < vs.len() ==> vs[i].ident@ != vs[j].ident@
}

} // verus!
