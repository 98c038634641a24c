//! The generator core: from the shape of a variant type declaration to a
//! description of the companion key type — the key type's name, one match
//! arm per variant, and the ordered list of key values.

use vstd::prelude::*;
use crate::shape::{FieldShape, Opts, TypeData, TypeDecl, variants_of};

verus! {

/// One match arm of the generated mapping: it matches the named variant,
/// wildcards any fields according to the variant's shape, and yields the key
/// value of the same name.
pub struct MatchArm {
    pub variant: String,
    pub shape: FieldShape,
}

/// The generated companion definitions, in structured form: the original
/// type's name, the key type's name, one match arm per variant in
/// declaration order, and the ordered list of key value names.
pub struct KeyTypeDef {
    pub enum_ident: String,
    pub key_ident: String,
    pub arms: Vec<MatchArm>,
    pub values: Vec<String>,
}

/// Why a generation request is refused. A request on anything but a variant
/// type is the only refusal; nothing is ever partially generated.
#[derive(Clone, Copy, Debug, PartialEq, Eq, Structural)]
pub enum DeriveError {
    NotAnEnum,
}

/// The name of the generated key type: the configured name when one is
/// supplied, otherwise the original type's name with the fixed suffix `Key`
/// appended.
pub open spec fn spec_key_ident(enum_ident: Seq<char>, key_enum: Option<String>) -> Seq<char> {
    match key_enum {
        Option::Some(k) => k@,
        Option::None => enum_ident + "Key"@,
    }
}

/// Everything the generator guarantees of a successful generation: the key
/// type's name is fully determined by the declaration and the options, and
/// the arms and the value list both mirror the variants, name for name, in
/// declaration order.
pub open spec fn generates(decl: TypeDecl, opts: Opts, g: KeyTypeDef) -> bool {
    &&& decl.data is Enum
    &&& g.enum_ident@ == decl.ident@
    &&& g.key_ident@ == spec_key_ident(decl.ident@, opts.key_enum)
    &&& g.arms@.len() == variants_of(decl).len()
    &&& forall|i: int|
        0 <= i < g.arms@.len() ==> #[trigger] g.arms@[i].variant@ == variants_of(decl)[i].ident@
    &&& forall|i: int|
        0 <= i < g.arms@.len() ==> #[trigger] g.arms@[i].shape == variants_of(decl)[i].shape
    &&& g.values@.len() == variants_of(decl).len()
    &&& forall|i: int|
        0 <= i < g.values@.len() ==> #[trigger] g.values@[i]@ == variants_of(decl)[i].ident@
}

/// Computes the generated key type's name from the original type's name and
/// the options.
pub fn key_enum_ident(enum_ident: &String, opts: &Opts) -> (r: String)
    ensures
        r@ == spec_key_ident(enum_ident@, opts.key_enum),
{
    match &opts.key_enum {
        Option::Some(k) => k.clone(),
        Option::None => {
            let mut s = enum_ident.clone();
            s.append("Key");
            s
        },
    }
}

/// Transforms one variant type declaration into the companion key type
/// description. A declaration that is not a variant type is refused whole:
/// nothing is generated for it.
pub fn derive_keyable_enum(decl: &TypeDecl, opts: &Opts) -> (r: Result<KeyTypeDef, DeriveError>)
    ensures
        r is Ok <==> decl.data is Enum,
        r is Ok ==> generates(*decl, *opts, r->Ok_0),
        r is Err ==> r->Err_0 == DeriveError::NotAnEnum,
{
    let variants: &Vec<crate::shape::VariantDef> = match &decl.data {
        TypeData::Enum(vs) => vs,
        TypeData::Struct => {
            return Result::Err(DeriveError::NotAnEnum);
        },
        TypeData::Union => {
            return Result::Err(DeriveError::NotAnEnum);
        },
    };
    let key_ident = key_enum_ident(&decl.ident, opts);
    let mut arms: Vec<MatchArm> = Vec::new();
    let mut values: Vec<String> = Vec::new();
    let mut i: usize = 0;
    while i < variants.len()
        invariant
            i <= variants.len(),
            variants@ == variants_of(*decl),
            arms@.len() == i,
            forall|j: int| 0 <= j < i ==> #[trigger] arms@[j].variant@ == variants@[j].ident@,
            forall|j: int| 0 <= j < i ==> #[trigger] arms@[j].shape == variants@[j].shape,
            values@.len() == i,
            forall|j: int| 0 <= j < i ==> #[trigger] values@[j]@ == variants@[j].ident@,
        decreases variants.len() - i,
    {
        let v = &variants[i];
        arms.push(MatchArm { variant: v.ident.clone(), shape: v.shape });
        values.push(v.ident.clone());
        i = i + 1;
    }
    Result::Ok(KeyTypeDef { enum_ident: decl.ident.clone(), key_ident, arms, values })
}

} // verus!
