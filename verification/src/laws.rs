//! The guarantees that hold of every successful generation, stated over the
//! generator's own contract (`generates`) and proved once and for all.

use vstd::prelude::*;
use crate::generate::{KeyTypeDef, generates};
use crate::mapping::{
    EnumValue, arm_tags, first_index_of, lemma_first_index_of_found, value_names,
};
use crate::shape::{Opts, TypeDecl, distinct_variant_names, variants_of};

verus! {

/// Law: for a variant type with N variants, the generated constant list has
/// length N and no duplicate entries, so the key type has exactly N
/// distinct values.
pub proof fn lemma_key_values_distinct(decl: TypeDecl, opts: Opts, g: KeyTypeDef)
    requires
        generates(decl, opts, g),
        distinct_variant_names(variants_of(decl)),
    ensures
        g.values@.len() == variants_of(decl).len(),
        forall|i: int, j: int|
            0 <= i < j < g.values@.len() ==> g.values@[i]@ != g.values@[j]@,
{
    assert forall|i: int, j: int|
        0 <= i < j < g.values@.len() implies g.values@[i]@ != g.values@[j]@ by {
        assert(g.values@[i]@ == variants_of(decl)[i].ident@);
        assert(g.values@[j]@ == variants_of(decl)[j].ident@);
    }
}

/// Law: mapping a value to its key and then locating that key's position in
/// the constant list yields the declaration position of the value's
/// variant. The arm matched for the variant declared at position `i` is arm
/// `i`, and the key value named there sits at position `i` of the list.
pub proof fn lemma_key_position_matches_declaration(decl: TypeDecl, opts: Opts, g: KeyTypeDef)
    requires
        generates(decl, opts, g),
        distinct_variant_names(variants_of(decl)),
    ensures
        forall|i: int|
            0 <= i < variants_of(decl).len() ==> first_index_of(
                arm_tags(g.arms@),
                #[trigger] variants_of(decl)[i].ident@,
            ) == Option::Some(i),
        forall|i: int|
            0 <= i < variants_of(decl).len() ==> first_index_of(
                value_names(g.values@),
                #[trigger] variants_of(decl)[i].ident@,
            ) == Option::Some(i),
{
    assert forall|i: int| 0 <= i < variants_of(decl).len() implies first_index_of(
        arm_tags(g.arms@),
        #[trigger] variants_of(decl)[i].ident@,
    ) == Option::Some(i) && first_index_of(
        value_names(g.values@),
        variants_of(decl)[i].ident@,
    ) == Option::Some(i) by {
        let name = variants_of(decl)[i].ident@;
        assert forall|j: int| 0 <= j < i implies arm_tags(g.arms@)[j] != name by {
            assert(g.arms@[j].variant@ == variants_of(decl)[j].ident@);
        }
        assert forall|j: int| 0 <= j < i implies value_names(g.values@)[j] != name by {
            assert(g.values@[j]@ == variants_of(decl)[j].ident@);
        }
        assert(arm_tags(g.arms@)[i] == name);
        assert(value_names(g.values@)[i] == name);
        lemma_first_index_of_found(arm_tags(g.arms@), name, i);
        lemma_first_index_of_found(value_names(g.values@), name, i);
    }
}

/// Law: field contents never affect the mapping. The mapping of a value is
/// a function of its variant tag alone, so two values of the same variant
/// with different field contents map to the identical key.
pub proof fn lemma_fields_never_affect_key(g: KeyTypeDef, v1: EnumValue, v2: EnumValue)
    requires
        v1.tag@ == v2.tag@,
    ensures
        first_index_of(arm_tags(g.arms@), v1.tag@) == first_index_of(arm_tags(g.arms@), v2.tag@),
{
}

} // verus!
