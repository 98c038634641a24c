//! Text emission: turns the structured companion description into the three
//! emitted definitions as source text — the mapping impl for the original
//! type, the key enumeration, and the key impl with its constant value list.
//! Every function's contract gives the emitted text exactly, character for
//! character.

use vstd::prelude::*;
use crate::generate::{KeyTypeDef, MatchArm};
use crate::shape::FieldShape;

verus! {

/// The pattern suffix that wildcards a variant's fields: nothing for a
/// fieldless variant, `(..)` for positional fields, `{ .. }` for named
/// fields. No field is ever bound, so field contents cannot reach the arm's
/// result.
pub open spec fn pattern_text(shape: FieldShape) -> Seq<char> {
    match shape {
        FieldShape::Fieldless => Seq::<char>::empty(),
        FieldShape::Positional => "(..)"@,
        FieldShape::Named => " { .. }"@,
    }
}

/// One emitted match arm: the variant tag, fields wildcarded, yielding the
/// key value of the same name.
pub open spec fn arm_text(arm: MatchArm) -> Seq<char> {
    "            Self::"@ + arm.variant@ + pattern_text(arm.shape) + " => Self::Key::"@
        + arm.variant@ + ",\n"@
}

/// All match arms, in declaration order.
pub open spec fn arms_text(arms: Seq<MatchArm>) -> Seq<char>
    decreases arms.len(),
{
    if arms.len() == 0 {
        Seq::<char>::empty()
    } else {
        arm_text(arms[0]) + arms_text(arms.drop_first())
    }
}

proof fn lemma_arms_text_push(arms: Seq<MatchArm>, a: MatchArm)
    ensures
        arms_text(arms.push(a)) == arms_text(arms) + arm_text(a),
    decreases arms.len(),
{
    let p = arms.push(a);
    if arms.len() == 0 {
        assert(p.drop_first() =~= Seq::<MatchArm>::empty());
        assert(arms_text(Seq::<MatchArm>::empty()) == Seq::<char>::empty());
        assert(arms_text(p) =~= arms_text(arms) + arm_text(a));
    } else {
        assert(p[0] == arms[0]);
        assert(p.drop_first() =~= arms.drop_first().push(a));
        lemma_arms_text_push(arms.drop_first(), a);
        assert(arms_text(p) == arm_text(arms[0]) + arms_text(arms.drop_first().push(a)));
        assert(arms_text(arms) == arm_text(arms[0]) + arms_text(arms.drop_first()));
        assert(arms_text(p) =~= arms_text(arms) + arm_text(a));
    }
}

/// One line of the emitted key enumeration's body.
pub open spec fn variant_line_text(name: Seq<char>) -> Seq<char> {
    "    "@ + name + ",\n"@
}

/// The emitted key enumeration's body, one line per key value, in order.
pub open spec fn variant_lines_text(values: Seq<String>) -> Seq<char>
    decreases values.len(),
{
    if values.len() == 0 {
        Seq::<char>::empty()
    } else {
        variant_line_text(values[0]@) + variant_lines_text(values.drop_first())
    }
}

proof fn lemma_variant_lines_text_push(values: Seq<String>, v: String)
    ensures
        variant_lines_text(values.push(v)) == variant_lines_text(values) + variant_line_text(v@),
    decreases values.len(),
{
    let p = values.push(v);
    if values.len() == 0 {
        assert(p.drop_first() =~= Seq::<String>::empty());
        assert(variant_lines_text(Seq::<String>::empty()) == Seq::<char>::empty());
        assert(variant_lines_text(p) =~= variant_lines_text(values) + variant_line_text(v@));
    } else {
        assert(p[0] == values[0]);
        assert(p.drop_first() =~= values.drop_first().push(v));
        lemma_variant_lines_text_push(values.drop_first(), v);
        assert(variant_lines_text(p) == variant_line_text(values[0]@) + variant_lines_text(
            values.drop_first().push(v),
        ));
        assert(variant_lines_text(values) == variant_line_text(values[0]@) + variant_lines_text(
            values.drop_first(),
        ));
        assert(variant_lines_text(p) =~= variant_lines_text(values) + variant_line_text(v@));
    }
}

/// The entries of the emitted constant list after the first, each preceded
/// by the separator.
pub open spec fn values_rest_text(values: Seq<String>) -> Seq<char>
    decreases values.len(),
{
    if values.len() == 0 {
        Seq::<char>::empty()
    } else {
        ", Self::"@ + values[0]@ + values_rest_text(values.drop_first())
    }
}

/// The body of the emitted constant list: every key value, in order,
/// separated by commas.
pub open spec fn values_list_text(values: Seq<String>) -> Seq<char> {
    if values.len() == 0 {
        Seq::<char>::empty()
    } else {
        "Self::"@ + values[0]@ + values_rest_text(values.drop_first())
    }
}

proof fn lemma_values_rest_text_push(values: Seq<String>, v: String)
    ensures
        values_rest_text(values.push(v)) == values_rest_text(values) + ", Self::"@ + v@,
    decreases values.len(),
{
    let p = values.push(v);
    if values.len() == 0 {
        assert(p.drop_first() =~= Seq::<String>::empty());
        assert(values_rest_text(Seq::<String>::empty()) == Seq::<char>::empty());
        assert(values_rest_text(p) =~= values_rest_text(values) + ", Self::"@ + v@);
    } else {
        assert(p[0] == values[0]);
        assert(p.drop_first() =~= values.drop_first().push(v));
        lemma_values_rest_text_push(values.drop_first(), v);
        assert(values_rest_text(p) == ", Self::"@ + values[0]@ + values_rest_text(
            values.drop_first().push(v),
        ));
        assert(values_rest_text(values) == ", Self::"@ + values[0]@ + values_rest_text(
            values.drop_first(),
        ));
        assert(values_rest_text(p) =~= values_rest_text(values) + ", Self::"@ + v@);
    }
}

proof fn lemma_values_list_text_push(values: Seq<String>, v: String)
    ensures
        values_list_text(values.push(v)) == (if values.len() == 0 {
            "Self::"@ + v@
        } else {
            values_list_text(values) + ", Self::"@ + v@
        }),
{
    let p = values.push(v);
    if values.len() == 0 {
        assert(p.drop_first() =~= Seq::<String>::empty());
        assert(values_rest_text(Seq::<String>::empty()) == Seq::<char>::empty());
        assert(values_list_text(p) =~= "Self::"@ + v@);
    } else {
        assert(p.drop_first() =~= values.drop_first().push(v));
        lemma_values_rest_text_push(values.drop_first(), v);
        assert(values_list_text(p) =~= values_list_text(values) + ", Self::"@ + v@);
    }
}

/// The emitted impl that gives the original type its key mapping.
pub open spec fn impl_keyable_text(g: KeyTypeDef) -> Seq<char> {
    "impl ::enum_key::KeyableEnum for "@ + g.enum_ident@ + " {\n    type Key = "@ + g.key_ident@
        + ";\n\n    fn get_enum_key(&self) -> Self::Key {\n        match self {\n"@ + arms_text(
        g.arms@,
    ) + "        }\n    }\n}\n"@
}

/// The emitted key enumeration, one unit value per variant.
pub open spec fn key_enum_text(g: KeyTypeDef) -> Seq<char> {
    "\n#[derive(Debug, Copy, Clone, PartialEq, Eq, PartialOrd, Ord, Hash)]\npub enum "@
        + g.key_ident@ + " {\n"@ + variant_lines_text(g.values@) + "}\n"@
}

/// The emitted impl that marks the key enumeration as a key type and fixes
/// its ordered constant list of all values.
pub open spec fn impl_enum_key_text(g: KeyTypeDef) -> Seq<char> {
    "\nimpl ::enum_key::EnumKey for "@ + g.key_ident@ + " {\n    type Enum = "@ + g.enum_ident@
        + ";\n\n    const VALUES: &'static [Self] = &["@ + values_list_text(g.values@) + "];\n}\n"@
}

/// The whole emitted text: the mapping impl, then the key enumeration, then
/// the key impl.
pub open spec fn generated_text(g: KeyTypeDef) -> Seq<char> {
    impl_keyable_text(g) + key_enum_text(g) + impl_enum_key_text(g)
}

fn render_arms(out: &mut String, arms: &Vec<MatchArm>)
    ensures
        final(out)@ == old(out)@ + arms_text(arms@),
{
    let mut i: usize = 0;
    while i < arms.len()
        invariant
            i <= arms@.len(),
            out@ == old(out)@ + arms_text(arms@.take(i as int)),
        decreases arms@.len() - i,
    {
        out.append("            Self::");
        out.append(arms[i].variant.as_str());
        match arms[i].shape {
            FieldShape::Fieldless => {},
            FieldShape::Positional => out.append("(..)"),
            FieldShape::Named => out.append(" { .. }"),
        }
        out.append(" => Self::Key::");
        out.append(arms[i].variant.as_str());
        out.append(",\n");
        proof {
            assert(arms@.take(i + 1) =~= arms@.take(i as int).push(arms@[i as int]));
            lemma_arms_text_push(arms@.take(i as int), arms@[i as int]);
            assert(out@ =~= old(out)@ + arms_text(arms@.take(i + 1)));
        }
        i = i + 1;
    }
    proof {
        assert(arms@.take(arms@.len() as int) =~= arms@);
    }
}

fn render_variant_lines(out: &mut String, values: &Vec<String>)
    ensures
        final(out)@ == old(out)@ + variant_lines_text(values@),
{
    let mut i: usize = 0;
    while i < values.len()
        invariant
            i <= values@.len(),
            out@ == old(out)@ + variant_lines_text(values@.take(i as int)),
        decreases values@.len() - i,
    {
        out.append("    ");
        out.append(values[i].as_str());
        out.append(",\n");
        proof {
            assert(values@.take(i + 1) =~= values@.take(i as int).push(values@[i as int]));
            lemma_variant_lines_text_push(values@.take(i as int), values@[i as int]);
            assert(out@ =~= old(out)@ + variant_lines_text(values@.take(i + 1)));
        }
        i = i + 1;
    }
    proof {
        assert(values@.take(values@.len() as int) =~= values@);
    }
}

fn render_values_list(out: &mut String, values: &Vec<String>)
    ensures
        final(out)@ == old(out)@ + values_list_text(values@),
{
    let mut i: usize = 0;
    while i < values.len()
        invariant
            i <= values@.len(),
            out@ == old(out)@ + values_list_text(values@.take(i as int)),
        decreases values@.len() - i,
    {
        if i == 0 {
            out.append("Self::");
        } else {
            out.append(", Self::");
        }
        out.append(values[i].as_str());
        proof {
            assert(values@.take(i + 1) =~= values@.take(i as int).push(values@[i as int]));
            lemma_values_list_text_push(values@.take(i as int), values@[i as int]);
            assert(out@ =~= old(out)@ + values_list_text(values@.take(i + 1)));
        }
        i = i + 1;
    }
    proof {
        assert(values@.take(values@.len() as int) =~= values@);
    }
}

/// Emits the mapping impl for the original type.
pub fn render_impl_keyable(out: &mut String, g: &KeyTypeDef)
    ensures
        final(out)@ == old(out)@ + impl_keyable_text(*g),
{
    out.append("impl ::enum_key::KeyableEnum for ");
    out.append(g.enum_ident.as_str());
    out.append(" {\n    type Key = ");
    out.append(g.key_ident.as_str());
    out.append(";\n\n    fn get_enum_key(&self) -> Self::Key {\n        match self {\n");
    render_arms(out, &g.arms);
    out.append("        }\n    }\n}\n");
    proof {
        assert(out@ =~= old(out)@ + impl_keyable_text(*g));
    }
}

/// Emits the key enumeration.
pub fn render_key_enum(out: &mut String, g: &KeyTypeDef)
    ensures
        final(out)@ == old(out)@ + key_enum_text(*g),
{
    out.append("\n#[derive(Debug, Copy, Clone, PartialEq, Eq, PartialOrd, Ord, Hash)]\npub enum ");
    out.append(g.key_ident.as_str());
    out.append(" {\n");
    render_variant_lines(out, &g.values);
    out.append("}\n");
    proof {
        assert(out@ =~= old(out)@ + key_enum_text(*g));
    }
}

/// Emits the key impl with the ordered constant list of all key values.
pub fn render_impl_enum_key(out: &mut String, g: &KeyTypeDef)
    ensures
        final(out)@ == old(out)@ + impl_enum_key_text(*g),
{
    out.append("\nimpl ::enum_key::EnumKey for ");
    out.append(g.key_ident.as_str());
    out.append(" {\n    type Enum = ");
    out.append(g.enum_ident.as_str());
    out.append(";\n\n    const VALUES: &'static [Self] = &[");
    render_values_list(out, &g.values);
    out.append("];\n}\n");
    proof {
        assert(out@ =~= old(out)@ + impl_enum_key_text(*g));
    }
}

/// Emits the whole companion text for one generation: the mapping impl, the
/// key enumeration, and the key impl, in that order.
pub fn render(g: &KeyTypeDef) -> (r: String)
    ensures
        r@ == generated_text(*g),
{
    let mut out = String::new();
    render_impl_keyable(&mut out, g);
    render_key_enum(&mut out, g);
    render_impl_enum_key(&mut out, g);
    proof {
        assert(out@ =~= generated_text(*g));
    }
    out
}

} // verus!
