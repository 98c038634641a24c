//! The meaning of the generated mapping: the match emitted for a variant
//! type dispatches on the variant tag alone, wildcards every field, and
//! yields the key value of the same name. Keys are identified here by their
//! position in the generated value list.

use vstd::prelude::*;
use crate::generate::KeyTypeDef;

verus! {

/// A value of the original variant type, reduced to what the generated
/// mapping can observe: its variant tag, together with whatever field
/// contents it carries. The mapping must ignore the contents entirely.
pub struct EnumValue {
    pub tag: String,
    pub fields: Vec<u64>,
}

/// The position of the first occurrence of `name` in `names`, if any.
pub open spec fn first_index_of(names: Seq<Seq<char>>, name: Seq<char>) -> Option<int>
    decreases names.len(),
{
    if names.len() == 0 {
        Option::None
    } else if names[0] == name {
        Option::Some(0int)
    } else {
        match first_index_of(names.drop_first(), name) {
            Option::Some(i) => Option::Some(i + 1),
            Option::None => Option::None,
        }
    }
}

/// The variant names matched by the arms, in order.
pub open spec fn arm_tags(arms: Seq<crate::generate::MatchArm>) -> Seq<Seq<char>> {
    Seq::new(arms.len(), |i: int| arms[i].variant@)
}

/// The key value names of the constant list, in order.
pub open spec fn value_names(values: Seq<String>) -> Seq<Seq<char>> {
    Seq::new(values.len(), |i: int| values[i]@)
}

pub proof fn lemma_first_index_of_found(names: Seq<Seq<char>>, name: Seq<char>, i: int)
    requires
        0 <= i < names.len(),
        names[i] == name,
        forall|j: int| 0 <= j < i ==> names[j] != name,
    ensures
        first_index_of(names, name) == Option::Some(i),
    decreases i,
{
    if i == 0 {
    } else {
        assert(names[0] != name);
        assert forall|j: int| 0 <= j < i - 1 implies names.drop_first()[j] != name by {
            assert(names.drop_first()[j] == names[j + 1]);
        }
        assert(names.drop_first()[i - 1] == names[i]);
        lemma_first_index_of_found(names.drop_first(), name, i - 1);
    }
}

pub proof fn lemma_first_index_of_absent(names: Seq<Seq<char>>, name: Seq<char>)
    requires
        forall|j: int| 0 <= j < names.len() ==> names[j] != name,
    ensures
        first_index_of(names, name) is None,
    decreases names.len(),
{
    if names.len() == 0 {
    } else {
        assert forall|j: int| 0 <= j < names.drop_first().len() implies names.drop_first()[j]
            != name by {
            assert(names.drop_first()[j] == names[j + 1]);
        }
        lemma_first_index_of_absent(names.drop_first(), name);
    }
}

/// Runs the generated mapping on a value: the key of a value is the key at
/// the position of the first arm whose variant name equals the value's tag.
/// The result depends on the tag alone — the carried field contents play no
/// part, exactly as the wildcard patterns of the emitted arms demand.
pub fn map_to_key(g: &KeyTypeDef, value: &EnumValue) -> (r: Option<usize>)
    ensures
        (match r {
            Option::Some(i) => first_index_of(arm_tags(g.arms@), value.tag@) == Option::Some(
                i as int,
            ),
            Option::None => first_index_of(arm_tags(g.arms@), value.tag@) is None,
        }),
{
    let mut i: usize = 0;
    while i < g.arms.len()
        invariant
            i <= g.arms@.len(),
            forall|j: int| 0 <= j < i ==> arm_tags(g.arms@)[j] != value.tag@,
        decreases g.arms@.len() - i,
    {
        if g.arms[i].variant == value.tag {
            proof {
                lemma_first_index_of_found(arm_tags(g.arms@), value.tag@, i as int);
            }
            return Option::Some(i);
        }
        i = i + 1;
    }
    proof {
        lemma_first_index_of_absent(arm_tags(g.arms@), value.tag@);
    }
    Option::None
}

/// Locates a key value's position in the generated constant list.
pub fn position_of_value(values: &Vec<String>, key: &String) -> (r: Option<usize>)
    ensures
        (match r {
            Option::Some(i) => first_index_of(value_names(values@), key@) == Option::Some(i as int),
            Option::None => first_index_of(value_names(values@), key@) is None,
        }),
{
    let mut i: usize = 0;
    while i < values.len()
        invariant
            i <= values@.len(),
            forall|j: int| 0 <= j < i ==> value_names(values@)[j] != key@,
        decreases values@.len() - i,
    {
        if values[i].eq(key) {
            proof {
                lemma_first_index_of_found(value_names(values@), key@, i as int);
            }
            return Option::Some(i);
        }
        i = i + 1;
    }
    proof {
        lemma_first_index_of_absent(value_names(values@), key@);
    }
    Option::None
}

} // verus!
