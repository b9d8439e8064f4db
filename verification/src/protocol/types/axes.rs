use crate::host::{lookup, PropertyView};
use vstd::prelude::*;

verus! {

/// The names of the three axes differ from one another.
pub proof fn lemma_axes_differ()
    ensures
        "x"@ != "y"@,
        "x"@ != "z"@,
        "y"@ != "z"@,
{
    reveal_strlit("x");
    reveal_strlit("y");
    reveal_strlit("z");
    assert("x"@[0] == 'x');
    assert("y"@[0] == 'y');
}

/// What `lookup` finds in a list of at most three properties.
pub proof fn lemma_lookup_in_encoding(object: Seq<PropertyView>, name: Seq<char>)
    requires
        object.len() <= 3,
    ensures
        lookup(object, name) == if object.len() > 0 && object[0].name == name {
            Some(object[0].value)
        } else if object.len() > 1 && object[1].name == name {
            Some(object[1].value)
        } else if object.len() > 2 && object[2].name == name {
            Some(object[2].value)
        } else {
            None
        },
{
    reveal_with_fuel(lookup, 4);
}

} // verus!
