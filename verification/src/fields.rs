use vstd::prelude::*;

verus! {

use crate::errors::FieldName;

/// The value bound to the first occurrence of `name` in the map, if any.
pub open spec fn spec_field_get(m: Seq<(FieldName, u8)>, name: FieldName) -> Option<u8>
    decreases m.len(),
{
    if m.len() == 0 {
        None
    } else if m[0].0 == name {
        Some(m[0].1)
    } else {
        spec_field_get(m.drop_first(), name)
    }
}

/// Looks `name` up in a named-field map; the first binding wins.
pub fn field_get(m: &Vec<(FieldName, u8)>, name: FieldName) -> (r: Option<u8>)
    ensures
        r == spec_field_get(m@, name),
{
    let mut i: usize = 0;
    proof {
        assert(m@.skip(0) =~= m@);
    }
    while i < m.len()
        invariant
            i <= m@.len(),
            spec_field_get(m@, name) == spec_field_get(m@.skip(i as int), name),
        decreases m@.len() - i,
    {
        if m[i].0 == name {
            assert(m@.skip(i as int)[0] == m@[i as int]);
            return Some(m[i].1);
        }
        proof {
            assert(m@.skip(i as int)[0] == m@[i as int]);
            assert(m@.skip(i as int).drop_first() =~= m@.skip(i + 1));
        }
        i = i + 1;
    }
    None
}

} // verus!
