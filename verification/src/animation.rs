//! Looking up a character's animation by its name.

use vstd::prelude::*;

verus! {

/// The position of the first of `names` that is `anim_name`, if any.
pub fn find_animation(names: &Vec<String>, anim_name: &str) -> (r: Option<usize>)
    ensures
        match r {
            Some(i) => i < names@.len() && names@[i as int]@ == anim_name@ && forall|j: int|
                0 <= j < i ==> names@[j]@ != anim_name@,
            None => forall|j: int| 0 <= j < names@.len() ==> names@[j]@ != anim_name@,
        },
{
    let wanted = anim_name.to_owned();
    let mut i: usize = 0;
    while i < names.len()
        invariant
            i <= names@.len(),
            wanted@ == anim_name@,
            forall|j: int| 0 <= j < i ==> names@[j]@ != anim_name@,
        decreases names@.len() - i,
    {
        if names[i] == wanted {
            return Some(i);
        }
        i = i + 1;
    }
    None
}

} // verus!
