//! A dog with a name and an age.
use vstd::prelude::*;

verus! {

pub struct Dog {
    pub name: String,
    pub age: i32,
}

/// One year older.
pub fn age_dog(dog: &mut Dog)
    requires
        old(dog).age < i32::MAX,
    ensures
        final(dog).age == old(dog).age + 1,
        final(dog).name@ == old(dog).name@,
{
    dog.age = dog.age + 1;
}

} // verus!
