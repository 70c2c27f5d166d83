//! Animals and the sounds they make.

use vstd::prelude::*;

verus! {

/// Something that makes a sound of its own.
pub trait Animal {
    /// The sound this animal makes.
    spec fn sound(&self) -> Seq<char>;

    /// Returns the sound this animal makes.
    fn speak(&self) -> (said: &'static str)
        ensures
            said@ == self.sound(),
    ;
}

/// A dog. Every dog makes the same sound.
#[derive(Clone, Copy, Debug)]
pub struct Dog;

impl Animal for Dog {
    open spec fn sound(&self) -> Seq<char> {
        "Bhow Bhow"@
    }

    fn speak(&self) -> (said: &'static str) {
        "Bhow Bhow"
    }
}

/// Lets a dog speak through the [`Animal`] interface and returns what it
/// said.
pub fn traits_example() -> (said: &'static str)
    ensures
        said@ == "Bhow Bhow"@,
{
    let d = Dog;
    d.speak()
}

} // verus!
