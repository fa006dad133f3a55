//! Animals that make a noise, used through a trait.
use vstd::prelude::*;
use vstd::string::StringExecFns;

verus! {

/// An animal that makes a noise.
pub trait Animal {
    /// The noise, as text.
    spec fn noise_text(&self) -> Seq<char>;

    fn noise(&self) -> (r: String)
        ensures
            r@ == self.noise_text(),
    ;
}

#[derive(Debug, Clone, Copy)]
pub struct Sheep {}

#[derive(Debug, Clone, Copy)]
pub struct Cow {
    pub has_milk: bool,
}

#[derive(Debug, Clone, Copy)]
pub struct Cat {
    pub is_garfield: bool,
    pub like_to_be_pet: bool,
}

#[derive(Debug, Clone, Copy)]
pub struct Cat2 {
    pub is_garfield: bool,
    pub like_to_be_pet: bool,
}

impl Animal for Sheep {
    open spec fn noise_text(&self) -> Seq<char> {
        "baaaah!"@
    }

    fn noise(&self) -> (r: String) {
        String::from_str("baaaah!")
    }
}

impl Animal for Cow {
    open spec fn noise_text(&self) -> Seq<char> {
        "mooooo!"@
    }

    fn noise(&self) -> (r: String) {
        String::from_str("mooooo!")
    }
}

impl Animal for Cat {
    open spec fn noise_text(&self) -> Seq<char> {
        "Meow!"@
    }

    fn noise(&self) -> (r: String) {
        String::from_str("Meow!")
    }
}

impl Animal for Cat2 {
    open spec fn noise_text(&self) -> Seq<char> {
        "Meow2!"@
    }

    fn noise(&self) -> (r: String) {
        String::from_str("Meow2!")
    }
}

} // verus!
