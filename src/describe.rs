//! Things that can describe themselves in words.
use vstd::prelude::*;
use vstd::string::StringExecFns;

verus! {

/// A value that can say what it is.
pub trait Describe {
    /// The text that `describe` returns.
    spec fn description(&self) -> Seq<char>;

    /// A sentence about the value.
    fn describe(&self) -> (r: String)
        ensures
            r@ == self.description(),
    ;

    /// A stock answer, the same for every value.
    fn describe_with_default(&self) -> (r: String)
        ensures
            r@ == "Dunno!"@,
    {
        String::from_str("Dunno!")
    }
}

/// An animal with a name and a kind.
#[derive(Debug)]
pub struct Animal {
    pub name: String,
    pub class: String,
}

impl Describe for Animal {
    open spec fn description(&self) -> Seq<char> {
        "Animal: "@ + self.name@ + ", class: "@ + self.class@
    }

    fn describe(&self) -> (r: String) {
        let mut s = String::from_str("Animal: ");
        s.append(self.name.as_str());
        s.append(", class: ");
        s.append(self.class.as_str());
        s
    }
}

/// The description of `entity`.
pub fn omni_describe<T: Describe>(entity: &T) -> (r: String)
    ensures
        r@ == entity.description(),
{
    entity.describe()
}

/// The description of `entity`.
pub fn omni_describe_2<T: Describe>(entity: &T) -> (r: String)
    ensures
        r@ == entity.description(),
{
    entity.describe()
}

/// The description of `entity`, which can also be debug-printed.
pub fn omni_describe_3<T: Describe + std::fmt::Debug>(entity: &T) -> (r: String)
    ensures
        r@ == entity.description(),
{
    entity.describe()
}

/// Both descriptions, one per line: `entity: ...` then `entity2: ...`.
pub fn omni_describe_4<T: Describe + std::fmt::Debug, U: Describe>(entity: &T, entity2: &U) -> (r:
    String)
    ensures
        r@ == "entity: "@ + entity.description() + "\nentity2: "@ + entity2.description(),
{
    let first = entity.describe();
    let second = entity2.describe();
    let mut s = String::from_str("entity: ");
    s.append(first.as_str());
    s.append("\nentity2: ");
    s.append(second.as_str());
    s
}

/// Garfield the cat.
pub fn make_lazy_cat() -> (r: Animal)
    ensures
        r.name@ == "garfield"@,
        r.class@ == "cat"@,
{
    Animal { name: String::from_str("garfield"), class: String::from_str("cat") }
}

} // verus!
