//! Which string library a sample run uses, named in snake case on the command line.
use vstd::prelude::*;
use vstd::string::StrSliceExecFns;

verus! {

/// A string library to compare.
#[derive(Debug, Clone, Copy, PartialEq, Eq, Structural)]
pub enum Lib {
    Std,
    Smol,
    Smart,
}

/// The options of a sample run.
#[derive(Debug, Clone, Copy, PartialEq, Eq, Structural)]
pub struct Sample {
    pub lib: Lib,
}

/// The name of a library: its variant in snake case.
pub open spec fn lib_name(l: Lib) -> Seq<char> {
    match l {
        Lib::Std => "std"@,
        Lib::Smol => "smol"@,
        Lib::Smart => "smart"@,
    }
}

/// Whether two texts hold the same characters.
pub fn same_text(a: &str, b: &str) -> (r: bool)
    ensures
        r == (a@ == b@),
{
    let n = a.unicode_len();
    if n != b.unicode_len() {
        return false;
    }
    let mut i: usize = 0;
    while i < n
        invariant
            n == a@.len(),
            n == b@.len(),
            i <= n,
            forall|j: int| 0 <= j < i ==> a@[j] == b@[j],
        decreases n - i,
    {
        if a.get_char(i) != b.get_char(i) {
            return false;
        }
        i = i + 1;
    }
    assert(a@ =~= b@);
    true
}

impl Lib {
    /// The name of the library.
    pub fn name(&self) -> (r: &'static str)
        ensures
            r@ == lib_name(*self),
    {
        match self {
            Lib::Std => "std",
            Lib::Smol => "smol",
            Lib::Smart => "smart",
        }
    }

    /// The library with name `s`, if there is one.
    pub fn from_name(s: &str) -> (r: Option<Lib>)
        ensures
            r matches Some(l) ==> lib_name(l) == s@,
            r is None ==> s@ != lib_name(Lib::Std) && s@ != lib_name(Lib::Smol) && s@ != lib_name(
                Lib::Smart,
            ),
    {
        if same_text(s, "std") {
            Some(Lib::Std)
        } else if same_text(s, "smol") {
            Some(Lib::Smol)
        } else if same_text(s, "smart") {
            Some(Lib::Smart)
        } else {
            None
        }
    }
}

} // verus!
