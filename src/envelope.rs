//! A letter carried in an envelope, and taken out again.
use vstd::prelude::*;

verus! {

/// A letter: what kind it is, its message, and who sends it to whom.
#[derive(Debug, Clone, PartialEq)]
pub struct Letter {
    pub typ: String,
    pub msg: String,
    pub from: String,
    pub to: String,
}

/// An envelope of some kind with a letter inside.
#[derive(Debug)]
pub struct Envelop {
    pub typ: String,
    pub data: Letter,
}

impl Envelop {
    pub fn new(typ: String, data: Letter) -> (r: Self)
        ensures
            r.typ == typ,
            r.data == data,
    {
        Envelop { typ, data }
    }
}

impl From<Envelop> for Letter {
    /// The letter inside the envelope.
    fn from(e: Envelop) -> Letter {
        e.data
    }
}

impl vstd::std_specs::convert::FromSpecImpl<Envelop> for Letter {
    open spec fn obeys_from_spec() -> bool {
        true
    }

    open spec fn from_spec(v: Envelop) -> Letter {
        v.data
    }
}

} // verus!
