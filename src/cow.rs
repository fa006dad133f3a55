//! Text that is borrowed where it can be and owned where it must be, and a slice
//! made non-negative in place.
use vstd::prelude::*;
use std::borrow::Cow;
use vstd::string::StringExecFns;
use crate::text::{decimal, decimal_text};

verus! {

/// A token whose text is borrowed or owned.
#[derive(Debug)]
pub struct Token<'a> {
    pub raw: Cow<'a, str>,
}

impl<'a> Token<'a> {
    /// A token that borrows `raw`.
    pub fn new(raw: &'a str) -> (r: Self)
        ensures
            r.raw@ == raw@,
            r.raw is Borrowed,
    {
        Self { raw: Cow::Borrowed(raw) }
    }

    /// A token that owns `raw`.
    pub fn owned(raw: String) -> (r: Self)
        ensures
            r.raw@ == raw@,
            r.raw is Owned,
    {
        Self { raw: Cow::Owned(raw) }
    }
}

/// The absolute value of `v`.
pub open spec fn abs(v: int) -> int {
    if v < 0 {
        -v
    } else {
        v
    }
}

/// Replaces each value by its absolute value.
pub fn abs_all(input: &mut Vec<i32>)
    requires
        forall|i: int| 0 <= i < old(input)@.len() ==> old(input)@[i] != i32::MIN,
    ensures
        final(input)@.len() == old(input)@.len(),
        forall|i: int| 0 <= i < old(input)@.len() ==> final(input)@[i] == abs(old(input)@[i] as int),
{
    let n = input.len();
    for i in 0..n
        invariant
            n == input@.len(),
            n == old(input)@.len(),
            forall|j: int| 0 <= j < n ==> old(input)@[j] != i32::MIN,
            forall|j: int| 0 <= j < i ==> input@[j] == abs(old(input)@[j] as int),
            forall|j: int| i <= j < n ==> input@[j] == old(input)@[j],
    {
        let v = input[i];
        if v < 0 {
            input.set(i, -v);
        }
    }
}

/// How many items are left, in words: borrowed text for none or one, owned text
/// with the number otherwise.
pub fn how_many_items(count: usize) -> (r: Cow<'static, str>)
    ensures
        count == 0 ==> r@ == "No more items"@ && r is Borrowed,
        count == 1 ==> r@ == "Last item available"@ && r is Borrowed,
        count > 1 ==> r@ == decimal_text(count as nat) + " items remaining"@ && r is Owned,
{
    if count == 0 {
        Cow::Borrowed("No more items")
    } else if count == 1 {
        Cow::Borrowed("Last item available")
    } else {
        let mut s = decimal(count as u64);
        s.append(" items remaining");
        Cow::Owned(s)
    }
}

/// Whether `s` ends with `suffix`.
pub open spec fn has_suffix(s: Seq<char>, suffix: Seq<char>) -> bool {
    suffix.len() <= s.len() && s.subrange(s.len() - suffix.len(), s.len() as int) == suffix
}

/// `s` with every match of `pat` replaced by `to`, matches taken from the left and not
/// overlapping.
pub open spec fn replace_all(s: Seq<char>, pat: Seq<char>, to: Seq<char>) -> Seq<char>
    decreases s.len(),
{
    if pat.len() == 0 || s.len() < pat.len() {
        s
    } else if s.subrange(0, pat.len() as int) == pat {
        to + replace_all(s.subrange(pat.len() as int, s.len() as int), pat, to)
    } else {
        seq![s[0]] + replace_all(s.drop_first(), pat, to)
    }
}

/// Relies on `str::ends_with`: whether the text ends with the given suffix.
#[verifier::external_body]
fn ends_with(s: &str, suffix: &str) -> (r: bool)
    ensures
        r == has_suffix(s@, suffix@),
{
    s.ends_with(suffix)
}

/// Relies on `str::replace` with a non-empty pattern: every match, from the left and
/// without overlap, replaced.
#[verifier::external_body]
fn replace(s: &str, pat: &str, to: &str) -> (r: String)
    requires
        pat@.len() > 0,
    ensures
        r@ == replace_all(s@, pat@, to@),
{
    s.replace(pat, to)
}

/// A `.txt` file name with `.txt` replaced by `.md` (as an owned copy); any other name
/// borrowed as it is.
pub fn replace_txt_ext_to_md_ext(s: &str) -> (r: Cow<'_, str>)
    ensures
        has_suffix(s@, ".txt"@) ==> r@ == replace_all(s@, ".txt"@, ".md"@) && r is Owned,
        !has_suffix(s@, ".txt"@) ==> r@ == s@ && r is Borrowed,
{
    if ends_with(s, ".txt") {
        proof {
            reveal_strlit(".txt");
        }
        Cow::Owned(replace(s, ".txt", ".md"))
    } else {
        Cow::Borrowed(s)
    }
}

} // verus!
