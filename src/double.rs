//! Doubling the number written first in a list of words, with the ways it can fail
//! reported in several shapes.
use vstd::prelude::*;
use std::num::ParseIntError;

verus! {

#[verifier::external_type_specification]
#[verifier::external_body]
pub struct ExParseIntError(ParseIntError);

/// The words after an optional leading sign.
pub open spec fn unsigned_part(s: Seq<char>) -> Seq<char> {
    if s.len() > 0 && (s[0] == '-' || s[0] == '+') {
        s.drop_first()
    } else {
        s
    }
}

/// The value of a run of decimal digits.
pub open spec fn digits_value(s: Seq<char>) -> int
    decreases s.len(),
{
    if s.len() == 0 {
        0
    } else {
        digits_value(s.drop_last()) * 10 + (s.last() as int - '0' as int)
    }
}

/// The value that a sign and digits spell.
pub open spec fn signed_value(s: Seq<char>) -> int {
    if s.len() > 0 && s[0] == '-' {
        -digits_value(unsigned_part(s))
    } else {
        digits_value(unsigned_part(s))
    }
}

/// Whether `s` is an optional `+` or `-` followed by one or more ASCII digits, and
/// spells a value that fits in an `i32`.
pub open spec fn parses_as_i32(s: Seq<char>) -> bool {
    &&& unsigned_part(s).len() > 0
    &&& forall|i: int| 0 <= i < unsigned_part(s).len() ==> '0' <= #[trigger] unsigned_part(s)[i] <= '9'
    &&& i32::MIN <= signed_value(s) <= i32::MAX
}

/// Relies on `str::parse::<i32>` (`i32::from_str_radix` in base 10): it accepts exactly
/// an optional sign and one or more ASCII digits whose value fits, and returns that value.
#[verifier::external_body]
fn parse_i32(s: &str) -> (r: Result<i32, ParseIntError>)
    ensures
        r is Ok <==> parses_as_i32(s@),
        r is Ok ==> r->Ok_0 == signed_value(s@),
{
    s.parse::<i32>()
}

/// Whether doubling the number that `s` spells, where it spells one, fits in an `i32`.
pub open spec fn double_fits(s: Seq<char>) -> bool {
    parses_as_i32(s) ==> i32::MIN <= 2 * signed_value(s) <= i32::MAX
}

/// The first word failed to be a number, or there was no first word.
#[derive(Debug, Clone, Copy, PartialEq, Eq, Structural)]
pub struct DoubleError;

impl DoubleError {
    /// The message shown for this error.
    pub fn message(&self) -> (r: &'static str)
        ensures
            r@ == "[DoubleError] invalid first item to double"@,
    {
        "[DoubleError] invalid first item to double"
    }
}

/// There was no first word.
#[derive(Debug, Clone, Copy, PartialEq, Eq, Structural)]
pub struct EmptyVec;

impl EmptyVec {
    /// The message shown for this error.
    pub fn message(&self) -> (r: &'static str)
        ensures
            r@ == "[EmptyVec] invalid first item to double"@,
    {
        "[EmptyVec] invalid first item to double"
    }
}

/// Either way of failing, told apart.
#[derive(Debug, PartialEq, Eq)]
pub enum DoubleFirstError {
    EmptyVec(EmptyVec),
    Parse(ParseIntError),
}

/// Twice the number that the first word spells. The list must not be empty and its
/// first word must spell a number.
pub fn double_first(vec: Vec<&str>) -> (r: i32)
    requires
        vec@.len() > 0,
        parses_as_i32(vec@[0]@),
        double_fits(vec@[0]@),
    ensures
        r == 2 * signed_value(vec@[0]@),
{
    let first = vec[0];
    2 * parse_i32(first).unwrap()
}

/// Twice the first number: `None` for an empty list, the parse error where the first
/// word is no number.
pub fn double_first_2(vec: Vec<&str>) -> (r: Option<Result<i32, ParseIntError>>)
    requires
        vec@.len() > 0 ==> double_fits(vec@[0]@),
    ensures
        vec@.len() == 0 <==> r is None,
        vec@.len() > 0 ==> (r->Some_0 is Ok <==> parses_as_i32(vec@[0]@)),
        vec@.len() > 0 && parses_as_i32(vec@[0]@) ==> r->Some_0->Ok_0 == 2 * signed_value(
            vec@[0]@,
        ),
{
    if vec.len() == 0 {
        return None;
    }
    let first = vec[0];
    match parse_i32(first) {
        Ok(n) => Some(Ok(2 * n)),
        Err(e) => Some(Err(e)),
    }
}

/// Twice the first number: `Ok(None)` for an empty list, the parse error where the
/// first word is no number.
pub fn double_first_3(vec: Vec<&str>) -> (r: Result<Option<i32>, ParseIntError>)
    requires
        vec@.len() > 0 ==> double_fits(vec@[0]@),
    ensures
        vec@.len() == 0 ==> r == Ok::<Option<i32>, ParseIntError>(None),
        vec@.len() > 0 ==> (r is Ok <==> parses_as_i32(vec@[0]@)),
        vec@.len() > 0 && parses_as_i32(vec@[0]@) ==> r->Ok_0 is Some && r->Ok_0->Some_0 == 2
            * signed_value(vec@[0]@),
{
    if vec.len() == 0 {
        return Ok(None);
    }
    let first = vec[0];
    match parse_i32(first) {
        Ok(n) => Ok(Some(2 * n)),
        Err(e) => Err(e),
    }
}

/// Twice the first number, or `DoubleError` for an empty list or a first word that is
/// no number.
pub fn double_first_4(vec: Vec<&str>) -> (r: Result<i32, DoubleError>)
    requires
        vec@.len() > 0 ==> double_fits(vec@[0]@),
    ensures
        vec@.len() == 0 || !parses_as_i32(vec@[0]@) <==> r == Err::<i32, DoubleError>(DoubleError),
        vec@.len() > 0 && parses_as_i32(vec@[0]@) ==> r == Ok::<i32, DoubleError>(
            (2 * signed_value(vec@[0]@)) as i32,
        ),
{
    if vec.len() == 0 {
        return Err(DoubleError);
    }
    let first = vec[0];
    match parse_i32(first) {
        Ok(n) => Ok(2 * n),
        Err(_) => Err(DoubleError),
    }
}

/// Twice the first number, or which way it failed: `EmptyVec` for an empty list, the
/// parse error where the first word is no number.
pub fn double_first_5(vec: Vec<&str>) -> (r: Result<i32, DoubleFirstError>)
    requires
        vec@.len() > 0 ==> double_fits(vec@[0]@),
    ensures
        vec@.len() == 0 <==> r == Err::<i32, DoubleFirstError>(
            DoubleFirstError::EmptyVec(EmptyVec),
        ),
        vec@.len() > 0 && !parses_as_i32(vec@[0]@) <==> r matches Err(DoubleFirstError::Parse(_)),
        vec@.len() > 0 && parses_as_i32(vec@[0]@) ==> r is Ok && r->Ok_0 == 2 * signed_value(
            vec@[0]@,
        ),
{
    if vec.len() == 0 {
        return Err(DoubleFirstError::EmptyVec(EmptyVec));
    }
    let first = vec[0];
    match parse_i32(first) {
        Ok(n) => Ok(2 * n),
        Err(e) => Err(DoubleFirstError::Parse(e)),
    }
}

/// As `double_first_5`, written with early returns for each failure.
pub fn double_first_5_2(vec: Vec<&str>) -> (r: Result<i32, DoubleFirstError>)
    requires
        vec@.len() > 0 ==> double_fits(vec@[0]@),
    ensures
        vec@.len() == 0 <==> r == Err::<i32, DoubleFirstError>(
            DoubleFirstError::EmptyVec(EmptyVec),
        ),
        vec@.len() > 0 && !parses_as_i32(vec@[0]@) <==> r matches Err(DoubleFirstError::Parse(_)),
        vec@.len() > 0 && parses_as_i32(vec@[0]@) ==> r is Ok && r->Ok_0 == 2 * signed_value(
            vec@[0]@,
        ),
{
    if vec.len() == 0 {
        return Err(DoubleFirstError::EmptyVec(EmptyVec));
    }
    let first = vec[0];
    let parsed = match parse_i32(first) {
        Ok(n) => n,
        Err(e) => return Err(DoubleFirstError::Parse(e)),
    };
    Ok(2 * parsed)
}

} // verus!
