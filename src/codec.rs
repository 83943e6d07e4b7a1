//! String conversion of generated enumerations: each variant is written as
//! its wire string, and a string is read back as the first variant with
//! that wire string.

use vstd::prelude::*;
use crate::text::str_eq;

verus! {

/// A string that names no variant: the full list of wire strings, and the
/// string given.
#[derive(Clone, Debug, PartialEq, Eq)]
pub struct ParseEnumError {
    pub expected: Vec<String>,
    pub actual: String,
}

/// The first variant whose wire string is `s`, from position `i` on.
pub open spec fn variant_from(values: Seq<String>, s: Seq<char>, i: int) -> Option<int>
    decreases values.len() - i,
{
    if i < 0 || i >= values.len() {
        None
    } else if values[i]@ == s {
        Some(i)
    } else {
        variant_from(values, s, i + 1)
    }
}

pub open spec fn variant_of(values: Seq<String>, s: Seq<char>) -> Option<int> {
    variant_from(values, s, 0)
}

/// Reads a wire string as a variant index.
pub fn parse_enum_value(values: &Vec<String>, s: &str) -> (r: Result<usize, ParseEnumError>)
    ensures
        match r {
            Ok(i) => variant_of(values@, s@) == Some(i as int),
            Err(e) => variant_of(values@, s@) is None && e.expected@ == values@ && e.actual@ == s@,
        },
{
    let mut i: usize = 0;
    while i < values.len()
        invariant
            i <= values@.len(),
            variant_of(values@, s@) == variant_from(values@, s@, i as int),
        decreases values@.len() - i,
    {
        if str_eq(values[i].as_str(), s) {
            return Ok(i);
        }
        i = i + 1;
    }
    let mut expected: Vec<String> = Vec::new();
    let mut j: usize = 0;
    while j < values.len()
        invariant
            j <= values@.len(),
            expected@ == values@.subrange(0, j as int),
        decreases values@.len() - j,
    {
        expected.push(values[j].clone());
        assert(expected@ =~= values@.subrange(0, j + 1));
        j = j + 1;
    }
    assert(values@.subrange(0, values@.len() as int) =~= values@);
    Err(ParseEnumError { expected, actual: crate::text::owned(s) })
}

/// The wire string of a variant.
pub fn format_enum_value(values: &Vec<String>, i: usize) -> (r: &str)
    requires
        i < values@.len(),
    ensures
        r@ == values@[i as int]@,
{
    values[i].as_str()
}

proof fn lemma_variant_from_finds(values: Seq<String>, s: Seq<char>, i: int, k: int)
    requires
        0 <= i <= k < values.len(),
        values[k]@ == s,
    ensures
        variant_from(values, s, i) matches Some(j) && i <= j <= k && values[j]@ == s,
    decreases k - i,
{
    if values[i]@ != s {
        lemma_variant_from_finds(values, s, i + 1, k);
    }
}

proof fn lemma_variant_from_absent(values: Seq<String>, s: Seq<char>, i: int)
    requires
        0 <= i,
        forall|k: int| i <= k < values.len() ==> values[k]@ != s,
    ensures
        variant_from(values, s, i) is None,
    decreases values.len() - i,
{
    if i < values.len() {
        lemma_variant_from_absent(values, s, i + 1);
    }
}

/// Reading a declared wire string and writing the variant gives the string
/// back; reading any other string fails, naming every declared string and
/// the string given.
pub proof fn lemma_enum_round_trip(values: Seq<String>, s: Seq<char>)
    ensures
        (exists|k: int| 0 <= k < values.len() && values[k]@ == s) ==> (variant_of(values, s) matches Some(i) && 0 <= i
            < values.len() && values[i]@ == s),
        (forall|k: int| 0 <= k < values.len() ==> values[k]@ != s) ==> variant_of(values, s) is None,
{
    if exists|k: int| 0 <= k < values.len() && values[k]@ == s {
        let k = choose|k: int| 0 <= k < values.len() && values[k]@ == s;
        lemma_variant_from_finds(values, s, 0, k);
    }
    if forall|k: int| 0 <= k < values.len() ==> values[k]@ != s {
        lemma_variant_from_absent(values, s, 0);
    }
}

} // verus!
