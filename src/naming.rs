//! Canonical identifiers for schema names, and the resolution of type
//! references to fully qualified identifiers.

use vstd::prelude::*;
use crate::text::{find_char, owned, str_eq};

verus! {

/// What `inflector`'s `to_snake_case` makes of a string.
pub uninterp spec fn snake_of(s: Seq<char>) -> Seq<char>;

/// What `inflector`'s `to_pascal_case` makes of a string.
pub uninterp spec fn pascal_of(s: Seq<char>) -> Seq<char>;

/// Relies on `inflector::cases::snakecase::to_snake_case`: the result
/// depends on the characters of its argument alone.
#[verifier::external_body]
fn inflect_snake(s: &str) -> (r: String)
    ensures
        r@ == snake_of(s@),
{
    inflector::cases::snakecase::to_snake_case(s)
}

/// Relies on `inflector::cases::pascalcase::to_pascal_case`: the result
/// depends on the characters of its argument alone.
#[verifier::external_body]
fn inflect_pascal(s: &str) -> (r: String)
    ensures
        r@ == pascal_of(s@),
{
    inflector::cases::pascalcase::to_pascal_case(s)
}

pub const NEGATIVE_WORD: &'static str = "Negative";

pub const TYPE_WORD: &'static str = "type";

pub const TYPE_REPLACEMENT: &'static str = "ty";

pub const OVERRIDE_WORD: &'static str = "override";

pub const OVERRIDE_REPLACEMENT: &'static str = "overridden";

pub const PATH_SEPARATOR: &'static str = "::";

/// A leading `-`, which no identifier may hold, spelled out as `Negative`.
pub open spec fn safe_chars_spec(s: Seq<char>) -> Seq<char> {
    if s.len() > 0 && s[0] == '-' {
        NEGATIVE_WORD@ + s.subrange(1, s.len() as int)
    } else {
        s
    }
}

/// The member-name form: snake case, with the two reserved words replaced.
pub open spec fn snake_case_spec(s: Seq<char>) -> Seq<char> {
    let t = snake_of(safe_chars_spec(s));
    if t == TYPE_WORD@ {
        TYPE_REPLACEMENT@
    } else if t == OVERRIDE_WORD@ {
        OVERRIDE_REPLACEMENT@
    } else {
        t
    }
}

/// The type-name form.
pub open spec fn pascal_case_spec(s: Seq<char>) -> Seq<char> {
    pascal_of(snake_of(safe_chars_spec(s)))
}

pub open spec fn qualified_spec(domain_snake: Seq<char>, item: Seq<char>) -> Seq<char> {
    PATH_SEPARATOR@ + domain_snake + PATH_SEPARATOR@ + item
}

pub open spec fn is_ascii_alnum(c: char) -> bool {
    ('a' <= c && c <= 'z') || ('A' <= c && c <= 'Z') || ('0' <= c && c <= '9')
}

pub open spec fn all_alnum(s: Seq<char>) -> bool {
    forall|i: int| 0 <= i < s.len() ==> is_ascii_alnum(s[i])
}

/// `target` is `Domain.Name`, split at position `p`.
pub open spec fn splits_at(target: Seq<char>, p: int) -> bool {
    0 < p < target.len() - 1 && target[p] == '.' && all_alnum(target.subrange(0, p))
        && all_alnum(target.subrange(p + 1, target.len() as int))
}

/// The fully qualified identifier that a reference written in domain
/// `domain_snake` resolves to.
pub open spec fn resolve_spec(domain_snake: Seq<char>, target: Seq<char>) -> Seq<char> {
    if exists|p: int| splits_at(target, p) {
        let p = choose|p: int| splits_at(target, p);
        qualified_spec(
            snake_case_spec(target.subrange(0, p)),
            pascal_case_spec(target.subrange(p + 1, target.len() as int)),
        )
    } else {
        qualified_spec(domain_snake, pascal_case_spec(target))
    }
}

/// The identifier of a type nested in a field: the parent's name followed
/// by the field's name in type-name form.
pub open spec fn combined_spec(parent: Seq<char>, field_name: Option<Seq<char>>) -> Seq<char> {
    match field_name {
        None => parent,
        Some(f) => parent + pascal_case_spec(f),
    }
}

/// Spells out a leading `-` as `Negative`.
pub fn replace_unsafe_chars(s: &str) -> (r: String)
    ensures
        r@ == safe_chars_spec(s@),
{
    let n = s.unicode_len();
    if n > 0 && s.get_char(0) == '-' {
        let mut r = owned(NEGATIVE_WORD);
        r.append(s.substring_char(1, n));
        r
    } else {
        owned(s)
    }
}

/// The member-name form of a schema name.
pub fn snake_case(s: &str) -> (r: String)
    ensures
        r@ == snake_case_spec(s@),
{
    let safe = replace_unsafe_chars(s);
    let t = inflect_snake(safe.as_str());
    if str_eq(t.as_str(), TYPE_WORD) {
        owned(TYPE_REPLACEMENT)
    } else if str_eq(t.as_str(), OVERRIDE_WORD) {
        owned(OVERRIDE_REPLACEMENT)
    } else {
        t
    }
}

/// The type-name form of a schema name.
pub fn pascal_case(s: &str) -> (r: String)
    ensures
        r@ == pascal_case_spec(s@),
{
    let safe = replace_unsafe_chars(s);
    let snake = inflect_snake(safe.as_str());
    inflect_pascal(snake.as_str())
}

/// `::{domain_snake}::{item}`
pub fn fully_qualified_ident(domain_snake: &str, item: &str) -> (r: String)
    ensures
        r@ == qualified_spec(domain_snake@, item@),
{
    let mut r = owned(PATH_SEPARATOR);
    r.append(domain_snake);
    r.append(PATH_SEPARATOR);
    r.append(item);
    r
}

/// The parent's identifier followed by the field's name in type-name form.
pub fn combine_parent_field_idents(parent: &str, field_name: Option<&str>) -> (r: String)
    ensures
        r@ == combined_spec(parent@, crate::paths::opt_str_view(field_name)),
{
    match field_name {
        None => owned(parent),
        Some(f) => {
            let mut r = owned(parent);
            let p = pascal_case(f);
            r.append(p.as_str());
            r
        },
    }
}

/// Whether the characters of `s` from `from` to `to` are all ASCII letters
/// or digits.
fn alnum_between(s: &str, from: usize, to: usize) -> (r: bool)
    requires
        from <= to <= s@.len(),
    ensures
        r == all_alnum(s@.subrange(from as int, to as int)),
{
    let mut i = from;
    while i < to
        invariant
            from <= i <= to,
            to <= s@.len(),
            forall|j: int| from <= j < i ==> is_ascii_alnum(s@[j]),
        decreases to - i,
    {
        let c = s.get_char(i);
        if !(('a' <= c && c <= 'z') || ('A' <= c && c <= 'Z') || ('0' <= c && c <= '9')) {
            assert(s@.subrange(from as int, to as int)[i - from] == c);
            return false;
        }
        i = i + 1;
    }
    assert forall|j: int| 0 <= j < to - from implies is_ascii_alnum(
        #[trigger] s@.subrange(from as int, to as int)[j],
    ) by {
        assert(s@.subrange(from as int, to as int)[j] == s@[from + j]);
    }
    true
}

proof fn lemma_split_unique(t: Seq<char>, p: int, q: int)
    requires
        splits_at(t, p),
        splits_at(t, q),
    ensures
        p == q,
{
    if p < q {
        assert(t.subrange(0, q)[p] == t[p]);
    } else if q < p {
        assert(t.subrange(0, p)[q] == t[q]);
    }
}

/// Resolves a type reference written in domain `domain_snake` to its fully
/// qualified identifier: `Domain.Name` names a type of another domain, a
/// bare name one of the same domain.
pub fn resolve_reference(domain_snake: &str, target: &str) -> (r: String)
    ensures
        r@ == resolve_spec(domain_snake@, target@),
{
    let n = target.unicode_len();
    match find_char(target, '.', 0) {
        Some(p) => {
            if 0 < p && p + 1 < n && alnum_between(target, 0, p) && alnum_between(target, p + 1, n) {
                assert(splits_at(target@, p as int));
                proof {
                    let c = choose|c: int| splits_at(target@, c);
                    lemma_split_unique(target@, c, p as int);
                }
                let d = snake_case(target.substring_char(0, p));
                let t = pascal_case(target.substring_char(p + 1, n));
                return fully_qualified_ident(d.as_str(), t.as_str());
            }
            assert forall|q: int| !splits_at(target@, q) by {
                if splits_at(target@, q) {
                    if q > p {
                        assert(target@.subrange(0, q)[p as int] == target@[p as int]);
                    } else if q == p {
                    }
                }
            }
        },
        None => {
            assert forall|q: int| !splits_at(target@, q) by {
            }
        },
    }
    let t = pascal_case(target);
    fully_qualified_ident(domain_snake, t.as_str())
}

} // verus!
