//! A model of JSON values, and their text.
//!
//! Objects keep their members in order; where a key occurs twice, lookups
//! see the first occurrence. Decoding text into values is left to the
//! caller; encoding writes the framing here and quotes strings through
//! `serde_json`.

use vstd::prelude::*;
use crate::text::str_eq;

verus! {

/// A JSON value. Non-negative integers are `UInt`, negative ones `NegInt`;
/// a number with a fraction or an exponent is kept as its text.
#[derive(Debug, PartialEq)]
pub enum JsonValue {
    Null,
    Bool(bool),
    UInt(u64),
    NegInt(i64),
    Float(String),
    Str(String),
    Array(Vec<JsonValue>),
    Object(Vec<(String, JsonValue)>),
}

/// What `serde_json` writes for a JSON string holding `s`: the characters
/// between double quotes, with escapes where JSON needs them.
pub uninterp spec fn quoted_of(s: Seq<char>) -> Seq<char>;

/// Relies on `serde_json::Value`'s `Display` for a string value: it writes
/// the JSON text of that string, which depends on its characters alone.
#[verifier::external_body]
fn json_quote(s: &str) -> (r: String)
    ensures
        r@ == quoted_of(s@),
{
    serde_json::Value::String(String::from(s)).to_string()
}

/// The decimal digit for `d` < 10.
pub open spec fn digit_char(d: nat) -> char {
    if d == 0 {
        '0'
    } else if d == 1 {
        '1'
    } else if d == 2 {
        '2'
    } else if d == 3 {
        '3'
    } else if d == 4 {
        '4'
    } else if d == 5 {
        '5'
    } else if d == 6 {
        '6'
    } else if d == 7 {
        '7'
    } else if d == 8 {
        '8'
    } else {
        '9'
    }
}

/// The decimal text of `n`, without leading zeros.
pub open spec fn decimal(n: nat) -> Seq<char>
    decreases n,
{
    if n < 10 {
        seq![digit_char(n)]
    } else {
        decimal(n / 10).push(digit_char(n % 10))
    }
}

fn digit_text(d: u64) -> (r: &'static str)
    requires
        d < 10,
    ensures
        r@ == seq![digit_char(d as nat)],
{
    proof {
        reveal_strlit("0");
        reveal_strlit("1");
        reveal_strlit("2");
        reveal_strlit("3");
        reveal_strlit("4");
        reveal_strlit("5");
        reveal_strlit("6");
        reveal_strlit("7");
        reveal_strlit("8");
        reveal_strlit("9");
    }
    let r = if d == 0 {
        "0"
    } else if d == 1 {
        "1"
    } else if d == 2 {
        "2"
    } else if d == 3 {
        "3"
    } else if d == 4 {
        "4"
    } else if d == 5 {
        "5"
    } else if d == 6 {
        "6"
    } else if d == 7 {
        "7"
    } else if d == 8 {
        "8"
    } else {
        "9"
    };
    assert(r@ =~= seq![digit_char(d as nat)]);
    r
}

/// Appends the decimal text of `n`.
pub fn write_decimal(n: u64, out: &mut String)
    ensures
        final(out)@ == old(out)@ + decimal(n as nat),
    decreases n,
{
    if n < 10 {
        out.append(digit_text(n));
    } else {
        write_decimal(n / 10, out);
        out.append(digit_text(n % 10));
        assert(old(out)@ + decimal(n as nat) =~= old(out)@ + decimal((n / 10) as nat) + seq![digit_char((n % 10) as nat)]);
    }
}

/// The text of a signed integer.
pub open spec fn signed_decimal(n: i64) -> Seq<char> {
    if n < 0 {
        "-"@ + decimal((-(n as int)) as nat)
    } else {
        decimal(n as nat)
    }
}

/// Appends the text of a signed integer.
pub fn write_signed(n: i64, out: &mut String)
    ensures
        final(out)@ == old(out)@ + signed_decimal(n),
{
    if n < 0 {
        out.append("-");
        let m: u64 = (-(n + 1)) as u64 + 1;
        write_decimal(m, out);
        assert(old(out)@ + signed_decimal(n) =~= old(out)@ + "-"@ + decimal(m as nat));
    } else {
        write_decimal(n as u64, out);
    }
}

/// The first member of `members` under `key`.
pub open spec fn lookup_from(members: Seq<(String, JsonValue)>, key: Seq<char>, i: int) -> Option<int>
    decreases members.len() - i,
{
    if i < 0 || i >= members.len() {
        None
    } else if members[i].0@ == key {
        Some(i)
    } else {
        lookup_from(members, key, i + 1)
    }
}

pub open spec fn lookup_index(members: Seq<(String, JsonValue)>, key: Seq<char>) -> Option<int> {
    lookup_from(members, key, 0)
}

/// The position of the first member under `key`.
pub fn find_member(members: &Vec<(String, JsonValue)>, key: &str) -> (r: Option<usize>)
    ensures
        match r {
            Some(i) => lookup_index(members@, key@) == Some(i as int),
            None => lookup_index(members@, key@) is None,
        },
{
    let mut i: usize = 0;
    while i < members.len()
        invariant
            i <= members@.len(),
            lookup_index(members@, key@) == lookup_from(members@, key@, i as int),
        decreases members@.len() - i,
    {
        if str_eq(members[i].0.as_str(), key) {
            return Some(i);
        }
        i = i + 1;
    }
    None
}

/// The JSON text of a value.
pub open spec fn json_text(v: JsonValue) -> Seq<char>
    decreases v, 0nat,
{
    match v {
        JsonValue::Null => "null"@,
        JsonValue::Bool(b) => if b {
            "true"@
        } else {
            "false"@
        },
        JsonValue::UInt(n) => decimal(n as nat),
        JsonValue::NegInt(n) => signed_decimal(n),
        JsonValue::Float(t) => t@,
        JsonValue::Str(s) => quoted_of(s@),
        JsonValue::Array(items) => "["@ + items_text(items, items@.len()) + "]"@,
        JsonValue::Object(members) => "{"@ + members_text(members, members@.len()) + "}"@,
    }
}

/// The text of the first `n` items, separated by commas.
pub open spec fn items_text(items: Vec<JsonValue>, n: nat) -> Seq<char>
    decreases items, n,
{
    if n == 0 || n > items@.len() {
        Seq::empty()
    } else if n == 1 {
        json_text(items@[0])
    } else {
        items_text(items, (n - 1) as nat) + ","@ + json_text(items@[n - 1])
    }
}

/// The text of the first `n` members, separated by commas.
pub open spec fn members_text(members: Vec<(String, JsonValue)>, n: nat) -> Seq<char>
    decreases members, n,
{
    if n == 0 || n > members@.len() {
        Seq::empty()
    } else if n == 1 {
        quoted_of(members@[0].0@) + ":"@ + json_text(members@[0].1)
    } else {
        members_text(members, (n - 1) as nat) + ","@ + quoted_of(members@[n - 1].0@) + ":"@ + json_text(
            members@[n - 1].1,
        )
    }
}

/// Appends the JSON text of `v`.
pub fn write_json(v: &JsonValue, out: &mut String)
    ensures
        final(out)@ == old(out)@ + json_text(*v),
    decreases v,
{
    match v {
        JsonValue::Null => out.append("null"),
        JsonValue::Bool(b) => if *b {
            out.append("true")
        } else {
            out.append("false")
        },
        JsonValue::UInt(n) => write_decimal(*n, out),
        JsonValue::NegInt(n) => write_signed(*n, out),
        JsonValue::Float(t) => out.append(t.as_str()),
        JsonValue::Str(s) => {
            let q = json_quote(s.as_str());
            out.append(q.as_str());
        },
        JsonValue::Array(items) => {
            out.append("[");
            write_items(items, out);
            out.append("]");
            assert(old(out)@ + json_text(*v) =~= old(out)@ + "["@ + items_text(*items, items@.len()) + "]"@);
        },
        JsonValue::Object(members) => {
            out.append("{");
            write_members(members, out);
            out.append("}");
            assert(old(out)@ + json_text(*v) =~= old(out)@ + "{"@ + members_text(*members, members@.len()) + "}"@);
        },
    }
}

/// Appends the text of the items, separated by commas.
fn write_items(items: &Vec<JsonValue>, out: &mut String)
    ensures
        final(out)@ == old(out)@ + items_text(*items, items@.len()),
    decreases items,
{
    let ghost start = out@;
    let mut i: usize = 0;
    assert(start + items_text(*items, 0) =~= start);
    while i < items.len()
        invariant
            i <= items@.len(),
            out@ == start + items_text(*items, i as nat),
        decreases items@.len() - i,
    {
        if i > 0 {
            out.append(",");
        }
        write_json(&items[i], out);
        assert(start + items_text(*items, (i + 1) as nat) =~= if i == 0 {
            start + json_text(items@[0])
        } else {
            start + items_text(*items, i as nat) + ","@ + json_text(items@[i as int])
        });
        i = i + 1;
    }
}

/// Appends the text of the members, separated by commas.
fn write_members(members: &Vec<(String, JsonValue)>, out: &mut String)
    ensures
        final(out)@ == old(out)@ + members_text(*members, members@.len()),
    decreases members,
{
    let ghost start = out@;
    let mut i: usize = 0;
    assert(start + members_text(*members, 0) =~= start);
    while i < members.len()
        invariant
            i <= members@.len(),
            out@ == start + members_text(*members, i as nat),
        decreases members@.len() - i,
    {
        if i > 0 {
            out.append(",");
        }
        let q = json_quote(members[i].0.as_str());
        out.append(q.as_str());
        out.append(":");
        write_json(&members[i].1, out);
        assert(start + members_text(*members, (i + 1) as nat) =~= if i == 0 {
            start + quoted_of(members@[0].0@) + ":"@ + json_text(members@[0].1)
        } else {
            start + members_text(*members, i as nat) + ","@ + quoted_of(members@[i as int].0@) + ":"@
                + json_text(members@[i as int].1)
        });
        i = i + 1;
    }
}

/// The JSON text of a value.
pub fn to_json_string(v: &JsonValue) -> (r: String)
    ensures
        r@ == json_text(*v),
{
    let mut out = String::new();
    write_json(v, &mut out);
    assert(out@ =~= json_text(*v));
    out
}

/// A JSON value as plain values.
pub enum JsonView {
    Null,
    Bool(bool),
    UInt(u64),
    NegInt(i64),
    Float(Seq<char>),
    Str(Seq<char>),
    Array(Seq<JsonView>),
    Object(Seq<(Seq<char>, JsonView)>),
}

pub open spec fn json_view(v: JsonValue) -> JsonView
    decreases v, 0nat,
{
    match v {
        JsonValue::Null => JsonView::Null,
        JsonValue::Bool(b) => JsonView::Bool(b),
        JsonValue::UInt(n) => JsonView::UInt(n),
        JsonValue::NegInt(n) => JsonView::NegInt(n),
        JsonValue::Float(t) => JsonView::Float(t@),
        JsonValue::Str(s) => JsonView::Str(s@),
        JsonValue::Array(items) => JsonView::Array(items_view(items, items@.len())),
        JsonValue::Object(members) => JsonView::Object(members_view(members, members@.len())),
    }
}

pub open spec fn items_view(items: Vec<JsonValue>, n: nat) -> Seq<JsonView>
    decreases items, n,
{
    if n == 0 || n > items@.len() {
        Seq::empty()
    } else {
        items_view(items, (n - 1) as nat).push(json_view(items@[n - 1]))
    }
}

pub open spec fn members_view(members: Vec<(String, JsonValue)>, n: nat) -> Seq<(Seq<char>, JsonView)>
    decreases members, n,
{
    if n == 0 || n > members@.len() {
        Seq::empty()
    } else {
        members_view(members, (n - 1) as nat).push((members@[n - 1].0@, json_view(members@[n - 1].1)))
    }
}

pub open spec fn opt_json_view(v: Option<JsonValue>) -> Option<JsonView> {
    match v {
        Some(x) => Some(json_view(x)),
        None => None,
    }
}

pub open spec fn object_members(v: JsonValue) -> Seq<(Seq<char>, JsonView)> {
    match v {
        JsonValue::Object(members) => members_view(members, members@.len()),
        _ => Seq::empty(),
    }
}

/// The value of the first member under `key`.
pub open spec fn view_lookup_from(ms: Seq<(Seq<char>, JsonView)>, key: Seq<char>, i: int) -> Option<JsonView>
    decreases ms.len() - i,
{
    if i < 0 || i >= ms.len() {
        None
    } else if ms[i].0 == key {
        Some(ms[i].1)
    } else {
        view_lookup_from(ms, key, i + 1)
    }
}

pub open spec fn view_lookup(ms: Seq<(Seq<char>, JsonView)>, key: Seq<char>) -> Option<JsonView> {
    view_lookup_from(ms, key, 0)
}

/// The members' views hold the members' keys and values one for one.
pub proof fn lemma_members_view(members: Vec<(String, JsonValue)>, n: nat)
    requires
        n <= members@.len(),
    ensures
        members_view(members, n).len() == n,
        forall|i: int| 0 <= i < n ==> #[trigger] members_view(members, n)[i] == (members@[i].0@, json_view(members@[i].1)),
    decreases n,
{
    if n > 0 {
        lemma_members_view(members, (n - 1) as nat);
    }
}

pub proof fn lemma_items_view(items: Vec<JsonValue>, n: nat)
    requires
        n <= items@.len(),
    ensures
        items_view(items, n).len() == n,
        forall|i: int| 0 <= i < n ==> #[trigger] items_view(items, n)[i] == json_view(items@[i]),
    decreases n,
{
    if n > 0 {
        lemma_items_view(items, (n - 1) as nat);
    }
}

/// Lookups in the members and in their views agree.
pub proof fn lemma_lookup_agrees(members: Vec<(String, JsonValue)>, key: Seq<char>, i: int)
    requires
        0 <= i <= members@.len(),
    ensures
        match lookup_from(members@, key, i) {
            Some(k) => view_lookup_from(members_view(members, members@.len()), key, i) == Some(json_view(members@[k].1))
                && 0 <= k < members@.len(),
            None => view_lookup_from(members_view(members, members@.len()), key, i) is None,
        },
    decreases members@.len() - i,
{
    lemma_members_view(members, members@.len());
    if i < members@.len() {
        lemma_lookup_agrees(members, key, i + 1);
    }
}

/// A copy of a value.
pub fn clone_json(v: &JsonValue) -> (r: JsonValue)
    ensures
        json_view(r) == json_view(*v),
    decreases v,
{
    match v {
        JsonValue::Null => JsonValue::Null,
        JsonValue::Bool(b) => JsonValue::Bool(*b),
        JsonValue::UInt(n) => JsonValue::UInt(*n),
        JsonValue::NegInt(n) => JsonValue::NegInt(*n),
        JsonValue::Float(t) => JsonValue::Float(t.clone()),
        JsonValue::Str(s) => JsonValue::Str(s.clone()),
        JsonValue::Array(items) => JsonValue::Array(clone_items(items)),
        JsonValue::Object(members) => JsonValue::Object(clone_members(members)),
    }
}

/// A copy of a list of items.
pub fn clone_items(items: &Vec<JsonValue>) -> (r: Vec<JsonValue>)
    ensures
        items_view(r, r@.len()) == items_view(*items, items@.len()),
    decreases items,
{
    let mut out: Vec<JsonValue> = Vec::new();
    let mut i: usize = 0;
    while i < items.len()
        invariant
            i <= items@.len(),
            out@.len() == i,
            items_view(out, i as nat) == items_view(*items, i as nat),
        decreases items@.len() - i,
    {
        let c = clone_json(&items[i]);
        let ghost before = out;
        out.push(c);
        proof {
            lemma_items_view(before, i as nat);
            lemma_items_view(out, i as nat);
            assert(items_view(out, i as nat) =~= items_view(before, i as nat));
        }
        i = i + 1;
    }
    out
}

/// A copy of a list of members.
pub fn clone_members(members: &Vec<(String, JsonValue)>) -> (r: Vec<(String, JsonValue)>)
    ensures
        members_view(r, r@.len()) == members_view(*members, members@.len()),
    decreases members,
{
    let mut out: Vec<(String, JsonValue)> = Vec::new();
    let mut i: usize = 0;
    while i < members.len()
        invariant
            i <= members@.len(),
            out@.len() == i,
            members_view(out, i as nat) == members_view(*members, i as nat),
        decreases members@.len() - i,
    {
        let k = members[i].0.clone();
        let c = clone_json(&members[i].1);
        let ghost before = out;
        out.push((k, c));
        proof {
            lemma_members_view(before, i as nat);
            lemma_members_view(out, i as nat);
            assert(members_view(out, i as nat) =~= members_view(before, i as nat));
        }
        i = i + 1;
    }
    out
}

/// Values with the same view have the same text.
pub proof fn lemma_text_follows_view(a: JsonValue, b: JsonValue)
    requires
        json_view(a) == json_view(b),
    ensures
        json_text(a) == json_text(b),
    decreases a, 0nat,
{
    match (a, b) {
        (JsonValue::Array(ia), JsonValue::Array(ib)) => {
            lemma_items_view(ia, ia@.len());
            lemma_items_view(ib, ib@.len());
            assert forall|i: int| 0 <= i < ia@.len() implies json_view(#[trigger] ia@[i]) == json_view(ib@[i]) by {
                assert(items_view(ia, ia@.len())[i] == items_view(ib, ib@.len())[i]);
            }
            lemma_items_text_follows_view(ia, ib, ia@.len());
        },
        (JsonValue::Object(ma), JsonValue::Object(mb)) => {
            lemma_members_view(ma, ma@.len());
            lemma_members_view(mb, mb@.len());
            assert forall|i: int| 0 <= i < ma@.len() implies (#[trigger] ma@[i]).0@ == mb@[i].0@ && json_view(ma@[i].1)
                == json_view(mb@[i].1) by {
                assert(members_view(ma, ma@.len())[i] == members_view(mb, mb@.len())[i]);
            }
            lemma_members_text_follows_view(ma, mb, ma@.len());
        },
        _ => {},
    }
}

proof fn lemma_items_text_follows_view(ia: Vec<JsonValue>, ib: Vec<JsonValue>, n: nat)
    requires
        n <= ia@.len(),
        ia@.len() == ib@.len(),
        forall|i: int| 0 <= i < ia@.len() ==> json_view(#[trigger] ia@[i]) == json_view(ib@[i]),
    ensures
        items_text(ia, n) == items_text(ib, n),
    decreases ia, n,
{
    if n > 0 {
        lemma_items_text_follows_view(ia, ib, (n - 1) as nat);
        lemma_text_follows_view(ia@[n - 1], ib@[n - 1]);
        if n == 1 {
            lemma_text_follows_view(ia@[0], ib@[0]);
        }
    }
}

proof fn lemma_members_text_follows_view(ma: Vec<(String, JsonValue)>, mb: Vec<(String, JsonValue)>, n: nat)
    requires
        n <= ma@.len(),
        ma@.len() == mb@.len(),
        forall|i: int| 0 <= i < ma@.len() ==> (#[trigger] ma@[i]).0@ == mb@[i].0@ && json_view(ma@[i].1) == json_view(mb@[i].1),
    ensures
        members_text(ma, n) == members_text(mb, n),
    decreases ma, n,
{
    if n > 0 {
        lemma_members_text_follows_view(ma, mb, (n - 1) as nat);
        lemma_text_follows_view(ma@[n - 1].1, mb@[n - 1].1);
        if n == 1 {
            lemma_text_follows_view(ma@[0].1, mb@[0].1);
        }
    }
}

/// The text of any value with view `j`.
pub open spec fn view_text(j: JsonView) -> Seq<char> {
    json_text(choose|v: JsonValue| json_view(v) == j)
}

/// The text of a value is the text of its view.
pub proof fn lemma_view_text(v: JsonValue)
    ensures
        view_text(json_view(v)) == json_text(v),
{
    let w = choose|w: JsonValue| json_view(w) == json_view(v);
    lemma_text_follows_view(w, v);
}

/// Appends the JSON text of `v`, stated over its view.
pub fn append_json(v: &JsonValue, out: &mut String)
    ensures
        final(out)@ == old(out)@ + view_text(json_view(*v)),
{
    proof {
        lemma_view_text(*v);
    }
    write_json(v, out);
}

/// Appends a member to an object's members.
pub fn push_member(members: &mut Vec<(String, JsonValue)>, key: &str, value: JsonValue)
    ensures
        members_view(*final(members), final(members)@.len()) == members_view(*old(members), old(members)@.len()).push(
            (key@, json_view(value)),
        ),
{
    let ghost before = *members;
    members.push((crate::text::owned(key), value));
    proof {
        lemma_members_view(before, before@.len());
        lemma_members_view(*members, members@.len());
        assert(members_view(*members, members@.len()) =~= members_view(before, before@.len()).push((key@, json_view(value))));
    }
}

/// A string value.
pub fn str_value(s: &str) -> (r: JsonValue)
    ensures
        json_view(r) == JsonView::Str(s@),
{
    JsonValue::Str(crate::text::owned(s))
}

/// The text of a value laid out over lines, as `serde_json` pretty-prints
/// it: each member or item on a line of its own, indented by two spaces per
/// level below `indent`; empty arrays and objects stay `[]` and `{}`.
pub open spec fn pretty_text(v: JsonValue, indent: Seq<char>) -> Seq<char>
    decreases v, 0nat,
{
    match v {
        JsonValue::Array(items) => if items@.len() == 0 {
            "[]"@
        } else {
            "["@ + pretty_items(items, items@.len(), indent) + "\n"@ + indent + "]"@
        },
        JsonValue::Object(members) => if members@.len() == 0 {
            "{}"@
        } else {
            "{"@ + pretty_members(members, members@.len(), indent) + "\n"@ + indent + "}"@
        },
        _ => json_text(v),
    }
}

/// The separator before an item or member: a line break, after a comma
/// unless it comes first.
pub open spec fn line_sep(first: bool) -> Seq<char> {
    if first {
        "\n"@
    } else {
        ",\n"@
    }
}

pub open spec fn pretty_items(items: Vec<JsonValue>, n: nat, indent: Seq<char>) -> Seq<char>
    decreases items, n,
{
    if n == 0 || n > items@.len() {
        Seq::empty()
    } else {
        pretty_items(items, (n - 1) as nat, indent) + line_sep(n == 1) + indent + "  "@ + pretty_text(
            items@[n - 1],
            indent + "  "@,
        )
    }
}

pub open spec fn pretty_members(members: Vec<(String, JsonValue)>, n: nat, indent: Seq<char>) -> Seq<char>
    decreases members, n,
{
    if n == 0 || n > members@.len() {
        Seq::empty()
    } else {
        pretty_members(members, (n - 1) as nat, indent) + line_sep(n == 1) + indent + "  "@ + quoted_of(
            members@[n - 1].0@,
        ) + ": "@ + pretty_text(members@[n - 1].1, indent + "  "@)
    }
}

/// Appends the pretty text of `v` at indentation `indent`.
pub fn write_pretty(v: &JsonValue, indent: &str, out: &mut String)
    ensures
        final(out)@ == old(out)@ + pretty_text(*v, indent@),
    decreases v, 0nat,
{
    match v {
        JsonValue::Array(items) => {
            if items.len() == 0 {
                out.append("[]");
            } else {
                out.append("[");
                write_pretty_items(items, indent, out);
                out.append("\n");
                out.append(indent);
                out.append("]");
                assert(final(out)@ =~= old(out)@ + pretty_text(*v, indent@));
            }
        },
        JsonValue::Object(members) => {
            if members.len() == 0 {
                out.append("{}");
            } else {
                out.append("{");
                write_pretty_members(members, indent, out);
                out.append("\n");
                out.append(indent);
                out.append("}");
                assert(final(out)@ =~= old(out)@ + pretty_text(*v, indent@));
            }
        },
        _ => write_json(v, out),
    }
}

fn write_line_sep(first: bool, out: &mut String)
    ensures
        final(out)@ == old(out)@ + line_sep(first),
{
    if first {
        out.append("\n");
    } else {
        out.append(",\n");
    }
}

fn write_pretty_items(items: &Vec<JsonValue>, indent: &str, out: &mut String)
    ensures
        final(out)@ == old(out)@ + pretty_items(*items, items@.len(), indent@),
    decreases items, 0nat,
{
    let ghost start = out@;
    let mut inner = crate::text::owned(indent);
    inner.append("  ");
    let mut i: usize = 0;
    assert(start + pretty_items(*items, 0, indent@) =~= start);
    while i < items.len()
        invariant
            i <= items@.len(),
            inner@ == indent@ + "  "@,
            out@ == start + pretty_items(*items, i as nat, indent@),
        decreases items@.len() - i,
    {
        write_line_sep(i == 0, out);
        out.append(inner.as_str());
        write_pretty(&items[i], inner.as_str(), out);
        assert(start + pretty_items(*items, (i + 1) as nat, indent@) =~= start + pretty_items(*items, i as nat, indent@)
            + line_sep(i == 0) + inner@ + pretty_text(items@[i as int], inner@));
        i = i + 1;
    }
}

fn write_pretty_members(members: &Vec<(String, JsonValue)>, indent: &str, out: &mut String)
    ensures
        final(out)@ == old(out)@ + pretty_members(*members, members@.len(), indent@),
    decreases members, 0nat,
{
    let ghost start = out@;
    let mut inner = crate::text::owned(indent);
    inner.append("  ");
    let mut i: usize = 0;
    assert(start + pretty_members(*members, 0, indent@) =~= start);
    while i < members.len()
        invariant
            i <= members@.len(),
            inner@ == indent@ + "  "@,
            out@ == start + pretty_members(*members, i as nat, indent@),
        decreases members@.len() - i,
    {
        write_line_sep(i == 0, out);
        out.append(inner.as_str());
        let q = json_quote(members[i].0.as_str());
        out.append(q.as_str());
        out.append(": ");
        write_pretty(&members[i].1, inner.as_str(), out);
        assert(start + pretty_members(*members, (i + 1) as nat, indent@) =~= start + pretty_members(
            *members,
            i as nat,
            indent@,
        ) + line_sep(i == 0) + inner@ + quoted_of(members@[i as int].0@) + ": "@ + pretty_text(
            members@[i as int].1,
            inner@,
        ));
        i = i + 1;
    }
}

/// The pretty text of a value.
pub fn to_json_string_pretty(v: &JsonValue) -> (r: String)
    ensures
        r@ == pretty_text(*v, Seq::empty()),
{
    proof {
        reveal_strlit("");
    }
    let mut out = String::new();
    write_pretty(v, "", &mut out);
    assert(""@ =~= Seq::<char>::empty());
    assert(out@ =~= pretty_text(*v, Seq::empty()));
    out
}

} // verus!
