//! Effective deprecation status of schema nodes, and the Markdown escaping
//! of the free text that documents them.

use vstd::prelude::*;
use crate::text::{owned, starts_with, str_eq};

verus! {

/// A description that says nothing more than that the node is deprecated.
pub const BARE_DEPRECATION_TEXT: &'static str = "Deprecated.";

/// A redundant prefix dropped from a deprecation warning.
pub const DEPRECATION_PREFIX: &'static str = "Deprecated, ";

/// The stem whose presence, in any letter case, marks a description as a
/// deprecation warning.
pub const DEPRECATION_STEM_LOWER: &'static str = "deprecat";

pub const DEPRECATION_STEM_UPPER: &'static str = "DEPRECAT";

/// The characters that Markdown would read as markup.
pub open spec fn is_markdown_hazard(c: char) -> bool {
    c == '*' || c == '[' || c == ']' || c == '(' || c == ')'
}

/// `s` with a backslash before each Markdown hazard.
pub open spec fn escape_spec(s: Seq<char>) -> Seq<char>
    decreases s.len(),
{
    if s.len() == 0 {
        Seq::empty()
    } else {
        let c = s.last();
        escape_spec(s.drop_last()) + if is_markdown_hazard(c) {
            seq!['\\', c]
        } else {
            seq![c]
        }
    }
}

/// The stem stands at position `i` of `s`, in any letter case.
pub open spec fn stem_at(s: Seq<char>, i: int) -> bool {
    let n = DEPRECATION_STEM_LOWER@.len() as int;
    0 <= i && i + n <= s.len() && forall|j: int|
        0 <= j < n ==> (s[i + j] == DEPRECATION_STEM_LOWER@[j] || s[i + j] == DEPRECATION_STEM_UPPER@[j])
}

pub open spec fn mentions_deprecation(s: Seq<char>) -> bool {
    exists|i: int| stem_at(s, i)
}

/// `s` without the redundant prefix, where it starts with it.
pub open spec fn strip_prefix_spec(s: Seq<char>) -> Seq<char> {
    let p = DEPRECATION_PREFIX@;
    if p.len() <= s.len() && s.subrange(0, p.len() as int) == p {
        s.subrange(p.len() as int, s.len() as int)
    } else {
        s
    }
}

/// The warning that a deprecated node's own description gives, if any.
pub open spec fn own_warning_spec(description: Option<Seq<char>>) -> Option<Seq<char>> {
    match description {
        None => None,
        Some(d) => if d == BARE_DEPRECATION_TEXT@ || !mentions_deprecation(d) {
            None
        } else {
            Some(escape_spec(strip_prefix_spec(d)))
        },
    }
}

/// The effective deprecation status of a schema node.
#[derive(Clone, Debug, PartialEq, Eq)]
pub enum DeprecationStatus {
    NotDeprecated,
    Deprecated,
    DeprecatedWithWarning(String),
    DeprecatedWithWarningFromParent(String),
}

/// A deprecation status as plain values.
pub enum StatusView {
    NotDeprecated,
    Deprecated,
    OwnWarning(Seq<char>),
    InheritedWarning(Seq<char>),
}

impl View for DeprecationStatus {
    type V = StatusView;

    open spec fn view(&self) -> StatusView {
        match self {
            DeprecationStatus::NotDeprecated => StatusView::NotDeprecated,
            DeprecationStatus::Deprecated => StatusView::Deprecated,
            DeprecationStatus::DeprecatedWithWarning(w) => StatusView::OwnWarning(w@),
            DeprecationStatus::DeprecatedWithWarningFromParent(w) => StatusView::InheritedWarning(w@),
        }
    }
}

pub open spec fn status_deprecated(s: StatusView) -> bool {
    !(s is NotDeprecated)
}

pub open spec fn status_warning(s: StatusView) -> Option<Seq<char>> {
    match s {
        StatusView::OwnWarning(w) => Some(w),
        StatusView::InheritedWarning(w) => Some(w),
        _ => None,
    }
}

/// The status of a node whose own status is `own`, under a parent whose
/// effective status is `parent`. A node not marked deprecated stays so; a
/// node with a warning of its own keeps it; any other deprecated node takes
/// the parent's warning, if the parent has one.
pub open spec fn with_parent_spec(own: StatusView, parent: StatusView) -> StatusView {
    match own {
        StatusView::Deprecated => match status_warning(parent) {
            Some(w) => StatusView::InheritedWarning(w),
            None => StatusView::Deprecated,
        },
        _ => own,
    }
}

/// The own status of a node with the given flag and description.
pub open spec fn own_status_spec(deprecated: bool, description: Option<Seq<char>>) -> StatusView {
    if !deprecated {
        StatusView::NotDeprecated
    } else {
        match own_warning_spec(description) {
            Some(w) => StatusView::OwnWarning(w),
            None => StatusView::Deprecated,
        }
    }
}

/// `s` with a backslash before each of `*`, `[`, `]`, `(` and `)`.
pub fn escape_for_markdown(s: &str) -> (r: String)
    ensures
        r@ == escape_spec(s@),
{
    proof {
        reveal_strlit("\\");
    }
    let n = s.unicode_len();
    let mut out = String::new();
    let mut i: usize = 0;
    while i < n
        invariant
            n == s@.len(),
            i <= n,
            out@ == escape_spec(s@.subrange(0, i as int)),
        decreases n - i,
    {
        let c = s.get_char(i);
        let piece = s.substring_char(i, i + 1);
        if c == '*' || c == '[' || c == ']' || c == '(' || c == ')' {
            out.append("\\");
        }
        out.append(piece);
        proof {
            let t = s@.subrange(0, i + 1);
            assert(t.drop_last() =~= s@.subrange(0, i as int));
            assert(piece@ =~= seq![c]);
            if is_markdown_hazard(c) {
                reveal_strlit("\\");
                assert("\\"@.len() == 1);
                assert("\\"@[0] == '\\');
                assert("\\"@ + piece@ =~= seq!['\\', c]);
            }
        }
        i = i + 1;
    }
    assert(s@.subrange(0, n as int) =~= s@);
    out
}

/// Whether the stem stands at position `i` of `s`.
fn stem_at_exec(s: &str, i: usize) -> (r: bool)
    requires
        i <= s@.len(),
    ensures
        r == stem_at(s@, i as int),
{
    let n = DEPRECATION_STEM_LOWER.unicode_len();
    proof {
        reveal_strlit("deprecat");
        reveal_strlit("DEPRECAT");
    }
    assert(n == 8);
    if n > s.unicode_len() - i {
        return false;
    }
    let mut j: usize = 0;
    while j < n
        invariant
            n == DEPRECATION_STEM_LOWER@.len(),
            n == DEPRECATION_STEM_UPPER@.len(),
            i + n <= s@.len(),
            s@.len() <= usize::MAX,
            j <= n,
            forall|k: int| 0 <= k < j ==> (s@[i + k] == DEPRECATION_STEM_LOWER@[k] || s@[i + k] == DEPRECATION_STEM_UPPER@[k]),
        decreases n - j,
    {
        let c = s.get_char(i + j);
        if c != DEPRECATION_STEM_LOWER.get_char(j) && c != DEPRECATION_STEM_UPPER.get_char(j) {
            return false;
        }
        j = j + 1;
    }
    true
}

/// Whether `s` mentions deprecation, in any letter case.
pub fn mentions_deprecation_exec(s: &str) -> (r: bool)
    ensures
        r == mentions_deprecation(s@),
{
    let n = s.unicode_len();
    let mut i: usize = 0;
    proof {
        reveal_strlit("deprecat");
    }
    while i < n
        invariant
            n == s@.len(),
            i <= n,
            forall|k: int| 0 <= k < i ==> !stem_at(s@, k),
        decreases n - i,
    {
        if stem_at_exec(s, i) {
            return true;
        }
        i = i + 1;
    }
    assert forall|k: int| !stem_at(s@, k) by {
        if 0 <= k && k < i {
        }
    }
    false
}

/// The warning that a deprecated node's description gives, if any.
pub fn own_warning(description: &Option<String>) -> (r: Option<String>)
    ensures
        crate::paths::opt_string_view(r) == own_warning_spec(crate::paths::opt_string_view(*description)),
{
    match description {
        None => None,
        Some(d) => {
            let d = d.as_str();
            if str_eq(d, BARE_DEPRECATION_TEXT) || !mentions_deprecation_exec(d) {
                None
            } else if starts_with(d, DEPRECATION_PREFIX) {
                let k = DEPRECATION_PREFIX.unicode_len();
                Some(escape_for_markdown(d.substring_char(k, d.unicode_len())))
            } else {
                Some(escape_for_markdown(d))
            }
        },
    }
}

impl DeprecationStatus {
    /// The own status of a node with the given flag and description.
    pub fn new(deprecated: bool, description: &Option<String>) -> (r: DeprecationStatus)
        ensures
            r@ == own_status_spec(deprecated, crate::paths::opt_string_view(*description)),
    {
        if !deprecated {
            return DeprecationStatus::NotDeprecated;
        }
        match own_warning(description) {
            None => DeprecationStatus::Deprecated,
            Some(w) => DeprecationStatus::DeprecatedWithWarning(w),
        }
    }

    pub fn is_deprecated(&self) -> (r: bool)
        ensures
            r == status_deprecated(self@),
    {
        match self {
            DeprecationStatus::NotDeprecated => false,
            _ => true,
        }
    }

    pub fn has_own_warning(&self) -> (r: bool)
        ensures
            r == (self@ is OwnWarning),
    {
        match self {
            DeprecationStatus::DeprecatedWithWarning(_) => true,
            _ => false,
        }
    }

    /// The warning text, own or inherited.
    pub fn warning(&self) -> (r: Option<&str>)
        ensures
            crate::paths::opt_str_view(r) == status_warning(self@),
    {
        match self {
            DeprecationStatus::DeprecatedWithWarning(w) => Some(w.as_str()),
            DeprecationStatus::DeprecatedWithWarningFromParent(w) => Some(w.as_str()),
            _ => None,
        }
    }

    /// This status under a parent whose effective status is `parent`.
    pub fn add_parent(self, parent: &DeprecationStatus) -> (r: DeprecationStatus)
        ensures
            r@ == with_parent_spec(self@, parent@),
    {
        match self {
            DeprecationStatus::Deprecated => match parent.warning() {
                None => DeprecationStatus::Deprecated,
                Some(w) => DeprecationStatus::DeprecatedWithWarningFromParent(owned(w)),
            },
            _ => self,
        }
    }
}

} // verus!
