//! Documentation text for generated declarations: doc comments,
//! deprecation notes, the per-domain index, and notes on methods and
//! nested types.

use vstd::prelude::*;
use crate::deprecation::{escape_for_markdown, escape_spec, is_markdown_hazard, status_deprecated, status_warning, DeprecationStatus, StatusView};
use crate::paths::opt_string_view;
use crate::text::owned;

verus! {

pub const EXPERIMENTAL_DOC_BADGE: &'static str = "<span class=\"stab unstable\">[Experimental]</span>";

pub const EXPERIMENTAL_INDEX_BADGE: &'static str = " <span class=\"stab unstable\" style=\"display: inline-block\">Experimental</span>";

pub const DEPRECATED_INDEX_BADGE: &'static str = " <span class=\"stab deprecated\" style=\"display: inline-block\">[Deprecated]</span>";

pub const WARNING_INDEX_OPEN: &'static str = "\n  \n  <span class=\"stab deprecated\">";

pub const WARNING_INDEX_CLOSE: &'static str = "</span>";

/// The crate path under which generated modules are documented.
pub const DOC_CRATE_PREFIX: &'static str = "cdp::";

/// The documentation attached to a generated symbol: its doc text, and its
/// deprecation (with the warning, where there is one).
#[derive(Clone, Debug, PartialEq, Eq)]
pub struct MetaAttrs {
    pub doc: Option<String>,
    pub deprecated: Option<Option<String>>,
}

pub struct MetaView {
    pub doc: Option<Seq<char>>,
    pub deprecated: Option<Option<Seq<char>>>,
}

impl View for MetaAttrs {
    type V = MetaView;

    open spec fn view(&self) -> MetaView {
        MetaView {
            doc: opt_string_view(self.doc),
            deprecated: match self.deprecated {
                None => None,
                Some(w) => Some(opt_string_view(w)),
            },
        }
    }
}

/// `piece` after `doc`, with `sep` between them where `doc` is not empty.
pub open spec fn join_spec(doc: Seq<char>, sep: Seq<char>, piece: Seq<char>) -> Seq<char> {
    if doc.len() == 0 {
        piece
    } else {
        doc + sep + piece
    }
}

/// The doc text: the experimental badge, then the description (left out
/// where the deprecation warning replaces it), then the note.
pub open spec fn doc_text_spec(
    status: StatusView,
    experimental: bool,
    description: Option<Seq<char>>,
    note: Option<Seq<char>>,
) -> Seq<char> {
    let d0 = if experimental {
        EXPERIMENTAL_DOC_BADGE@
    } else {
        Seq::empty()
    };
    let d1 = match description {
        Some(desc) => if !(status is OwnWarning) {
            join_spec(d0, " "@, escape_spec(desc))
        } else {
            d0
        },
        None => d0,
    };
    match note {
        Some(n) => join_spec(d1, "\n\n"@, n),
        None => d1,
    }
}

pub open spec fn meta_spec(
    status: StatusView,
    experimental: bool,
    description: Option<Seq<char>>,
    note: Option<Seq<char>>,
) -> MetaView {
    let doc = doc_text_spec(status, experimental, description, note);
    MetaView {
        doc: if doc.len() == 0 {
            None
        } else {
            Some(doc)
        },
        deprecated: if status_deprecated(status) {
            Some(status_warning(status))
        } else {
            None
        },
    }
}

fn join(doc: &mut String, sep: &str, piece: &str)
    ensures
        final(doc)@ == join_spec(old(doc)@, sep@, piece@),
{
    if doc.unicode_len() > 0 {
        doc.append(sep);
    }
    doc.append(piece);
    proof {
        if old(doc)@.len() == 0 {
            assert(old(doc)@ + piece@ =~= piece@);
        }
    }
}

/// The documentation of a generated symbol.
pub fn generate_meta_attrs(
    status: &DeprecationStatus,
    experimental: bool,
    description: &Option<String>,
    note: Option<String>,
) -> (r: MetaAttrs)
    ensures
        r@ == meta_spec(status@, experimental, opt_string_view(*description), opt_string_view(note)),
{
    let mut doc = String::new();
    if experimental {
        doc.append(EXPERIMENTAL_DOC_BADGE);
    }
    assert(doc@ =~= if experimental {
        EXPERIMENTAL_DOC_BADGE@
    } else {
        Seq::<char>::empty()
    });
    match description {
        Some(desc) => if !status.has_own_warning() {
            let e = escape_for_markdown(desc.as_str());
            join(&mut doc, " ", e.as_str());
        },
        None => {},
    }
    match &note {
        Some(n) => join(&mut doc, "\n\n", n.as_str()),
        None => {},
    }
    let d = if doc.unicode_len() == 0 {
        None
    } else {
        Some(doc)
    };
    let deprecated = if status.is_deprecated() {
        match status.warning() {
            None => Some(None),
            Some(w) => Some(Some(owned(w))),
        }
    } else {
        None
    };
    MetaAttrs { doc: d, deprecated }
}

/// `s` escaped for Markdown, with two spaces of indentation after each line
/// break.
pub open spec fn indent_escape_spec(s: Seq<char>) -> Seq<char>
    decreases s.len(),
{
    if s.len() == 0 {
        Seq::empty()
    } else {
        let c = s.last();
        indent_escape_spec(s.drop_last()) + if c == '\n' {
            seq!['\n', ' ', ' ']
        } else if is_markdown_hazard(c) {
            seq!['\\', c]
        } else {
            seq![c]
        }
    }
}

fn indent_escape(s: &str, out: &mut String)
    ensures
        final(out)@ == old(out)@ + indent_escape_spec(s@),
{
    let ghost start = out@;
    let n = s.unicode_len();
    let mut i: usize = 0;
    while i < n
        invariant
            n == s@.len(),
            i <= n,
            out@ == start + indent_escape_spec(s@.subrange(0, i as int)),
        decreases n - i,
    {
        let c = s.get_char(i);
        let piece = s.substring_char(i, i + 1);
        let ghost before = out@;
        if c == '\n' {
            out.append("\n  ");
        } else {
            if c == '*' || c == '[' || c == ']' || c == '(' || c == ')' {
                out.append("\\");
            }
            out.append(piece);
        }
        proof {
            let t = s@.subrange(0, i + 1);
            assert(t.drop_last() =~= s@.subrange(0, i as int));
            assert(piece@ =~= seq![c]);
            reveal_strlit("\\");
            reveal_strlit("\n  ");
            assert("\n  "@.len() == 3 && "\n  "@[0] == '\n' && "\n  "@[1] == ' ' && "\n  "@[2] == ' ');
            assert("\\"@.len() == 1 && "\\"@[0] == '\\');
            assert("\n  "@ =~= seq!['\n', ' ', ' ']);
            assert("\\"@ + piece@ =~= seq!['\\', c]);
            if c == '\n' {
                assert(out@ =~= before + seq!['\n', ' ', ' ']);
            } else if is_markdown_hazard(c) {
                assert(out@ =~= before + seq!['\\', c]);
            } else {
                assert(out@ =~= before + seq![c]);
            }
        }
        i = i + 1;
    }
    assert(s@.subrange(0, n as int) =~= s@);
}

/// The index entry of a generated symbol: a link, its badges, and its
/// description indented below it.
pub open spec fn index_entry_spec(
    name: Seq<char>,
    link: Seq<char>,
    status: StatusView,
    experimental: bool,
    description: Option<Seq<char>>,
) -> Seq<char> {
    let exp = if experimental {
        EXPERIMENTAL_INDEX_BADGE@
    } else {
        Seq::empty()
    };
    let dep = if status_deprecated(status) {
        match status_warning(status) {
            None => DEPRECATED_INDEX_BADGE@,
            Some(w) => WARNING_INDEX_OPEN@ + w + WARNING_INDEX_CLOSE@,
        }
    } else {
        Seq::empty()
    };
    let desc = match description {
        Some(d) => if !(status is OwnWarning) {
            "\n\n  "@ + indent_escape_spec(d)
        } else {
            Seq::empty()
        },
        None => Seq::empty(),
    };
    "- [`"@ + name + "`]("@ + link + ")"@ + exp + dep + desc + "\n"@
}

/// The index entry of a generated symbol.
pub fn generate_index_entry(
    name: &str,
    link: &str,
    status: &DeprecationStatus,
    experimental: bool,
    description: &Option<String>,
) -> (r: String)
    ensures
        r@ == index_entry_spec(name@, link@, status@, experimental, opt_string_view(*description)),
{
    let mut out = owned("- [`");
    out.append(name);
    out.append("`](");
    out.append(link);
    out.append(")");
    let ghost head = out@;
    if experimental {
        out.append(EXPERIMENTAL_INDEX_BADGE);
    }
    let ghost after_exp = out@;
    if status.is_deprecated() {
        match status.warning() {
            None => out.append(DEPRECATED_INDEX_BADGE),
            Some(w) => {
                out.append(WARNING_INDEX_OPEN);
                out.append(w);
                out.append(WARNING_INDEX_CLOSE);
            },
        }
    }
    let ghost after_dep = out@;
    match description {
        Some(d) => if !status.has_own_warning() {
            out.append("\n\n  ");
            indent_escape(d.as_str(), &mut out);
        },
        None => {},
    }
    let ghost after_desc = out@;
    out.append("\n");
    assert(out@ =~= index_entry_spec(name@, link@, status@, experimental, opt_string_view(*description)));
    out
}

/// The note on a nested type: which field of which record uses it.
pub open spec fn field_usage_note_spec(domain_snake: Seq<char>, parent: Seq<char>, field_snake: Seq<char>) -> Seq<char> {
    "Used in the type of [`"@ + DOC_CRATE_PREFIX@ + domain_snake + "::"@ + parent + "::"@ + field_snake + "`](struct."@
        + parent + ".html#structfield."@ + field_snake + ")."@
}

pub fn generate_field_usage_note(domain_snake: &str, parent: &str, field_snake: &str) -> (r: String)
    ensures
        r@ == field_usage_note_spec(domain_snake@, parent@, field_snake@),
{
    let mut out = owned("Used in the type of [`");
    out.append(DOC_CRATE_PREFIX);
    out.append(domain_snake);
    out.append("::");
    out.append(parent);
    out.append("::");
    out.append(field_snake);
    out.append("`](struct.");
    out.append(parent);
    out.append(".html#structfield.");
    out.append(field_snake);
    out.append(").");
    out
}

/// A link to the documentation page of a generated struct.
pub open spec fn struct_link_spec(domain_snake: Seq<char>, name: Seq<char>) -> Seq<char> {
    "[`"@ + DOC_CRATE_PREFIX@ + domain_snake + "::"@ + name + "`](struct."@ + name + ".html)"@
}

fn struct_link(domain_snake: &str, name: &str, out: &mut String)
    ensures
        final(out)@ == old(out)@ + struct_link_spec(domain_snake@, name@),
{
    out.append("[`");
    out.append(DOC_CRATE_PREFIX);
    out.append(domain_snake);
    out.append("::");
    out.append(name);
    out.append("`](struct.");
    out.append(name);
    out.append(".html)");
    assert(final(out)@ =~= old(out)@ + struct_link_spec(domain_snake@, name@));
}

/// The note on a method's request type: the method's qualified name, its
/// domain, its request type and, for a command, its response type.
pub open spec fn method_note_spec(
    domain_snake: Seq<char>,
    qualified: Seq<char>,
    request: Seq<char>,
    response: Option<Seq<char>>,
    kind: Seq<char>,
) -> Seq<char> {
    "# "@ + kind + " `"@ + qualified + "`\n\n*Domain Module:* [`"@ + DOC_CRATE_PREFIX@ + domain_snake
        + "`](index.html)  \n*"@ + kind + " Struct:* "@ + struct_link_spec(domain_snake, request) + match response {
        Some(resp) => "  \n*Response Struct:* "@ + struct_link_spec(domain_snake, resp),
        None => Seq::empty(),
    }
}

pub fn generate_method_note(
    domain_snake: &str,
    qualified: &str,
    request: &str,
    response: &Option<String>,
    kind: &str,
) -> (r: String)
    ensures
        r@ == method_note_spec(domain_snake@, qualified@, request@, opt_string_view(*response), kind@),
{
    let mut out = owned("# ");
    out.append(kind);
    out.append(" `");
    out.append(qualified);
    out.append("`\n\n*Domain Module:* [`");
    out.append(DOC_CRATE_PREFIX);
    out.append(domain_snake);
    out.append("`](index.html)  \n*");
    out.append(kind);
    out.append(" Struct:* ");
    struct_link(domain_snake, request, &mut out);
    match response {
        Some(resp) => {
            out.append("  \n*Response Struct:* ");
            struct_link(domain_snake, resp.as_str(), &mut out);
        },
        None => {},
    }
    assert(out@ =~= method_note_spec(domain_snake@, qualified@, request@, opt_string_view(*response), kind@));
    out
}

} // verus!
