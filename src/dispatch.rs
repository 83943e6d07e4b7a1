//! The dispatch protocol: from a user-declared list of enum variants to a
//! matcher that selects a variant for an incoming method name.
//!
//! A variant with no field must carry an explicit name; one with one field
//! either carries an explicit name or takes the protocol name of its field's
//! type; one with two fields is the wildcard, which must come last and so
//! can occur at most once. Matching is first-match in declaration order.

use vstd::prelude::*;
use crate::text::str_eq;

verus! {

/// The name of the attribute that carries a variant's explicit name.
pub const NAME_ATTRIBUTE: &'static str = "cdp";

/// An attribute attached to a variant, reduced to what the protocol reads.
#[derive(Clone, Debug, PartialEq, Eq)]
pub enum Attr {
    /// `#[name = "text"]`
    NameValueStr { name: String, text: String },
    /// Any other form: a bare word, a list, or a non-string value.
    Other { name: String },
}

/// One declared variant of the target enumeration.
#[derive(Clone, Debug, PartialEq, Eq)]
pub struct VariantDecl {
    /// The variant's identifier, used in error messages.
    pub ident: String,
    /// How many fields the variant declares.
    pub field_count: usize,
    /// The variant's attributes, in order.
    pub attrs: Vec<Attr>,
    /// For a one-field variant: the protocol name constant that its field's
    /// type exposes, if it exposes one.
    pub field_protocol_name: Option<String>,
}

/// A structural mistake in a declaration, found before any message is seen.
#[derive(Clone, Debug, PartialEq, Eq)]
pub enum DeclError {
    /// A variant follows the wildcard.
    WildcardNotLast { variant: usize },
    /// More than one explicit-name attribute on one variant.
    MultipleNames { variant: usize },
    /// An explicit-name attribute that is not in `name = "..."` form.
    MalformedName { variant: usize },
    /// A unit variant without an explicit name.
    MissingName { variant: usize },
    /// A one-field variant with neither an explicit name nor a field type
    /// that exposes a protocol name.
    MissingProtocolName { variant: usize },
    /// A variant with three or more fields.
    BadArity { variant: usize, field_count: usize },
}

/// How the parameters of a selected typed variant are read.
#[derive(Clone, Copy, Debug, PartialEq, Eq)]
pub enum ParamsShape {
    /// The parameters must be the canonical empty object.
    Empty,
    /// The parameters are read into the variant's single field.
    Field,
}

/// One typed arm of a compiled matcher.
#[derive(Clone, Debug, PartialEq, Eq)]
pub struct Arm {
    pub variant: usize,
    pub key: String,
    pub shape: ParamsShape,
}

/// A compiled matcher: typed arms in declaration order, then the optional
/// wildcard variant.
#[derive(Clone, Debug, PartialEq, Eq)]
pub struct Matcher {
    pub arms: Vec<Arm>,
    pub wildcard: Option<usize>,
}

/// The decision for one incoming method name.
#[derive(Clone, Copy, Debug, PartialEq, Eq)]
pub enum Dispatch {
    /// A typed variant was selected.
    Selected { variant: usize, shape: ParamsShape },
    /// No typed variant matched; the wildcard takes the name and the raw
    /// parameters.
    Wildcard { variant: usize },
    /// No variant matched and there is no wildcard: the name and the
    /// parameters go back to the caller unconsumed.
    NotRecognized,
}

pub open spec fn is_name_attr(a: Attr) -> bool {
    match a {
        Attr::NameValueStr { name, .. } => name@ == NAME_ATTRIBUTE@,
        Attr::Other { name } => name@ == NAME_ATTRIBUTE@,
    }
}

/// The explicit name among the first `n` attributes, or the problem with
/// them: `Err(true)` for a second name, `Err(false)` for a malformed one.
pub open spec fn scan_names(attrs: Seq<Attr>, n: nat) -> Result<Option<Seq<char>>, bool>
    decreases n,
{
    if n == 0 {
        Ok(None)
    } else {
        match scan_names(attrs, (n - 1) as nat) {
            Err(e) => Err(e),
            Ok(found) => {
                let a = attrs[n - 1];
                if !is_name_attr(a) {
                    Ok(found)
                } else {
                    match a {
                        Attr::NameValueStr { text, .. } => if found is None {
                            Ok(Some(text@))
                        } else {
                            Err(true)
                        },
                        Attr::Other { .. } => Err(false),
                    }
                }
            },
        }
    }
}

/// Once the scan has found a problem, later attributes do not change it.
proof fn lemma_scan_error_persists(attrs: Seq<Attr>, k: nat, n: nat, e: bool)
    requires
        k <= n,
        scan_names(attrs, k) == Err::<Option<Seq<char>>, bool>(e),
    ensures
        scan_names(attrs, n) == Err::<Option<Seq<char>>, bool>(e),
    decreases n - k,
{
    if k < n {
        lemma_scan_error_persists(attrs, k, (n - 1) as nat, e);
    }
}

pub open spec fn explicit_name(attrs: Seq<Attr>) -> Result<Option<Seq<char>>, bool> {
    scan_names(attrs, attrs.len())
}

/// The error of variant `v` at position `i` taken on its own.
pub open spec fn variant_error(v: VariantDecl, i: nat) -> Option<DeclError> {
    match explicit_name(v.attrs@) {
        Err(true) => Some(DeclError::MultipleNames { variant: i as usize }),
        Err(false) => Some(DeclError::MalformedName { variant: i as usize }),
        Ok(name) => if v.field_count == 0 {
            if name is None {
                Some(DeclError::MissingName { variant: i as usize })
            } else {
                None
            }
        } else if v.field_count == 1 {
            if name is None && v.field_protocol_name is None {
                Some(DeclError::MissingProtocolName { variant: i as usize })
            } else {
                None
            }
        } else if v.field_count == 2 {
            None
        } else {
            Some(DeclError::BadArity { variant: i as usize, field_count: v.field_count })
        },
    }
}

pub open spec fn is_wildcard(v: VariantDecl) -> bool {
    v.field_count == 2
}

/// The error at position `i` of a declaration: a variant after the wildcard
/// is refused, whatever it holds.
pub open spec fn decl_error_at(vs: Seq<VariantDecl>, i: int) -> Option<DeclError> {
    if exists|j: int| 0 <= j < i && is_wildcard(#[trigger] vs[j]) {
        Some(DeclError::WildcardNotLast { variant: i as usize })
    } else {
        variant_error(vs[i], i as nat)
    }
}

/// The match key of a valid typed variant.
pub open spec fn arm_key(v: VariantDecl) -> Seq<char> {
    match explicit_name(v.attrs@) {
        Ok(Some(name)) => name,
        _ => match v.field_protocol_name {
            Some(name) => name@,
            None => Seq::empty(),
        },
    }
}

pub open spec fn arm_shape(v: VariantDecl) -> ParamsShape {
    if v.field_count == 0 {
        ParamsShape::Empty
    } else {
        ParamsShape::Field
    }
}

/// The arm that a valid typed variant at position `i` compiles to.
pub open spec fn arm_matches_decl(a: Arm, v: VariantDecl, i: int) -> bool {
    &&& a.variant == i
    &&& a.key@ == arm_key(v)
    &&& a.shape == arm_shape(v)
}

/// `m` is the matcher compiled from the valid declaration `vs`.
pub open spec fn compiled_from(m: Matcher, vs: Seq<VariantDecl>) -> bool {
    let typed = if vs.len() > 0 && is_wildcard(vs.last()) {
        vs.len() - 1
    } else {
        vs.len() as int
    };
    &&& m.arms@.len() == typed
    &&& forall|i: int| 0 <= i < typed ==> arm_matches_decl(#[trigger] m.arms@[i], vs[i], i)
    &&& m.wildcard == (if typed < vs.len() {
        Some(typed as usize)
    } else {
        None::<usize>
    })
}

/// A declaration is valid when no position holds an error.
pub open spec fn decl_valid(vs: Seq<VariantDecl>) -> bool {
    forall|i: int| 0 <= i < vs.len() ==> #[trigger] decl_error_at(vs, i) is None
}

/// The error reported for `vs` is the one at its first faulty position.
pub open spec fn first_error(vs: Seq<VariantDecl>, e: DeclError) -> bool {
    exists|i: int|
        0 <= i < vs.len() && decl_error_at(vs, i) == Some(e) && forall|j: int|
            0 <= j < i ==> #[trigger] decl_error_at(vs, j) is None
}

/// The decision of a matcher on a name: the first typed arm whose key is the
/// name, else the wildcard, else nothing.
pub open spec fn dispatch_from(arms: Seq<Arm>, wildcard: Option<usize>, name: Seq<char>, k: int) -> Dispatch
    decreases arms.len() - k,
{
    if k < 0 || k >= arms.len() {
        match wildcard {
            Some(w) => Dispatch::Wildcard { variant: w },
            None => Dispatch::NotRecognized,
        }
    } else if arms[k].key@ == name {
        Dispatch::Selected { variant: arms[k].variant, shape: arms[k].shape }
    } else {
        dispatch_from(arms, wildcard, name, k + 1)
    }
}

pub open spec fn dispatch_spec(m: Matcher, name: Seq<char>) -> Dispatch {
    dispatch_from(m.arms@, m.wildcard, name, 0)
}

/// Reads the explicit name of a variant from its attributes.
pub fn extract_method_name_from_attrs(attrs: &Vec<Attr>) -> (r: Result<Option<String>, bool>)
    ensures
        match r {
            Ok(Some(s)) => explicit_name(attrs@) == Ok::<Option<Seq<char>>, bool>(Some(s@)),
            Ok(None) => explicit_name(attrs@) == Ok::<Option<Seq<char>>, bool>(None),
            Err(e) => explicit_name(attrs@) == Err::<Option<Seq<char>>, bool>(e),
        },
{
    let mut found: Option<String> = None;
    let mut i: usize = 0;
    while i < attrs.len()
        invariant
            i <= attrs@.len(),
            match found {
                Some(s) => scan_names(attrs@, i as nat) == Ok::<Option<Seq<char>>, bool>(Some(s@)),
                None => scan_names(attrs@, i as nat) == Ok::<Option<Seq<char>>, bool>(None),
            },
        decreases attrs@.len() - i,
    {
        match &attrs[i] {
            Attr::NameValueStr { name, text } => {
                if str_eq(name.as_str(), NAME_ATTRIBUTE) {
                    if found.is_some() {
                        proof {
                            lemma_scan_error_persists(attrs@, (i + 1) as nat, attrs@.len(), true);
                        }
                        return Err(true);
                    }
                    found = Some(text.clone());
                }
            },
            Attr::Other { name } => {
                if str_eq(name.as_str(), NAME_ATTRIBUTE) {
                    proof {
                        lemma_scan_error_persists(attrs@, (i + 1) as nat, attrs@.len(), false);
                    }
                    return Err(false);
                }
            },
        }
        i = i + 1;
    }
    Ok(found)
}

/// Checks one variant and compiles it to its arm, given that no wildcard
/// precedes it. A wildcard compiles to `Ok(None)`.
pub fn generate_cdp_deserialize_impl_arm(v: &VariantDecl, i: usize) -> (r: Result<Option<Arm>, DeclError>)
    ensures
        match r {
            Err(e) => variant_error(*v, i as nat) == Some(e),
            Ok(None) => variant_error(*v, i as nat) is None && is_wildcard(*v),
            Ok(Some(a)) => variant_error(*v, i as nat) is None && !is_wildcard(*v)
                && arm_matches_decl(a, *v, i as int),
        },
{
    let name = match extract_method_name_from_attrs(&v.attrs) {
        Err(true) => {
            return Err(DeclError::MultipleNames { variant: i });
        },
        Err(false) => {
            return Err(DeclError::MalformedName { variant: i });
        },
        Ok(name) => name,
    };
    if v.field_count == 0 {
        match name {
            None => Err(DeclError::MissingName { variant: i }),
            Some(key) => Ok(Some(Arm { variant: i, key, shape: ParamsShape::Empty })),
        }
    } else if v.field_count == 1 {
        match name {
            Some(key) => Ok(Some(Arm { variant: i, key, shape: ParamsShape::Field })),
            None => match &v.field_protocol_name {
                Some(key) => Ok(Some(Arm { variant: i, key: key.clone(), shape: ParamsShape::Field })),
                None => Err(DeclError::MissingProtocolName { variant: i }),
            },
        }
    } else if v.field_count == 2 {
        Ok(None)
    } else {
        Err(DeclError::BadArity { variant: i, field_count: v.field_count })
    }
}

/// Compiles a declared variant list to its matcher, or reports the first
/// structural mistake in it.
pub fn generate_cdp_deserialize_impl(vs: &Vec<VariantDecl>) -> (r: Result<Matcher, DeclError>)
    ensures
        match r {
            Ok(m) => decl_valid(vs@) && compiled_from(m, vs@),
            Err(e) => !decl_valid(vs@) && first_error(vs@, e),
        },
{
    let mut arms: Vec<Arm> = Vec::new();
    let mut wildcard: Option<usize> = None;
    let mut i: usize = 0;
    while i < vs.len()
        invariant
            i <= vs@.len(),
            forall|j: int| 0 <= j < i ==> #[trigger] decl_error_at(vs@, j) is None,
            match wildcard {
                Some(w) => w == i - 1 && is_wildcard(vs@[w as int]) && arms@.len() == w,
                None => arms@.len() == i && forall|j: int| 0 <= j < i ==> !is_wildcard(#[trigger] vs@[j]),
            },
            forall|j: int| 0 <= j < arms@.len() ==> arm_matches_decl(#[trigger] arms@[j], vs@[j], j),
        decreases vs@.len() - i,
    {
        if wildcard.is_some() {
            let e = DeclError::WildcardNotLast { variant: i };
            assert(is_wildcard(vs@[i - 1]));
            assert(decl_error_at(vs@, i as int) == Some(e));
            return Err(e);
        }
        assert(!exists|j: int| 0 <= j < i && is_wildcard(#[trigger] vs@[j]));
        match generate_cdp_deserialize_impl_arm(&vs[i], i) {
            Err(e) => {
                assert(decl_error_at(vs@, i as int) == Some(e));
                return Err(e);
            },
            Ok(None) => {
                wildcard = Some(i);
            },
            Ok(Some(a)) => {
                arms.push(a);
            },
        }
        assert(decl_error_at(vs@, i as int) is None);
        i = i + 1;
    }
    Ok(Matcher { arms, wildcard })
}

/// Decides which variant an incoming method name selects.
pub fn dispatch(m: &Matcher, name: &str) -> (r: Dispatch)
    ensures
        r == dispatch_spec(*m, name@),
{
    let mut k: usize = 0;
    while k < m.arms.len()
        invariant
            k <= m.arms@.len(),
            dispatch_spec(*m, name@) == dispatch_from(m.arms@, m.wildcard, name@, k as int),
        decreases m.arms@.len() - k,
    {
        let arm = &m.arms[k];
        if str_eq(arm.key.as_str(), name) {
            return Dispatch::Selected { variant: arm.variant, shape: arm.shape };
        }
        k = k + 1;
    }
    match m.wildcard {
        Some(w) => Dispatch::Wildcard { variant: w },
        None => Dispatch::NotRecognized,
    }
}

/// An incoming message after dispatch: the parameters are handed on as
/// they came, to the selected variant, to the wildcard with the name, or
/// back to the caller with the name.
#[derive(Clone, Debug, PartialEq, Eq)]
pub enum Routed<P> {
    Typed { variant: usize, shape: ParamsShape, params: P },
    Wildcard { variant: usize, name: String, params: P },
    Unrecognized { name: String, params: P },
}

/// Dispatches a message by its method name, handing its parameters on
/// unchanged.
pub fn route<P>(m: &Matcher, name: String, params: P) -> (r: Routed<P>)
    ensures
        r == match dispatch_spec(*m, name@) {
            Dispatch::Selected { variant, shape } => Routed::Typed { variant, shape, params },
            Dispatch::Wildcard { variant } => Routed::Wildcard { variant, name, params },
            Dispatch::NotRecognized => Routed::Unrecognized { name, params },
        },
{
    match dispatch(m, name.as_str()) {
        Dispatch::Selected { variant, shape } => Routed::Typed { variant, shape, params },
        Dispatch::Wildcard { variant } => Routed::Wildcard { variant, name, params },
        Dispatch::NotRecognized => Routed::Unrecognized { name, params },
    }
}

/// A variant with three or more fields makes the whole declaration invalid,
/// so compiling it fails before any message is dispatched.
pub proof fn lemma_bad_arity_rejected(vs: Seq<VariantDecl>, i: int)
    requires
        0 <= i < vs.len(),
        vs[i].field_count >= 3,
    ensures
        !decl_valid(vs),
{
    assert(decl_error_at(vs, i) is Some);
}

/// A variant after a wildcard makes the declaration invalid: a second
/// wildcard, or a wildcard that is not last, is refused.
pub proof fn lemma_wildcard_must_be_last(vs: Seq<VariantDecl>, w: int, j: int)
    requires
        0 <= w < j < vs.len(),
        is_wildcard(vs[w]),
    ensures
        !decl_valid(vs),
{
    assert(decl_error_at(vs, j) is Some);
}

proof fn lemma_dispatch_skips(arms: Seq<Arm>, wildcard: Option<usize>, name: Seq<char>, k: int, i: int)
    requires
        0 <= k <= i <= arms.len(),
        forall|j: int| k <= j < i ==> (#[trigger] arms[j]).key@ != name,
    ensures
        dispatch_from(arms, wildcard, name, k) == dispatch_from(arms, wildcard, name, i),
    decreases i - k,
{
    if k < i {
        lemma_dispatch_skips(arms, wildcard, name, k + 1, i);
    }
}

/// Matching is first-match in declaration order: the first typed arm whose
/// key is the name is selected, even where a wildcard would also accept it.
pub proof fn lemma_first_typed_match_wins(m: Matcher, name: Seq<char>, i: int)
    requires
        0 <= i < m.arms@.len(),
        m.arms@[i].key@ == name,
        forall|j: int| 0 <= j < i ==> (#[trigger] m.arms@[j]).key@ != name,
    ensures
        dispatch_spec(m, name) == (Dispatch::Selected { variant: m.arms@[i].variant, shape: m.arms@[i].shape }),
{
    lemma_dispatch_skips(m.arms@, m.wildcard, name, 0, i);
}

/// A name that no typed arm matches goes to the wildcard where there is one,
/// and is handed back unrecognised where there is none.
pub proof fn lemma_unmatched_name(m: Matcher, name: Seq<char>)
    requires
        forall|j: int| 0 <= j < m.arms@.len() ==> (#[trigger] m.arms@[j]).key@ != name,
    ensures
        dispatch_spec(m, name) == (match m.wildcard {
            Some(w) => Dispatch::Wildcard { variant: w },
            None => Dispatch::NotRecognized,
        }),
{
    lemma_dispatch_skips(m.arms@, m.wildcard, name, 0, m.arms@.len() as int);
}

} // verus!
