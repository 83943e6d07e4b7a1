//! The fixed table of protocol error codes, derived from JSON-RPC.

use vstd::prelude::*;

verus! {

pub const PARSE_ERROR_CODE: i32 = -32700;

pub const INVALID_REQUEST_CODE: i32 = -32600;

pub const METHOD_NOT_FOUND_CODE: i32 = -32601;

pub const INVALID_PARAMS_CODE: i32 = -32602;

pub const INTERNAL_ERROR_CODE: i32 = -32603;

pub const SERVER_ERROR_CODE: i32 = -32000;

/// The kind of a protocol error, identified on the wire by its integer code.
/// Codes outside the named table are carried through unchanged.
#[derive(Clone, Copy, Debug)]
pub enum CdpErrorKind {
    ParseError,
    InvalidRequest,
    MethodNotFound,
    InvalidParams,
    InternalError,
    ServerError,
    Other(i32),
}

/// Aliases of the same error table.
pub type JsonCdpErrorKind = CdpErrorKind;

pub type DevToolsErrorKind = CdpErrorKind;

/// The wire code of an error kind.
pub open spec fn kind_code(kind: CdpErrorKind) -> i32 {
    match kind {
        CdpErrorKind::ParseError => PARSE_ERROR_CODE,
        CdpErrorKind::InvalidRequest => INVALID_REQUEST_CODE,
        CdpErrorKind::MethodNotFound => METHOD_NOT_FOUND_CODE,
        CdpErrorKind::InvalidParams => INVALID_PARAMS_CODE,
        CdpErrorKind::InternalError => INTERNAL_ERROR_CODE,
        CdpErrorKind::ServerError => SERVER_ERROR_CODE,
        CdpErrorKind::Other(code) => code,
    }
}

/// The error kind that a wire code denotes.
pub open spec fn code_kind(code: i32) -> CdpErrorKind {
    if code == PARSE_ERROR_CODE {
        CdpErrorKind::ParseError
    } else if code == INVALID_REQUEST_CODE {
        CdpErrorKind::InvalidRequest
    } else if code == METHOD_NOT_FOUND_CODE {
        CdpErrorKind::MethodNotFound
    } else if code == INVALID_PARAMS_CODE {
        CdpErrorKind::InvalidParams
    } else if code == INTERNAL_ERROR_CODE {
        CdpErrorKind::InternalError
    } else if code == SERVER_ERROR_CODE {
        CdpErrorKind::ServerError
    } else {
        CdpErrorKind::Other(code)
    }
}

/// A kind whose `Other` code does not collide with a named code; this is
/// the form in which every decoded kind comes.
pub open spec fn kind_is_canonical(kind: CdpErrorKind) -> bool {
    match kind {
        CdpErrorKind::Other(code) => code_kind(code) == CdpErrorKind::Other(code),
        _ => true,
    }
}

impl CdpErrorKind {
    /// The wire code of this kind.
    pub fn code(self) -> (r: i32)
        ensures
            r == kind_code(self),
    {
        match self {
            CdpErrorKind::ParseError => PARSE_ERROR_CODE,
            CdpErrorKind::InvalidRequest => INVALID_REQUEST_CODE,
            CdpErrorKind::MethodNotFound => METHOD_NOT_FOUND_CODE,
            CdpErrorKind::InvalidParams => INVALID_PARAMS_CODE,
            CdpErrorKind::InternalError => INTERNAL_ERROR_CODE,
            CdpErrorKind::ServerError => SERVER_ERROR_CODE,
            CdpErrorKind::Other(code) => code,
        }
    }

    /// The kind that a wire code denotes.
    pub fn from_code(code: i32) -> (r: CdpErrorKind)
        ensures
            r == code_kind(code),
    {
        if code == PARSE_ERROR_CODE {
            CdpErrorKind::ParseError
        } else if code == INVALID_REQUEST_CODE {
            CdpErrorKind::InvalidRequest
        } else if code == METHOD_NOT_FOUND_CODE {
            CdpErrorKind::MethodNotFound
        } else if code == INVALID_PARAMS_CODE {
            CdpErrorKind::InvalidParams
        } else if code == INTERNAL_ERROR_CODE {
            CdpErrorKind::InternalError
        } else if code == SERVER_ERROR_CODE {
            CdpErrorKind::ServerError
        } else {
            CdpErrorKind::Other(code)
        }
    }

    /// Two kinds are equal when their wire codes are.
    pub fn same_code(self, other: CdpErrorKind) -> (r: bool)
        ensures
            r == (kind_code(self) == kind_code(other)),
    {
        self.code() == other.code()
    }
}

impl PartialEq for CdpErrorKind {
    fn eq(&self, other: &CdpErrorKind) -> (r: bool) {
        self.same_code(*other)
    }
}

impl vstd::std_specs::cmp::PartialEqSpecImpl for CdpErrorKind {
    open spec fn obeys_eq_spec() -> bool {
        true
    }

    open spec fn eq_spec(&self, other: &CdpErrorKind) -> bool {
        kind_code(*self) == kind_code(*other)
    }
}

impl Eq for CdpErrorKind {
}

impl From<i32> for CdpErrorKind {
    fn from(code: i32) -> (r: CdpErrorKind) {
        CdpErrorKind::from_code(code)
    }
}

impl vstd::std_specs::convert::FromSpecImpl<i32> for CdpErrorKind {
    open spec fn obeys_from_spec() -> bool {
        true
    }

    open spec fn from_spec(code: i32) -> CdpErrorKind {
        code_kind(code)
    }
}

impl From<CdpErrorKind> for i32 {
    fn from(kind: CdpErrorKind) -> (r: i32) {
        kind.code()
    }
}

impl vstd::std_specs::convert::FromSpecImpl<CdpErrorKind> for i32 {
    open spec fn obeys_from_spec() -> bool {
        true
    }

    open spec fn from_spec(kind: CdpErrorKind) -> i32 {
        kind_code(kind)
    }
}

/// Decoding a code and encoding the kind again gives back the code, for
/// every integer: the named codes and every other one alike.
pub proof fn lemma_code_round_trip(code: i32)
    ensures
        kind_code(code_kind(code)) == code,
        kind_is_canonical(code_kind(code)),
{
}

/// Encoding a kind and decoding the code gives back the kind, for each of
/// the named kinds and for every `Other` code outside the named table.
pub proof fn lemma_kind_round_trip(kind: CdpErrorKind)
    requires
        kind_is_canonical(kind),
    ensures
        code_kind(kind_code(kind)) == kind,
{
}

} // verus!
