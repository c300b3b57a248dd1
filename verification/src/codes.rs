//! JSON-RPC error codes and their integer encoding.
use vstd::prelude::*;

verus! {

/// A JSON-RPC error code. The five codes that JSON-RPC 2.0 predefines have
/// their own variants; `ServerError` holds a code of the range reserved for
/// implementation-defined server errors, `Other` any other code.
#[derive(Debug, PartialEq, Eq, Structural, Clone, Hash)]
pub enum ErrorCode {
    ParseError,
    InvalidRequest,
    MethodNotFound,
    InvalidParams,
    InternalError,
    ServerError(i32),
    Other(i32),
}

/// Lowest code of the range reserved for implementation-defined server errors.
pub const SERVER_ERROR_MIN: i32 = -32099;

/// Highest code of the range reserved for implementation-defined server errors.
pub const SERVER_ERROR_MAX: i32 = -32000;

/// The integer that encodes `code` on the wire.
pub open spec fn code_to_int(code: ErrorCode) -> i32 {
    match code {
        ErrorCode::ParseError => -32700i32,
        ErrorCode::InvalidRequest => -32600i32,
        ErrorCode::MethodNotFound => -32601i32,
        ErrorCode::InvalidParams => -32602i32,
        ErrorCode::InternalError => -32603i32,
        ErrorCode::ServerError(c) => c,
        ErrorCode::Other(c) => c,
    }
}

/// Whether `c` lies in the range reserved for implementation-defined server errors.
pub open spec fn is_server_error_code(c: i32) -> bool {
    SERVER_ERROR_MIN <= c <= SERVER_ERROR_MAX
}

/// The code that the wire integer `c` stands for.
pub open spec fn code_from_int(c: i32) -> ErrorCode {
    if c == -32700 {
        ErrorCode::ParseError
    } else if c == -32600 {
        ErrorCode::InvalidRequest
    } else if c == -32601 {
        ErrorCode::MethodNotFound
    } else if c == -32602 {
        ErrorCode::InvalidParams
    } else if c == -32603 {
        ErrorCode::InternalError
    } else if is_server_error_code(c) {
        ErrorCode::ServerError(c)
    } else {
        ErrorCode::Other(c)
    }
}

/// Whether `c` is one of the five codes that have a variant of their own.
pub open spec fn is_predefined_code(c: i32) -> bool {
    c == -32700 || c == -32600 || c == -32601 || c == -32602 || c == -32603
}

/// A code value is canonical when decoding its integer gives it back: a
/// `ServerError` holds a code of the server range, an `Other` a code that is
/// neither predefined nor in that range.
pub open spec fn is_canonical(code: ErrorCode) -> bool {
    match code {
        ErrorCode::ServerError(c) => is_server_error_code(c),
        ErrorCode::Other(c) => !is_server_error_code(c) && !is_predefined_code(c),
        _ => true,
    }
}

impl vstd::std_specs::convert::FromSpecImpl<ErrorCode> for i32 {
    open spec fn obeys_from_spec() -> bool {
        true
    }

    open spec fn from_spec(code: ErrorCode) -> i32 {
        code_to_int(code)
    }
}

impl From<ErrorCode> for i32 {
    fn from(code: ErrorCode) -> (r: i32) {
        match code {
            ErrorCode::ParseError => -32700,
            ErrorCode::InvalidRequest => -32600,
            ErrorCode::MethodNotFound => -32601,
            ErrorCode::InvalidParams => -32602,
            ErrorCode::InternalError => -32603,
            ErrorCode::ServerError(c) => c,
            ErrorCode::Other(c) => c,
        }
    }
}

impl vstd::std_specs::convert::FromSpecImpl<i32> for ErrorCode {
    open spec fn obeys_from_spec() -> bool {
        true
    }

    open spec fn from_spec(c: i32) -> ErrorCode {
        code_from_int(c)
    }
}

impl From<i32> for ErrorCode {
    fn from(c: i32) -> (r: ErrorCode) {
        if c == -32700 {
            ErrorCode::ParseError
        } else if c == -32600 {
            ErrorCode::InvalidRequest
        } else if c == -32601 {
            ErrorCode::MethodNotFound
        } else if c == -32602 {
            ErrorCode::InvalidParams
        } else if c == -32603 {
            ErrorCode::InternalError
        } else if SERVER_ERROR_MIN <= c && c <= SERVER_ERROR_MAX {
            ErrorCode::ServerError(c)
        } else {
            ErrorCode::Other(c)
        }
    }
}

/// Decoding a wire integer and encoding the result gives the integer back:
/// no code is lost on the way in.
pub proof fn lemma_int_code_round_trip(c: i32)
    ensures
        code_to_int(code_from_int(c)) == c,
{
}

/// Encoding a canonical code and decoding the integer gives the code back.
pub proof fn lemma_code_int_round_trip(code: ErrorCode)
    requires
        is_canonical(code),
    ensures
        code_from_int(code_to_int(code)) == code,
{
}

/// Every decoded code is canonical.
pub proof fn lemma_decoded_code_is_canonical(c: i32)
    ensures
        is_canonical(code_from_int(c)),
{
}

/// The wire integers of the codes: the five predefined codes are -32700,
/// -32600, -32601, -32602 and -32603, each integer in -32099..=-32000 is a
/// server error carrying it, and every other integer is carried as it is.
pub proof fn lemma_code_table(c: i32)
    ensures
        code_to_int(ErrorCode::ParseError) == -32700,
        code_to_int(ErrorCode::InvalidRequest) == -32600,
        code_to_int(ErrorCode::MethodNotFound) == -32601,
        code_to_int(ErrorCode::InvalidParams) == -32602,
        code_to_int(ErrorCode::InternalError) == -32603,
        code_to_int(ErrorCode::ServerError(c)) == c,
        code_to_int(ErrorCode::Other(c)) == c,
        (code_from_int(c) == ErrorCode::ParseError) <==> c == -32700,
        (code_from_int(c) == ErrorCode::InvalidRequest) <==> c == -32600,
        (code_from_int(c) == ErrorCode::MethodNotFound) <==> c == -32601,
        (code_from_int(c) == ErrorCode::InvalidParams) <==> c == -32602,
        (code_from_int(c) == ErrorCode::InternalError) <==> c == -32603,
        (code_from_int(c) == ErrorCode::ServerError(c)) <==> -32099 <= c <= -32000,
        (code_from_int(c) == ErrorCode::Other(c)) <==> !(-32099 <= c <= -32000) && c != -32700
            && c != -32600 && c != -32601 && c != -32602 && c != -32603,
{
}

} // verus!
