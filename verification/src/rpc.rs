use vstd::prelude::*;

verus! {

/// The id of a JSON-RPC request, as the request carries it.
#[derive(Clone, Debug, PartialEq, Eq)]
pub enum RequestId {
    /// The id `null`.
    Null,
    /// A numeric id.
    Number(u64),
    /// A string id.
    Str(String),
}

/// The ASCII decimal digits of `n`, most significant first, without leading zeros.
pub open spec fn decimal_bytes(n: nat) -> Seq<u8>
    decreases n,
{
    if n < 10 {
        seq![(48 + n) as u8]
    } else {
        decimal_bytes(n / 10) + seq![(48 + n % 10) as u8]
    }
}

/// The UTF-8 bytes of the text form of an id: `null`, the decimal number, or the string.
pub open spec fn request_id_bytes(id: RequestId) -> Seq<u8> {
    match id {
        RequestId::Null => seq![110u8, 117u8, 108u8, 108u8],
        RequestId::Number(n) => decimal_bytes(n as nat),
        RequestId::Str(s) => vstd::utf8::encode_utf8(s@),
    }
}

fn push_decimal(n: u64, out: &mut Vec<u8>)
    ensures
        final(out)@ == old(out)@ + decimal_bytes(n as nat),
    decreases n,
{
    if n >= 10 {
        push_decimal(n / 10, out);
    }
    let digit: u64 = n % 10;
    out.push((48 + digit) as u8);
}

impl RequestId {
    /// The UTF-8 bytes of the id's text form.
    pub fn text_bytes(&self) -> (r: Vec<u8>)
        ensures
            r@ == request_id_bytes(*self),
    {
        match self {
            RequestId::Null => {
                let mut v: Vec<u8> = Vec::new();
                v.push(110u8);
                v.push(117u8);
                v.push(108u8);
                v.push(108u8);
                assert(v@ =~= seq![110u8, 117u8, 108u8, 108u8]);
                v
            },
            RequestId::Number(n) => {
                let mut v: Vec<u8> = Vec::new();
                push_decimal(*n, &mut v);
                assert(v@ =~= decimal_bytes(*n as nat));
                v
            },
            RequestId::Str(s) => {
                let mut v: Vec<u8> = Vec::new();
                v.extend_from_slice(s.as_str().as_bytes());
                assert(v@ =~= vstd::utf8::encode_utf8(s@));
                v
            },
        }
    }
}

/// The JSON-RPC error codes with which a request is answered here.
#[derive(Clone, Copy, Debug, PartialEq, Eq)]
pub enum ErrorCode {
    /// The request is not a valid request (-32600).
    InvalidRequest,
    /// The server could not handle the request (-32603).
    InternalError,
}

impl ErrorCode {
    /// The numeric code of the error, as JSON-RPC 2.0 fixes it.
    pub fn code(&self) -> (r: i32)
        ensures
            r == match *self {
                ErrorCode::InvalidRequest => -32600i32,
                ErrorCode::InternalError => -32603i32,
            },
    {
        match self {
            ErrorCode::InvalidRequest => -32600,
            ErrorCode::InternalError => -32603,
        }
    }
}

} // verus!
