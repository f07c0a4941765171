use vstd::prelude::*;

use crate::codec::{copy_range, le16, push_bytes, push_u16, read_u16, u16_le, lemma_le16_round_trip};
use crate::error::CodecError;
use crate::token::{lemma_token_round_trip, token_of, Token};

verus! {

/// A value with a fixed binary layout on the wire.
pub trait XapPayload: Sized + View {
    /// The bytes written for a value.
    spec fn encoded(v: Self::V) -> Seq<u8>;

    /// The value that a sequence of bytes stands for, if any.
    spec fn decoded(b: Seq<u8>) -> Option<Self::V>;

    /// Reading back what was written gives the value that was written.
    proof fn lemma_round_trip(v: Self::V)
        ensures
            Self::decoded(Self::encoded(v)) == Some(v),
    ;

    /// Appends the encoding of `self`.
    fn write(&self, out: &mut Vec<u8>)
        ensures
            final(out)@ == old(out)@ + Self::encoded(self@),
    ;

    /// Reads a value that spans all of `b`.
    fn read(b: &[u8]) -> (r: Option<Self>)
        ensures
            r is Some <==> Self::decoded(b@) is Some,
            r is Some ==> r->0@ == Self::decoded(b@)->0,
    ;
}

/// A value that a device sends back in answer to a request.
pub trait XapResponse: Sized {
    /// The value read from the start of a response payload; bytes after it are padding.
    spec fn parsed(b: Seq<u8>) -> Option<Self>;

    fn read_response(b: &[u8]) -> (r: Option<Self>)
        ensures
            r == Self::parsed(b@),
    ;
}

/// A request type: one route, one payload layout, one response layout.
pub trait XapRequest: XapPayload {
    type Response: XapResponse;

    /// The route bytes naming subsystem, command and sub-command.
    spec fn route() -> Seq<u8>;

    fn id() -> (r: &'static [u8])
        ensures
            r@ == Self::route(),
            2 <= r@.len() <= 4,
    ;

    /// The lowest protocol version a device must speak to serve the request;
    /// zero where every version serves it.
    fn xap_version() -> u32 {
        0
    }

    /// Whether the device must be unlocked before it serves the request.
    spec fn secure() -> bool;

    fn is_secure() -> (r: bool)
        ensures
            r == Self::secure(),
    ;
}

/// The bytes of a request frame: token, length of route and payload, route, payload.
pub open spec fn request_frame(token: u16, route: Seq<u8>, payload: Seq<u8>) -> Seq<u8> {
    le16(token) + seq![(route.len() + payload.len()) as u8] + route + payload
}

/// Whether a request of this route and payload fits the one-byte length field.
pub open spec fn fits_frame(route: Seq<u8>, payload: Seq<u8>) -> bool {
    route.len() + payload.len() <= 255
}

/// What a device reads from a request frame of type `T`; bytes after the
/// announced length are report padding.
pub open spec fn parse_request<T: XapRequest>(b: Seq<u8>) -> Result<(Token, T::V), CodecError> {
    if b.len() < 3 {
        Err(CodecError::Truncated)
    } else {
        let raw = u16_le(b[0], b[1]);
        let len = b[2] as int;
        let route = T::route();
        if token_of(raw) is None {
            Err(CodecError::InvalidToken(raw))
        } else if b.len() < 3 + len {
            Err(CodecError::Truncated)
        } else if len < route.len() || b.subrange(3, 3 + route.len() as int) != route {
            Err(CodecError::RouteMismatch)
        } else {
            match T::decoded(b.subrange(3 + route.len() as int, 3 + len)) {
                Some(v) => Ok((token_of(raw)->0, v)),
                None => Err(CodecError::LengthMismatch),
            }
        }
    }
}

/// A request with the token it is sent under.
pub struct RawRequest<T: XapRequest> {
    token: Token,
    payload: T,
}

impl<T: XapRequest> RawRequest<T> {
    pub closed spec fn token_spec(&self) -> Token {
        self.token
    }

    pub closed spec fn payload_spec(&self) -> T::V {
        self.payload@
    }

    /// Wraps `payload` under a freshly minted response token.
    pub fn new(payload: T) -> (r: Self)
        ensures
            r.token_spec() is WithResponse,
            r.token_spec().wf(),
            r.payload_spec() == payload@,
    {
        RawRequest { token: Token::regular_token(), payload }
    }

    pub fn token(&self) -> (r: &Token)
        ensures
            *r == self.token_spec(),
    {
        &self.token
    }

    /// Writes the frame; the length byte is written as a placeholder and
    /// patched once the payload has been serialised.
    pub fn encode(&self) -> (r: Result<Vec<u8>, CodecError>)
        ensures
            r is Ok <==> fits_frame(T::route(), T::encoded(self.payload_spec())),
            r is Ok ==> r->Ok_0@ == request_frame(
                self.token_spec().raw_spec(),
                T::route(),
                T::encoded(self.payload_spec()),
            ),
            r is Err ==> r->Err_0 == CodecError::FrameTooLong,
    {
        let mut out: Vec<u8> = Vec::new();
        push_u16(&mut out, self.token.raw());
        out.push(0u8);
        push_bytes(&mut out, T::id());
        self.payload.write(&mut out);
        let ghost written = out@;
        let body_len = out.len() - 3;
        if body_len > 255 {
            return Err(CodecError::FrameTooLong);
        }
        out.set(2, body_len as u8);
        proof {
            let route = T::route();
            let payload = T::encoded(self.payload@);
            assert(written =~= le16(self.token.raw_spec()) + seq![0u8] + route + payload);
            assert(out@ =~= request_frame(self.token.raw_spec(), route, payload));
        }
        Ok(out)
    }
}

/// Reads a request frame of type `T`, as a device does.
pub fn decode_request<T: XapRequest>(b: &[u8]) -> (r: Result<(Token, T), CodecError>)
    ensures
        r is Ok <==> parse_request::<T>(b@) is Ok,
        r is Ok ==> (r->Ok_0.0, r->Ok_0.1@) == parse_request::<T>(b@)->Ok_0,
        r is Err ==> r->Err_0 == parse_request::<T>(b@)->Err_0,
{
    if b.len() < 3 {
        return Err(CodecError::Truncated);
    }
    let raw = read_u16(b, 0);
    let token = match Token::from_raw(raw) {
        Ok(t) => t,
        Err(e) => return Err(e),
    };
    let len = b[2] as usize;
    if b.len() < 3 + len {
        return Err(CodecError::Truncated);
    }
    let route = T::id();
    if len < route.len() {
        return Err(CodecError::RouteMismatch);
    }
    let mut i: usize = 0;
    while i < route.len()
        invariant
            i <= route@.len() <= len <= 255,
            3 + len <= b@.len(),
            len == b@[2] as int,
            route@ == T::route(),
            token_of(u16_le(b@[0], b@[1])) is Some,
            forall|j: int| 0 <= j < i ==> b@[3 + j] == route@[j],
        decreases route@.len() - i,
    {
        if b[3 + i] != route[i] {
            assert(b@.subrange(3, 3 + route@.len() as int)[i as int] != route@[i as int]);
            return Err(CodecError::RouteMismatch);
        }
        i = i + 1;
    }
    assert(b@.subrange(3, 3 + route@.len() as int) =~= route@);
    let body = copy_range(b, 3 + route.len(), 3 + len);
    match T::read(body.as_slice()) {
        Some(v) => Ok((token, v)),
        None => Err(CodecError::LengthMismatch),
    }
}

/// Decoding an encoded request frame gives back the token and the payload
/// that were encoded, whatever the request type.
pub proof fn lemma_request_round_trip<T: XapRequest>(token: Token, v: T::V)
    requires
        token.wf(),
        fits_frame(T::route(), T::encoded(v)),
    ensures
        parse_request::<T>(request_frame(token.raw_spec(), T::route(), T::encoded(v))) == Ok::<
            (Token, T::V),
            CodecError,
        >((token, v)),
{
    let route = T::route();
    let payload = T::encoded(v);
    let b = request_frame(token.raw_spec(), route, payload);
    lemma_le16_round_trip(token.raw_spec());
    lemma_token_round_trip(token);
    T::lemma_round_trip(v);
    assert(b[0] == le16(token.raw_spec())[0]);
    assert(b[1] == le16(token.raw_spec())[1]);
    assert(b[2] as int == route.len() + payload.len());
    assert(b.subrange(3, 3 + route.len() as int) =~= route);
    assert(b.subrange(3 + route.len() as int, 3 + route.len() + payload.len() as int) =~= payload);
}

/// The length byte of an encoded request counts the route and payload bytes
/// that follow it, for every payload that fits, from empty to the largest.
pub proof fn lemma_length_byte(token: u16, route: Seq<u8>, payload: Seq<u8>)
    requires
        fits_frame(route, payload),
    ensures
        request_frame(token, route, payload)[2] as int == route.len() + payload.len(),
        request_frame(token, route, payload).len() == 3 + route.len() + payload.len(),
{
}

} // verus!
