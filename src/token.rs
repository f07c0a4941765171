use vstd::prelude::*;

use crate::error::CodecError;

verus! {

/// Lowest token id that a request awaiting a response may carry.
pub const MIN_RESPONSE_TOKEN: u16 = 0x0100;

/// Highest token id that a request awaiting a response may carry.
pub const MAX_RESPONSE_TOKEN: u16 = 0xFFFD;

/// Raw value of the fire-and-forget token.
pub const WITHOUT_RESPONSE_TOKEN: u16 = 0xFFFE;

/// Raw value carried by every unsolicited frame.
pub const BROADCAST_TOKEN: u16 = 0xFFFF;

/// Transaction identifier and frame-kind marker of a frame.
#[derive(Debug, Clone, Copy, PartialEq, Eq, Structural)]
pub enum Token {
    WithResponse(u16),
    WithoutResponse,
    Broadcast,
}

/// What a raw 16-bit token means, or `None` for a value below the request window.
pub open spec fn token_of(raw: u16) -> Option<Token> {
    if raw == WITHOUT_RESPONSE_TOKEN {
        Some(Token::WithoutResponse)
    } else if raw == BROADCAST_TOKEN {
        Some(Token::Broadcast)
    } else if raw >= MIN_RESPONSE_TOKEN {
        Some(Token::WithResponse(raw))
    } else {
        None
    }
}

/// Relies on rand's `Uniform::from` an inclusive range and `Uniform::sample`:
/// the value drawn lies in the range, which must not be empty.
#[verifier::external_body]
fn random_in(lo: u16, hi: u16) -> (r: u16)
    requires
        lo <= hi,
    ensures
        lo <= r <= hi,
{
    rand::distributions::Distribution::sample(
        &rand::distributions::Uniform::from(lo..=hi),
        &mut rand::thread_rng(),
    )
}

impl Token {
    /// A token that can stand on the wire: a response token lies in the request window.
    pub open spec fn wf(self) -> bool {
        match self {
            Token::WithResponse(id) => MIN_RESPONSE_TOKEN <= id <= MAX_RESPONSE_TOKEN,
            _ => true,
        }
    }

    /// The 16-bit value written for this token.
    pub open spec fn raw_spec(self) -> u16 {
        match self {
            Token::WithResponse(id) => id,
            Token::WithoutResponse => WITHOUT_RESPONSE_TOKEN,
            Token::Broadcast => BROADCAST_TOKEN,
        }
    }

    /// Mints a fresh request token, drawn uniformly from the request window.
    pub fn regular_token() -> (t: Token)
        ensures
            t is WithResponse,
            t.wf(),
    {
        Token::WithResponse(random_in(MIN_RESPONSE_TOKEN, MAX_RESPONSE_TOKEN))
    }

    /// The 16-bit value written for this token.
    pub fn raw(&self) -> (r: u16)
        ensures
            r == self.raw_spec(),
    {
        match self {
            Token::WithResponse(id) => *id,
            Token::WithoutResponse => WITHOUT_RESPONSE_TOKEN,
            Token::Broadcast => BROADCAST_TOKEN,
        }
    }

    /// Classifies a raw 16-bit token read from a frame.
    pub fn from_raw(raw: u16) -> (r: Result<Token, CodecError>)
        ensures
            token_of(raw) is Some ==> r == Ok::<Token, CodecError>(token_of(raw)->0),
            token_of(raw) is None ==> r == Err::<Token, CodecError>(CodecError::InvalidToken(raw)),
    {
        if raw == WITHOUT_RESPONSE_TOKEN {
            Ok(Token::WithoutResponse)
        } else if raw == BROADCAST_TOKEN {
            Ok(Token::Broadcast)
        } else if raw >= MIN_RESPONSE_TOKEN {
            Ok(Token::WithResponse(raw))
        } else {
            Err(CodecError::InvalidToken(raw))
        }
    }
}

/// Every well-formed token reads back as itself from its raw value.
pub proof fn lemma_token_round_trip(t: Token)
    requires
        t.wf(),
    ensures
        token_of(t.raw_spec()) == Some(t),
{
}

} // verus!
