use vstd::prelude::*;
use vstd::utf8::{decode_utf8, valid_utf8};

use crate::codec::{copy_range, read_u16, u16_le};
use crate::error::{CodecError, XapError};
use crate::token::{token_of, Token};
use crate::xap::{secure_status_of, XAPSecureStatus};

verus! {

/// The kind of an unsolicited frame.
#[derive(Debug, Clone, Copy, PartialEq, Eq, Structural)]
pub enum BroadcastType {
    Log,
    SecureStatus,
    Keyboard,
    User,
}

/// The broadcast type that a type byte names.
pub open spec fn broadcast_type_of(b: u8) -> Option<BroadcastType> {
    if b == 0 {
        Some(BroadcastType::Log)
    } else if b == 1 {
        Some(BroadcastType::SecureStatus)
    } else if b == 2 {
        Some(BroadcastType::Keyboard)
    } else if b == 3 {
        Some(BroadcastType::User)
    } else {
        None
    }
}

/// What an unsolicited report holds: the broadcast token, type and the
/// payload that the length byte announces. Bytes after the payload are
/// report padding.
pub open spec fn parse_broadcast(b: Seq<u8>) -> Result<(Token, BroadcastType, Seq<u8>), CodecError> {
    if b.len() < 2 {
        Err(CodecError::Truncated)
    } else if token_of(u16_le(b[0], b[1])) is None {
        Err(CodecError::InvalidToken(u16_le(b[0], b[1])))
    } else if token_of(u16_le(b[0], b[1])) != Some(Token::Broadcast) {
        Err(CodecError::UnexpectedToken(u16_le(b[0], b[1])))
    } else if b.len() < 3 {
        Err(CodecError::Truncated)
    } else if broadcast_type_of(b[2]) is None {
        Err(CodecError::UnknownBroadcastType(b[2]))
    } else if b.len() < 4 || b.len() < 4 + b[3] {
        Err(CodecError::Truncated)
    } else {
        Ok(
            (
                token_of(u16_le(b[0], b[1]))->0,
                broadcast_type_of(b[2])->0,
                b.subrange(4, 4 + b[3]),
            ),
        )
    }
}

/// An unsolicited frame whose payload is not decoded yet.
#[derive(Debug)]
pub struct BroadcastRaw {
    token: Token,
    broadcast_type: BroadcastType,
    payload: Vec<u8>,
}

/// A payload that a broadcast can carry.
pub trait XAPBroadcast: Sized + View {
    /// The value a payload stands for, or why it stands for none.
    spec fn parse(b: Seq<u8>) -> Result<Self::V, CodecError>;

    fn read(b: &[u8]) -> (r: Result<Self, CodecError>)
        ensures
            r is Ok <==> Self::parse(b@) is Ok,
            r is Ok ==> r->Ok_0@ == Self::parse(b@)->Ok_0,
            r is Err ==> r->Err_0 == Self::parse(b@)->Err_0,
    ;
}

impl BroadcastRaw {
    pub closed spec fn token_spec(&self) -> Token {
        self.token
    }

    pub closed spec fn type_spec(&self) -> BroadcastType {
        self.broadcast_type
    }

    pub closed spec fn payload_spec(&self) -> Seq<u8> {
        self.payload@
    }

    pub fn broadcast_type(&self) -> (r: &BroadcastType)
        ensures
            *r == self.type_spec(),
    {
        &self.broadcast_type
    }

    pub fn token(&self) -> (r: &Token)
        ensures
            *r == self.token_spec(),
    {
        &self.token
    }

    pub fn payload(&self) -> (r: &[u8])
        ensures
            r@ == self.payload_spec(),
    {
        self.payload.as_slice()
    }

    /// Splits a broadcast report into token, type and payload; a report
    /// under any other token is refused. The type is classified before
    /// anything of the payload is looked at.
    pub fn from_raw_report(report: &[u8]) -> (r: Result<BroadcastRaw, XapError>)
        ensures
            r is Ok <==> parse_broadcast(report@) is Ok,
            r is Ok ==> parse_broadcast(report@)->Ok_0 == (
                r->Ok_0.token_spec(),
                r->Ok_0.type_spec(),
                r->Ok_0.payload_spec(),
            ),
            r is Err ==> r->Err_0 == XapError::BitHandling(parse_broadcast(report@)->Err_0),
    {
        if report.len() < 2 {
            return Err(XapError::BitHandling(CodecError::Truncated));
        }
        let raw = read_u16(report, 0);
        let token = match Token::from_raw(raw) {
            Ok(Token::Broadcast) => Token::Broadcast,
            Ok(_) => return Err(XapError::BitHandling(CodecError::UnexpectedToken(raw))),
            Err(e) => return Err(XapError::BitHandling(e)),
        };
        if report.len() < 3 {
            return Err(XapError::BitHandling(CodecError::Truncated));
        }
        let broadcast_type = match report[2] {
            0 => BroadcastType::Log,
            1 => BroadcastType::SecureStatus,
            2 => BroadcastType::Keyboard,
            3 => BroadcastType::User,
            other => return Err(XapError::BitHandling(CodecError::UnknownBroadcastType(other))),
        };
        if report.len() < 4 || report.len() - 4 < report[3] as usize {
            return Err(XapError::BitHandling(CodecError::Truncated));
        }
        let payload = copy_range(report, 4, 4 + report[3] as usize);
        Ok(BroadcastRaw { token, broadcast_type, payload })
    }

    /// Decodes the payload as a `T`.
    pub fn into_xap_broadcast<T: XAPBroadcast>(self) -> (r: Result<T, XapError>)
        ensures
            r is Ok <==> T::parse(self.payload_spec()) is Ok,
            r is Ok ==> r->Ok_0@ == T::parse(self.payload_spec())->Ok_0,
            r is Err ==> r->Err_0 == XapError::BitHandling(T::parse(self.payload_spec())->Err_0),
    {
        match T::read(self.payload.as_slice()) {
            Ok(v) => Ok(v),
            Err(e) => Err(XapError::BitHandling(e)),
        }
    }
}

/// Relies on `String::from_utf8`: it accepts exactly the valid UTF-8 byte
/// sequences and keeps the characters they encode.
#[verifier::external_body]
fn string_from_utf8(b: Vec<u8>) -> (r: Option<String>)
    ensures
        r is Some <==> valid_utf8(b@),
        r is Some ==> r->0@ == decode_utf8(b@),
{
    String::from_utf8(b).ok()
}

/// Text that the keyboard printed to its console.
#[derive(Debug)]
pub struct LogBroadcast(pub String);

impl View for LogBroadcast {
    type V = Seq<char>;

    open spec fn view(&self) -> Seq<char> {
        self.0@
    }
}

impl XAPBroadcast for LogBroadcast {
    open spec fn parse(b: Seq<u8>) -> Result<Seq<char>, CodecError> {
        if valid_utf8(b) {
            Ok(decode_utf8(b))
        } else {
            Err(CodecError::InvalidUtf8)
        }
    }

    fn read(b: &[u8]) -> (r: Result<LogBroadcast, CodecError>) {
        let bytes = copy_range(b, 0, b.len());
        assert(bytes@ =~= b@);
        match string_from_utf8(bytes) {
            Some(s) => Ok(LogBroadcast(s)),
            None => Err(CodecError::InvalidUtf8),
        }
    }
}

/// The secure status of the keyboard changed.
#[derive(Debug, Clone, Copy, PartialEq, Eq, Structural)]
pub struct SecureStatusBroadcast(pub XAPSecureStatus);

impl View for SecureStatusBroadcast {
    type V = SecureStatusBroadcast;

    open spec fn view(&self) -> SecureStatusBroadcast {
        *self
    }
}

impl XAPBroadcast for SecureStatusBroadcast {
    open spec fn parse(b: Seq<u8>) -> Result<SecureStatusBroadcast, CodecError> {
        if b.len() != 1 {
            Err(CodecError::LengthMismatch)
        } else if secure_status_of(b[0]) is None {
            Err(CodecError::UnknownSecureStatus(b[0]))
        } else {
            Ok(SecureStatusBroadcast(secure_status_of(b[0])->0))
        }
    }

    fn read(b: &[u8]) -> (r: Result<SecureStatusBroadcast, CodecError>) {
        if b.len() != 1 {
            return Err(CodecError::LengthMismatch);
        }
        match XAPSecureStatus::from_byte(b[0]) {
            Ok(s) => Ok(SecureStatusBroadcast(s)),
            Err(e) => Err(e),
        }
    }
}

/// A touch screen was pressed at a point.
#[derive(Debug, Clone, Copy, PartialEq, Eq, Structural)]
pub struct ScreenPressed {
    pub screen_id: u8,
    pub x: u16,
    pub y: u16,
}

impl View for ScreenPressed {
    type V = ScreenPressed;

    open spec fn view(&self) -> ScreenPressed {
        *self
    }
}

impl XAPBroadcast for ScreenPressed {
    open spec fn parse(b: Seq<u8>) -> Result<ScreenPressed, CodecError> {
        if b.len() == 5 {
            Ok(ScreenPressed { screen_id: b[0], x: u16_le(b[1], b[2]), y: u16_le(b[3], b[4]) })
        } else {
            Err(CodecError::LengthMismatch)
        }
    }

    fn read(b: &[u8]) -> (r: Result<ScreenPressed, CodecError>) {
        if b.len() != 5 {
            return Err(CodecError::LengthMismatch);
        }
        Ok(ScreenPressed { screen_id: b[0], x: read_u16(b, 1), y: read_u16(b, 3) })
    }
}

/// A touch screen was released.
#[derive(Debug, Clone, Copy, PartialEq, Eq, Structural)]
pub struct ScreenReleased {
    pub screen_id: u8,
}

impl View for ScreenReleased {
    type V = ScreenReleased;

    open spec fn view(&self) -> ScreenReleased {
        *self
    }
}

impl XAPBroadcast for ScreenReleased {
    open spec fn parse(b: Seq<u8>) -> Result<ScreenReleased, CodecError> {
        if b.len() == 1 {
            Ok(ScreenReleased { screen_id: b[0] })
        } else {
            Err(CodecError::LengthMismatch)
        }
    }

    fn read(b: &[u8]) -> (r: Result<ScreenReleased, CodecError>) {
        if b.len() != 1 {
            return Err(CodecError::LengthMismatch);
        }
        Ok(ScreenReleased { screen_id: b[0] })
    }
}

/// The highest active layer changed.
#[derive(Debug, Clone, Copy, PartialEq, Eq, Structural)]
pub struct LayerChanged {
    pub layer: u8,
}

impl View for LayerChanged {
    type V = LayerChanged;

    open spec fn view(&self) -> LayerChanged {
        *self
    }
}

impl XAPBroadcast for LayerChanged {
    open spec fn parse(b: Seq<u8>) -> Result<LayerChanged, CodecError> {
        if b.len() == 1 {
            Ok(LayerChanged { layer: b[0] })
        } else {
            Err(CodecError::LengthMismatch)
        }
    }

    fn read(b: &[u8]) -> (r: Result<LayerChanged, CodecError>) {
        if b.len() != 1 {
            return Err(CodecError::LengthMismatch);
        }
        Ok(LayerChanged { layer: b[0] })
    }
}

/// The keyboard is shutting down; non-zero when it jumps to its bootloader.
#[derive(Debug, Clone, Copy, PartialEq, Eq, Structural)]
pub struct Shutdown {
    pub bootloader: u8,
}

impl View for Shutdown {
    type V = Shutdown;

    open spec fn view(&self) -> Shutdown {
        *self
    }
}

impl XAPBroadcast for Shutdown {
    open spec fn parse(b: Seq<u8>) -> Result<Shutdown, CodecError> {
        if b.len() == 1 {
            Ok(Shutdown { bootloader: b[0] })
        } else {
            Err(CodecError::LengthMismatch)
        }
    }

    fn read(b: &[u8]) -> (r: Result<Shutdown, CodecError>) {
        if b.len() != 1 {
            return Err(CodecError::LengthMismatch);
        }
        Ok(Shutdown { bootloader: b[0] })
    }
}

/// A key changed state while the key tester runs.
#[derive(Debug, Clone, Copy, PartialEq, Eq, Structural)]
pub struct KeyTester {
    pub pressed: u8,
    pub row: u8,
    pub col: u8,
}

impl View for KeyTester {
    type V = KeyTester;

    open spec fn view(&self) -> KeyTester {
        *self
    }
}

impl XAPBroadcast for KeyTester {
    open spec fn parse(b: Seq<u8>) -> Result<KeyTester, CodecError> {
        if b.len() == 3 {
            Ok(KeyTester { pressed: b[0], row: b[1], col: b[2] })
        } else {
            Err(CodecError::LengthMismatch)
        }
    }

    fn read(b: &[u8]) -> (r: Result<KeyTester, CodecError>) {
        if b.len() != 3 {
            return Err(CodecError::LengthMismatch);
        }
        Ok(KeyTester { pressed: b[0], row: b[1], col: b[2] })
    }
}

/// A key changed state; `str` is the text the keyboard attaches to it.
#[derive(Debug, Clone)]
pub struct KeyEvent {
    pub keycode: u16,
    pub pressed: u8,
    pub layer: u8,
    pub row: u8,
    pub col: u8,
    pub mods: u8,
    pub str: Vec<u8>,
}

/// The mathematical value of a [`KeyEvent`].
pub struct KeyEventView {
    pub keycode: u16,
    pub pressed: u8,
    pub layer: u8,
    pub row: u8,
    pub col: u8,
    pub mods: u8,
    pub str: Seq<u8>,
}

impl View for KeyEvent {
    type V = KeyEventView;

    open spec fn view(&self) -> KeyEventView {
        KeyEventView {
            keycode: self.keycode,
            pressed: self.pressed,
            layer: self.layer,
            row: self.row,
            col: self.col,
            mods: self.mods,
            str: self.str@,
        }
    }
}

/// Six fixed bytes follow the keycode; the text runs from there to a NUL
/// that ends the payload.
pub open spec fn key_event_text_ok(b: Seq<u8>) -> bool {
    &&& b.len() >= 8
    &&& b[b.len() - 1] == 0
    &&& forall|i: int| 7 <= i < b.len() - 1 ==> b[i] != 0
}

impl XAPBroadcast for KeyEvent {
    open spec fn parse(b: Seq<u8>) -> Result<KeyEventView, CodecError> {
        if key_event_text_ok(b) {
            Ok(
                KeyEventView {
                    keycode: u16_le(b[0], b[1]),
                    pressed: b[2],
                    layer: b[3],
                    row: b[4],
                    col: b[5],
                    mods: b[6],
                    str: b.subrange(7, b.len() - 1),
                },
            )
        } else {
            Err(CodecError::LengthMismatch)
        }
    }

    fn read(b: &[u8]) -> (r: Result<KeyEvent, CodecError>) {
        if b.len() < 8 || b[b.len() - 1] != 0 {
            return Err(CodecError::LengthMismatch);
        }
        let end = b.len() - 1;
        let mut i: usize = 7;
        while i < end
            invariant
                7 <= i <= end,
                end == b@.len() - 1,
                forall|j: int| 7 <= j < i ==> b@[j] != 0,
            decreases end - i,
        {
            if b[i] == 0 {
                return Err(CodecError::LengthMismatch);
            }
            i = i + 1;
        }
        Ok(
            KeyEvent {
                keycode: read_u16(b, 0),
                pressed: b[2],
                layer: b[3],
                row: b[4],
                col: b[5],
                mods: b[6],
                str: copy_range(b, 7, end),
            },
        )
    }
}

/// A broadcast of the `User` type, selected by its first payload byte.
#[derive(Debug, Clone)]
pub enum UserBroadcast {
    ScreenPressed(ScreenPressed),
    ScreenReleased(ScreenReleased),
    LayerChanged(LayerChanged),
    KeyEvent(KeyEvent),
    Shutdown(Shutdown),
    KeyTester(KeyTester),
}

/// The mathematical value of a [`UserBroadcast`].
pub enum UserBroadcastView {
    ScreenPressed(ScreenPressed),
    ScreenReleased(ScreenReleased),
    LayerChanged(LayerChanged),
    KeyEvent(KeyEventView),
    Shutdown(Shutdown),
    KeyTester(KeyTester),
}

impl View for UserBroadcast {
    type V = UserBroadcastView;

    open spec fn view(&self) -> UserBroadcastView {
        match self {
            UserBroadcast::ScreenPressed(m) => UserBroadcastView::ScreenPressed(*m),
            UserBroadcast::ScreenReleased(m) => UserBroadcastView::ScreenReleased(*m),
            UserBroadcast::LayerChanged(m) => UserBroadcastView::LayerChanged(*m),
            UserBroadcast::KeyEvent(m) => UserBroadcastView::KeyEvent(m@),
            UserBroadcast::Shutdown(m) => UserBroadcastView::Shutdown(*m),
            UserBroadcast::KeyTester(m) => UserBroadcastView::KeyTester(*m),
        }
    }
}

impl XAPBroadcast for UserBroadcast {
    open spec fn parse(b: Seq<u8>) -> Result<UserBroadcastView, CodecError> {
        if b.len() == 0 {
            Err(CodecError::Truncated)
        } else {
            let rest = b.subrange(1, b.len() as int);
            if b[0] == 0 {
                match ScreenPressed::parse(rest) {
                    Ok(m) => Ok(UserBroadcastView::ScreenPressed(m)),
                    Err(e) => Err(e),
                }
            } else if b[0] == 1 {
                match ScreenReleased::parse(rest) {
                    Ok(m) => Ok(UserBroadcastView::ScreenReleased(m)),
                    Err(e) => Err(e),
                }
            } else if b[0] == 2 {
                match LayerChanged::parse(rest) {
                    Ok(m) => Ok(UserBroadcastView::LayerChanged(m)),
                    Err(e) => Err(e),
                }
            } else if b[0] == 3 {
                match KeyEvent::parse(rest) {
                    Ok(m) => Ok(UserBroadcastView::KeyEvent(m)),
                    Err(e) => Err(e),
                }
            } else if b[0] == 4 {
                match Shutdown::parse(rest) {
                    Ok(m) => Ok(UserBroadcastView::Shutdown(m)),
                    Err(e) => Err(e),
                }
            } else if b[0] == 5 {
                match KeyTester::parse(rest) {
                    Ok(m) => Ok(UserBroadcastView::KeyTester(m)),
                    Err(e) => Err(e),
                }
            } else {
                Err(CodecError::UnknownUserBroadcast(b[0]))
            }
        }
    }

    fn read(b: &[u8]) -> (r: Result<UserBroadcast, CodecError>) {
        if b.len() == 0 {
            return Err(CodecError::Truncated);
        }
        let rest_vec = copy_range(b, 1, b.len());
        let rest = rest_vec.as_slice();
        match b[0] {
            0 => match ScreenPressed::read(rest) {
                Ok(m) => Ok(UserBroadcast::ScreenPressed(m)),
                Err(e) => Err(e),
            },
            1 => match ScreenReleased::read(rest) {
                Ok(m) => Ok(UserBroadcast::ScreenReleased(m)),
                Err(e) => Err(e),
            },
            2 => match LayerChanged::read(rest) {
                Ok(m) => Ok(UserBroadcast::LayerChanged(m)),
                Err(e) => Err(e),
            },
            3 => match KeyEvent::read(rest) {
                Ok(m) => Ok(UserBroadcast::KeyEvent(m)),
                Err(e) => Err(e),
            },
            4 => match Shutdown::read(rest) {
                Ok(m) => Ok(UserBroadcast::Shutdown(m)),
                Err(e) => Err(e),
            },
            5 => match KeyTester::read(rest) {
                Ok(m) => Ok(UserBroadcast::KeyTester(m)),
                Err(e) => Err(e),
            },
            other => Err(CodecError::UnknownUserBroadcast(other)),
        }
    }
}

/// A user broadcast selects its variant by its first payload byte, after the
/// outer type: discriminant 0 with a well-sized payload is a screen press,
/// 4 a shutdown, and a discriminant above 5 is an error, never a variant.
pub proof fn lemma_user_broadcast_demux(b: Seq<u8>)
    requires
        b.len() >= 1,
    ensures
        b[0] == 0 && b.len() == 6 ==> UserBroadcast::parse(b) is Ok && UserBroadcast::parse(
            b,
        )->Ok_0 is ScreenPressed,
        b[0] == 4 && b.len() == 2 ==> UserBroadcast::parse(b) is Ok && UserBroadcast::parse(
            b,
        )->Ok_0 is Shutdown,
        b[0] > 5 ==> UserBroadcast::parse(b) == Err::<UserBroadcastView, CodecError>(
            CodecError::UnknownUserBroadcast(b[0]),
        ),
{
}

/// The outer type byte is classified before any payload byte is read: a
/// report with an unknown type byte is refused for that byte, whatever its
/// payload holds.
pub proof fn lemma_type_before_payload(b: Seq<u8>)
    requires
        b.len() >= 3,
        token_of(u16_le(b[0], b[1])) == Some(Token::Broadcast),
        broadcast_type_of(b[2]) is None,
    ensures
        parse_broadcast(b) == Err::<(Token, BroadcastType, Seq<u8>), CodecError>(
            CodecError::UnknownBroadcastType(b[2]),
        ),
{
}

} // verus!
