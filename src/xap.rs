use vstd::prelude::*;

use crate::codec::{read_u16, read_u32, u16_le, u32_le};
use crate::error::CodecError;
use crate::request::{XapPayload, XapRequest, XapResponse};

verus! {

/// Whether the privileged commands of a device are available.
#[derive(Debug, Clone, Copy, PartialEq, Eq, Structural)]
pub enum XAPSecureStatus {
    Locked,
    Unlocking,
    Unlocked,
}

/// The secure status that a status byte names.
pub open spec fn secure_status_of(b: u8) -> Option<XAPSecureStatus> {
    if b == 0 {
        Some(XAPSecureStatus::Locked)
    } else if b == 1 {
        Some(XAPSecureStatus::Unlocking)
    } else if b == 2 {
        Some(XAPSecureStatus::Unlocked)
    } else {
        None
    }
}

impl XAPSecureStatus {
    pub fn from_byte(b: u8) -> (r: Result<XAPSecureStatus, CodecError>)
        ensures
            secure_status_of(b) is Some ==> r == Ok::<XAPSecureStatus, CodecError>(
                secure_status_of(b)->0,
            ),
            secure_status_of(b) is None ==> r == Err::<XAPSecureStatus, CodecError>(
                CodecError::UnknownSecureStatus(b),
            ),
    {
        match b {
            0 => Ok(XAPSecureStatus::Locked),
            1 => Ok(XAPSecureStatus::Unlocking),
            2 => Ok(XAPSecureStatus::Unlocked),
            other => Err(CodecError::UnknownSecureStatus(other)),
        }
    }
}

impl XapResponse for XAPSecureStatus {
    open spec fn parsed(b: Seq<u8>) -> Option<XAPSecureStatus> {
        if b.len() >= 1 {
            secure_status_of(b[0])
        } else {
            None
        }
    }

    fn read_response(b: &[u8]) -> (r: Option<XAPSecureStatus>) {
        if b.len() == 0 {
            return None;
        }
        match XAPSecureStatus::from_byte(b[0]) {
            Ok(s) => Some(s),
            Err(_) => None,
        }
    }
}

impl XapResponse for u32 {
    open spec fn parsed(b: Seq<u8>) -> Option<u32> {
        if b.len() >= 4 {
            Some(u32_le(b[0], b[1], b[2], b[3]))
        } else {
            None
        }
    }

    fn read_response(b: &[u8]) -> (r: Option<u32>) {
        if b.len() >= 4 {
            Some(read_u32(b, 0))
        } else {
            None
        }
    }
}

/// USB vendor, product and version ids of a board, and its QMK identifier.
#[derive(Debug, Clone, Copy, PartialEq, Eq, Structural)]
pub struct QMKBoardIdentifiers {
    pub vendor_id: u16,
    pub product_id: u16,
    pub product_version: u16,
    pub qmk_identifier: u32,
}

impl XapResponse for QMKBoardIdentifiers {
    open spec fn parsed(b: Seq<u8>) -> Option<QMKBoardIdentifiers> {
        if b.len() >= 10 {
            Some(
                QMKBoardIdentifiers {
                    vendor_id: u16_le(b[0], b[1]),
                    product_id: u16_le(b[2], b[3]),
                    product_version: u16_le(b[4], b[5]),
                    qmk_identifier: u32_le(b[6], b[7], b[8], b[9]),
                },
            )
        } else {
            None
        }
    }

    fn read_response(b: &[u8]) -> (r: Option<QMKBoardIdentifiers>) {
        if b.len() >= 10 {
            Some(
                QMKBoardIdentifiers {
                    vendor_id: read_u16(b, 0),
                    product_id: read_u16(b, 2),
                    product_version: read_u16(b, 4),
                    qmk_identifier: read_u32(b, 6),
                },
            )
        } else {
            None
        }
    }
}

/// Requests without arguments carry an empty payload.
impl XapPayload for () {
    open spec fn encoded(v: ()) -> Seq<u8> {
        Seq::empty()
    }

    open spec fn decoded(b: Seq<u8>) -> Option<()> {
        if b.len() == 0 {
            Some(())
        } else {
            None
        }
    }

    proof fn lemma_round_trip(v: ()) {
    }

    fn write(&self, out: &mut Vec<u8>) {
        assert(out@ =~= old(out)@ + Seq::<u8>::empty());
    }

    fn read(b: &[u8]) -> (r: Option<()>) {
        if b.len() == 0 {
            Some(())
        } else {
            None
        }
    }
}

/// Route of the request that unlocks a device.
pub open spec fn secure_unlock_route() -> Seq<u8> {
    seq![0x0u8, 0x4u8]
}

/// Route of the request that locks a device.
pub open spec fn secure_lock_route() -> Seq<u8> {
    seq![0x0u8, 0x5u8]
}

/// Asks for the XAP protocol version the device speaks.
#[derive(Debug, Clone, Copy)]
pub struct XapVersionRequest(pub ());

impl View for XapVersionRequest {
    type V = ();

    open spec fn view(&self) -> () {
        ()
    }
}

impl XapPayload for XapVersionRequest {
    open spec fn encoded(v: ()) -> Seq<u8> {
        <() as XapPayload>::encoded(v)
    }

    open spec fn decoded(b: Seq<u8>) -> Option<()> {
        <() as XapPayload>::decoded(b)
    }

    proof fn lemma_round_trip(v: ()) {
    }

    fn write(&self, out: &mut Vec<u8>) {
        self.0.write(out);
    }

    fn read(b: &[u8]) -> (r: Option<XapVersionRequest>) {
        match <() as XapPayload>::read(b) {
            Some(p) => Some(XapVersionRequest(p)),
            None => None,
        }
    }
}

impl XapRequest for XapVersionRequest {
    type Response = u32;

    open spec fn route() -> Seq<u8> {
        seq![0x0u8, 0x0u8]
    }

    fn id() -> (r: &'static [u8]) {
        &[0x0, 0x0]
    }

    open spec fn secure() -> bool {
        false
    }

    fn is_secure() -> (r: bool) {
        false
    }
}

/// Asks which XAP subsystem routes the device serves.
#[derive(Debug, Clone, Copy)]
pub struct XapCapabilitiesRequest(pub ());

impl View for XapCapabilitiesRequest {
    type V = ();

    open spec fn view(&self) -> () {
        ()
    }
}

impl XapPayload for XapCapabilitiesRequest {
    open spec fn encoded(v: ()) -> Seq<u8> {
        <() as XapPayload>::encoded(v)
    }

    open spec fn decoded(b: Seq<u8>) -> Option<()> {
        <() as XapPayload>::decoded(b)
    }

    proof fn lemma_round_trip(v: ()) {
    }

    fn write(&self, out: &mut Vec<u8>) {
        self.0.write(out);
    }

    fn read(b: &[u8]) -> (r: Option<XapCapabilitiesRequest>) {
        match <() as XapPayload>::read(b) {
            Some(p) => Some(XapCapabilitiesRequest(p)),
            None => None,
        }
    }
}

impl XapRequest for XapCapabilitiesRequest {
    type Response = u32;

    open spec fn route() -> Seq<u8> {
        seq![0x0u8, 0x1u8]
    }

    fn id() -> (r: &'static [u8]) {
        &[0x0, 0x1]
    }

    open spec fn secure() -> bool {
        false
    }

    fn is_secure() -> (r: bool) {
        false
    }
}

/// Asks which subsystems are enabled.
#[derive(Debug, Clone, Copy)]
pub struct XapEnabledSubsystemCapabilitiesRequest(pub ());

impl View for XapEnabledSubsystemCapabilitiesRequest {
    type V = ();

    open spec fn view(&self) -> () {
        ()
    }
}

impl XapPayload for XapEnabledSubsystemCapabilitiesRequest {
    open spec fn encoded(v: ()) -> Seq<u8> {
        <() as XapPayload>::encoded(v)
    }

    open spec fn decoded(b: Seq<u8>) -> Option<()> {
        <() as XapPayload>::decoded(b)
    }

    proof fn lemma_round_trip(v: ()) {
    }

    fn write(&self, out: &mut Vec<u8>) {
        self.0.write(out);
    }

    fn read(b: &[u8]) -> (r: Option<XapEnabledSubsystemCapabilitiesRequest>) {
        match <() as XapPayload>::read(b) {
            Some(p) => Some(XapEnabledSubsystemCapabilitiesRequest(p)),
            None => None,
        }
    }
}

impl XapRequest for XapEnabledSubsystemCapabilitiesRequest {
    type Response = u32;

    open spec fn route() -> Seq<u8> {
        seq![0x0u8, 0x2u8]
    }

    fn id() -> (r: &'static [u8]) {
        &[0x0, 0x2]
    }

    open spec fn secure() -> bool {
        false
    }

    fn is_secure() -> (r: bool) {
        false
    }
}

/// Asks for the secure status.
#[derive(Debug, Clone, Copy)]
pub struct XapSecureStatusRequest(pub ());

impl View for XapSecureStatusRequest {
    type V = ();

    open spec fn view(&self) -> () {
        ()
    }
}

impl XapPayload for XapSecureStatusRequest {
    open spec fn encoded(v: ()) -> Seq<u8> {
        <() as XapPayload>::encoded(v)
    }

    open spec fn decoded(b: Seq<u8>) -> Option<()> {
        <() as XapPayload>::decoded(b)
    }

    proof fn lemma_round_trip(v: ()) {
    }

    fn write(&self, out: &mut Vec<u8>) {
        self.0.write(out);
    }

    fn read(b: &[u8]) -> (r: Option<XapSecureStatusRequest>) {
        match <() as XapPayload>::read(b) {
            Some(p) => Some(XapSecureStatusRequest(p)),
            None => None,
        }
    }
}

impl XapRequest for XapSecureStatusRequest {
    type Response = XAPSecureStatus;

    open spec fn route() -> Seq<u8> {
        seq![0x0u8, 0x3u8]
    }

    fn id() -> (r: &'static [u8]) {
        &[0x0, 0x3]
    }

    open spec fn secure() -> bool {
        false
    }

    fn is_secure() -> (r: bool) {
        false
    }
}

/// Asks the device to unlock its privileged commands.
#[derive(Debug, Clone, Copy)]
pub struct XapSecureUnlockRequest(pub ());

impl View for XapSecureUnlockRequest {
    type V = ();

    open spec fn view(&self) -> () {
        ()
    }
}

impl XapPayload for XapSecureUnlockRequest {
    open spec fn encoded(v: ()) -> Seq<u8> {
        <() as XapPayload>::encoded(v)
    }

    open spec fn decoded(b: Seq<u8>) -> Option<()> {
        <() as XapPayload>::decoded(b)
    }

    proof fn lemma_round_trip(v: ()) {
    }

    fn write(&self, out: &mut Vec<u8>) {
        self.0.write(out);
    }

    fn read(b: &[u8]) -> (r: Option<XapSecureUnlockRequest>) {
        match <() as XapPayload>::read(b) {
            Some(p) => Some(XapSecureUnlockRequest(p)),
            None => None,
        }
    }
}

impl XapRequest for XapSecureUnlockRequest {
    type Response = ();

    open spec fn route() -> Seq<u8> {
        seq![0x0u8, 0x4u8]
    }

    fn id() -> (r: &'static [u8]) {
        &[0x0, 0x4]
    }

    open spec fn secure() -> bool {
        false
    }

    fn is_secure() -> (r: bool) {
        false
    }
}

/// Asks the device to lock its privileged commands.
#[derive(Debug, Clone, Copy)]
pub struct XapSecureLockRequest(pub ());

impl View for XapSecureLockRequest {
    type V = ();

    open spec fn view(&self) -> () {
        ()
    }
}

impl XapPayload for XapSecureLockRequest {
    open spec fn encoded(v: ()) -> Seq<u8> {
        <() as XapPayload>::encoded(v)
    }

    open spec fn decoded(b: Seq<u8>) -> Option<()> {
        <() as XapPayload>::decoded(b)
    }

    proof fn lemma_round_trip(v: ()) {
    }

    fn write(&self, out: &mut Vec<u8>) {
        self.0.write(out);
    }

    fn read(b: &[u8]) -> (r: Option<XapSecureLockRequest>) {
        match <() as XapPayload>::read(b) {
            Some(p) => Some(XapSecureLockRequest(p)),
            None => None,
        }
    }
}

impl XapRequest for XapSecureLockRequest {
    type Response = ();

    open spec fn route() -> Seq<u8> {
        seq![0x0u8, 0x5u8]
    }

    fn id() -> (r: &'static [u8]) {
        &[0x0, 0x5]
    }

    open spec fn secure() -> bool {
        false
    }

    fn is_secure() -> (r: bool) {
        false
    }
}

/// Asks for the QMK firmware version.
#[derive(Debug, Clone, Copy)]
pub struct QmkVersionRequest(pub ());

impl View for QmkVersionRequest {
    type V = ();

    open spec fn view(&self) -> () {
        ()
    }
}

impl XapPayload for QmkVersionRequest {
    open spec fn encoded(v: ()) -> Seq<u8> {
        <() as XapPayload>::encoded(v)
    }

    open spec fn decoded(b: Seq<u8>) -> Option<()> {
        <() as XapPayload>::decoded(b)
    }

    proof fn lemma_round_trip(v: ()) {
    }

    fn write(&self, out: &mut Vec<u8>) {
        self.0.write(out);
    }

    fn read(b: &[u8]) -> (r: Option<QmkVersionRequest>) {
        match <() as XapPayload>::read(b) {
            Some(p) => Some(QmkVersionRequest(p)),
            None => None,
        }
    }
}

impl XapRequest for QmkVersionRequest {
    type Response = u32;

    open spec fn route() -> Seq<u8> {
        seq![0x1u8, 0x0u8]
    }

    fn id() -> (r: &'static [u8]) {
        &[0x1, 0x0]
    }

    open spec fn secure() -> bool {
        false
    }

    fn is_secure() -> (r: bool) {
        false
    }
}

/// Asks which QMK subsystem routes the device serves.
#[derive(Debug, Clone, Copy)]
pub struct QmkCapabilitiesRequest(pub ());

impl View for QmkCapabilitiesRequest {
    type V = ();

    open spec fn view(&self) -> () {
        ()
    }
}

impl XapPayload for QmkCapabilitiesRequest {
    open spec fn encoded(v: ()) -> Seq<u8> {
        <() as XapPayload>::encoded(v)
    }

    open spec fn decoded(b: Seq<u8>) -> Option<()> {
        <() as XapPayload>::decoded(b)
    }

    proof fn lemma_round_trip(v: ()) {
    }

    fn write(&self, out: &mut Vec<u8>) {
        self.0.write(out);
    }

    fn read(b: &[u8]) -> (r: Option<QmkCapabilitiesRequest>) {
        match <() as XapPayload>::read(b) {
            Some(p) => Some(QmkCapabilitiesRequest(p)),
            None => None,
        }
    }
}

impl XapRequest for QmkCapabilitiesRequest {
    type Response = u32;

    open spec fn route() -> Seq<u8> {
        seq![0x1u8, 0x1u8]
    }

    fn id() -> (r: &'static [u8]) {
        &[0x1, 0x1]
    }

    open spec fn secure() -> bool {
        false
    }

    fn is_secure() -> (r: bool) {
        false
    }
}

/// Asks for the USB and QMK identifiers of the board.
#[derive(Debug, Clone, Copy)]
pub struct QmkBoardIdentifiersRequest(pub ());

impl View for QmkBoardIdentifiersRequest {
    type V = ();

    open spec fn view(&self) -> () {
        ()
    }
}

impl XapPayload for QmkBoardIdentifiersRequest {
    open spec fn encoded(v: ()) -> Seq<u8> {
        <() as XapPayload>::encoded(v)
    }

    open spec fn decoded(b: Seq<u8>) -> Option<()> {
        <() as XapPayload>::decoded(b)
    }

    proof fn lemma_round_trip(v: ()) {
    }

    fn write(&self, out: &mut Vec<u8>) {
        self.0.write(out);
    }

    fn read(b: &[u8]) -> (r: Option<QmkBoardIdentifiersRequest>) {
        match <() as XapPayload>::read(b) {
            Some(p) => Some(QmkBoardIdentifiersRequest(p)),
            None => None,
        }
    }
}

impl XapRequest for QmkBoardIdentifiersRequest {
    type Response = QMKBoardIdentifiers;

    open spec fn route() -> Seq<u8> {
        seq![0x1u8, 0x2u8]
    }

    fn id() -> (r: &'static [u8]) {
        &[0x1, 0x2]
    }

    open spec fn secure() -> bool {
        false
    }

    fn is_secure() -> (r: bool) {
        false
    }
}

/// Asks the device to jump to its bootloader.
#[derive(Debug, Clone, Copy)]
pub struct QmkJumpToBootloaderRequest(pub ());

impl View for QmkJumpToBootloaderRequest {
    type V = ();

    open spec fn view(&self) -> () {
        ()
    }
}

impl XapPayload for QmkJumpToBootloaderRequest {
    open spec fn encoded(v: ()) -> Seq<u8> {
        <() as XapPayload>::encoded(v)
    }

    open spec fn decoded(b: Seq<u8>) -> Option<()> {
        <() as XapPayload>::decoded(b)
    }

    proof fn lemma_round_trip(v: ()) {
    }

    fn write(&self, out: &mut Vec<u8>) {
        self.0.write(out);
    }

    fn read(b: &[u8]) -> (r: Option<QmkJumpToBootloaderRequest>) {
        match <() as XapPayload>::read(b) {
            Some(p) => Some(QmkJumpToBootloaderRequest(p)),
            None => None,
        }
    }
}

impl XapRequest for QmkJumpToBootloaderRequest {
    type Response = u8;

    open spec fn route() -> Seq<u8> {
        seq![0x1u8, 0x7u8]
    }

    fn id() -> (r: &'static [u8]) {
        &[0x1, 0x7]
    }

    open spec fn secure() -> bool {
        true
    }

    fn is_secure() -> (r: bool) {
        true
    }
}

/// Asks the device to reset its persistent settings.
#[derive(Debug, Clone, Copy)]
pub struct QmkReinitializeEepromRequest(pub ());

impl View for QmkReinitializeEepromRequest {
    type V = ();

    open spec fn view(&self) -> () {
        ()
    }
}

impl XapPayload for QmkReinitializeEepromRequest {
    open spec fn encoded(v: ()) -> Seq<u8> {
        <() as XapPayload>::encoded(v)
    }

    open spec fn decoded(b: Seq<u8>) -> Option<()> {
        <() as XapPayload>::decoded(b)
    }

    proof fn lemma_round_trip(v: ()) {
    }

    fn write(&self, out: &mut Vec<u8>) {
        self.0.write(out);
    }

    fn read(b: &[u8]) -> (r: Option<QmkReinitializeEepromRequest>) {
        match <() as XapPayload>::read(b) {
            Some(p) => Some(QmkReinitializeEepromRequest(p)),
            None => None,
        }
    }
}

impl XapRequest for QmkReinitializeEepromRequest {
    type Response = u8;

    open spec fn route() -> Seq<u8> {
        seq![0x1u8, 0x9u8]
    }

    fn id() -> (r: &'static [u8]) {
        &[0x1, 0x9]
    }

    open spec fn secure() -> bool {
        true
    }

    fn is_secure() -> (r: bool) {
        true
    }
}

} // verus!
