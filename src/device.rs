use vstd::prelude::*;

use crate::aggregation::XAPDeviceInfo;
use crate::broadcast::{parse_broadcast, BroadcastRaw, BroadcastType, LogBroadcast, SecureStatusBroadcast, XAPBroadcast};
use crate::codec::{copy_range, read_u16, u16_le};
use crate::error::{CodecError, XapError};
use crate::events::XAPEvent;
use crate::request::{fits_frame, request_frame, RawRequest, XapRequest, XapResponse};
use crate::token::{token_of, Token, MAX_RESPONSE_TOKEN, MIN_RESPONSE_TOKEN};
use crate::xap::{secure_lock_route, secure_unlock_route, XAPSecureStatus};

verus! {

/// The token of a report, if its first two bytes hold a valid one.
pub open spec fn report_token(b: Seq<u8>) -> Option<Token> {
    if b.len() < 2 {
        None
    } else {
        token_of(u16_le(b[0], b[1]))
    }
}

/// Why a report without a valid token is dropped.
pub open spec fn report_token_error(b: Seq<u8>) -> CodecError {
    if b.len() < 2 {
        CodecError::Truncated
    } else {
        CodecError::InvalidToken(u16_le(b[0], b[1]))
    }
}

/// Where a report read from a device goes.
#[derive(Debug)]
pub enum ReportClass {
    /// The answer to the request that was sent under this token id.
    Response(u16),
    /// An unsolicited frame, split into type and payload.
    Broadcast(BroadcastRaw),
    /// A frame carrying the fire-and-forget token, which nothing awaits.
    Unsolicited,
    /// A report that cannot be read; it is dropped and the reader goes on.
    Invalid(XapError),
}

/// Classifies a report by its token; broadcasts are split into type and payload.
pub fn classify_report(report: &[u8]) -> (r: ReportClass)
    ensures
        match report_token(report@) {
            None => r == ReportClass::Invalid(XapError::BitHandling(report_token_error(report@))),
            Some(Token::WithResponse(t)) => r == ReportClass::Response(t),
            Some(Token::WithoutResponse) => r is Unsolicited,
            Some(Token::Broadcast) => match parse_broadcast(report@) {
                Ok((t, ty, p)) => r is Broadcast && r->Broadcast_0.token_spec() == t
                    && r->Broadcast_0.type_spec() == ty && r->Broadcast_0.payload_spec() == p,
                Err(e) => r == ReportClass::Invalid(XapError::BitHandling(e)),
            },
        },
{
    if report.len() < 2 {
        return ReportClass::Invalid(XapError::BitHandling(CodecError::Truncated));
    }
    match Token::from_raw(read_u16(report, 0)) {
        Err(e) => ReportClass::Invalid(XapError::BitHandling(e)),
        Ok(Token::WithResponse(t)) => ReportClass::Response(t),
        Ok(Token::WithoutResponse) => ReportClass::Unsolicited,
        Ok(Token::Broadcast) => match BroadcastRaw::from_raw_report(report) {
            Ok(b) => ReportClass::Broadcast(b),
            Err(e) => ReportClass::Invalid(e),
        },
    }
}

/// Turns a broadcast of a device into the event the application loop
/// handles. Payloads that do not decode, and keyboard broadcasts, give none.
pub fn broadcast_event(id: u128, broadcast: BroadcastRaw) -> (r: Option<XAPEvent>)
    ensures
        broadcast.type_spec() == BroadcastType::Log ==> {
            &&& r is Some <==> LogBroadcast::parse(broadcast.payload_spec()) is Ok
            &&& r matches Some(XAPEvent::LogReceived { id: i, log }) ==> i == id && log@
                == LogBroadcast::parse(broadcast.payload_spec())->Ok_0
            &&& r is Some ==> r->0 is LogReceived
        },
        broadcast.type_spec() == BroadcastType::SecureStatus ==> {
            &&& r is Some <==> SecureStatusBroadcast::parse(broadcast.payload_spec()) is Ok
            &&& r is Some ==> r->0 == XAPEvent::SecureStatusChanged {
                id,
                secure_status: SecureStatusBroadcast::parse(broadcast.payload_spec())->Ok_0.0,
            }
        },
        broadcast.type_spec() == BroadcastType::User ==> r == Some(
            XAPEvent::ReceivedUserBroadcast { broadcast, id },
        ),
        broadcast.type_spec() == BroadcastType::Keyboard ==> r is None,
{
    match broadcast.broadcast_type() {
        BroadcastType::Log => match LogBroadcast::read(broadcast.payload()) {
            Ok(log) => Some(XAPEvent::LogReceived { id, log: log.0 }),
            Err(_) => None,
        },
        BroadcastType::SecureStatus => match SecureStatusBroadcast::read(broadcast.payload()) {
            Ok(s) => Some(XAPEvent::SecureStatusChanged { id, secure_status: s.0 }),
            Err(_) => None,
        },
        BroadcastType::User => Some(XAPEvent::ReceivedUserBroadcast { broadcast, id }),
        BroadcastType::Keyboard => None,
    }
}

/// Whether two byte strings are equal.
fn bytes_eq(a: &[u8], b: &[u8]) -> (r: bool)
    ensures
        r == (a@ == b@),
{
    if a.len() != b.len() {
        return false;
    }
    let mut i: usize = 0;
    while i < a.len()
        invariant
            i <= a@.len() == b@.len(),
            forall|j: int| 0 <= j < i ==> a@[j] == b@[j],
        decreases a@.len() - i,
    {
        if a[i] != b[i] {
            return false;
        }
        i = i + 1;
    }
    assert(a@ =~= b@);
    true
}

/// What starting a query does to a device and what it returns.
pub open spec fn begin_query_post<T: XapRequest>(
    pre: XAPDevice,
    post: XAPDevice,
    request: T::V,
    r: Result<Vec<u8>, XapError>,
) -> bool {
    let idle = pre.pending_spec() is None;
    let allowed = !T::secure() || pre.secure_spec() == XAPSecureStatus::Unlocked;
    let fits = fits_frame(T::route(), T::encoded(request));
    &&& post.same_identity(&pre)
    &&& post.secure_spec() == pre.secure_spec()
    &&& post.connected_spec() == pre.connected_spec()
    &&& !idle ==> r == Err::<Vec<u8>, XapError>(XapError::Busy) && post.pending_spec()
        == pre.pending_spec()
    &&& idle && !pre.connected_spec() ==> r is Err && r->Err_0 is IO && post.pending_spec() is None
    &&& idle && pre.connected_spec() && !allowed ==> r == Err::<Vec<u8>, XapError>(
        XapError::SecureLocked,
    ) && post.pending_spec() is None
    &&& idle && pre.connected_spec() && allowed && !fits ==> r == Err::<Vec<u8>, XapError>(
        XapError::BitHandling(CodecError::FrameTooLong),
    ) && post.pending_spec() is None
    &&& idle && pre.connected_spec() && allowed && fits ==> {
        &&& r is Ok
        &&& post.pending_spec() is Some
        &&& MIN_RESPONSE_TOKEN <= post.pending_spec()->0 <= MAX_RESPONSE_TOKEN
        &&& r->Ok_0@ == request_frame(post.pending_spec()->0, T::route(), T::encoded(request))
    }
}

/// What taking a report during a query does to a device and what it returns.
pub open spec fn accept_response_post(
    pre: XAPDevice,
    post: XAPDevice,
    report: Seq<u8>,
    r: Option<Vec<u8>>,
) -> bool {
    let awaited = pre.pending_spec() is Some && report.len() >= 2 && u16_le(report[0], report[1])
        == pre.pending_spec()->0;
    &&& awaited ==> {
        &&& r is Some
        &&& r->0@ == report.subrange(2, report.len() as int)
        &&& post.pending_spec() is None
        &&& post.same_identity(&pre)
        &&& post.secure_spec() == pre.secure_spec()
        &&& post.connected_spec() == pre.connected_spec()
    }
    &&& !awaited ==> r is None && post == pre
}

/// What decoding the answer to a request of type `T` does to a device and
/// what it returns.
pub open spec fn complete_query_post<T: XapRequest>(
    pre: XAPDevice,
    post: XAPDevice,
    payload: Seq<u8>,
    r: Result<T::Response, XapError>,
) -> bool {
    &&& post.same_identity(&pre)
    &&& post.pending_spec() == pre.pending_spec()
    &&& post.connected_spec() == pre.connected_spec()
    &&& T::Response::parsed(payload) is Some ==> r == Ok::<T::Response, XapError>(
        T::Response::parsed(payload)->0,
    )
    &&& T::Response::parsed(payload) is None ==> r is Err && r->Err_0 is Protocol
    &&& post.secure_spec() == if r is Ok && T::route() == secure_unlock_route() {
        XAPSecureStatus::Unlocked
    } else if r is Ok && T::route() == secure_lock_route() {
        XAPSecureStatus::Locked
    } else {
        pre.secure_spec()
    }
}

/// One keyboard: its identity, what bring-up learned about it, its secure
/// status and the request it awaits an answer to, if any.
#[derive(Debug)]
pub struct XAPDevice {
    id: u128,
    path: String,
    info: XAPDeviceInfo,
    secure_status: XAPSecureStatus,
    pending: Option<u16>,
    connected: bool,
}

impl XAPDevice {
    pub closed spec fn id_spec(&self) -> u128 {
        self.id
    }

    /// The transport path the device was found under.
    pub closed spec fn path_spec(&self) -> Seq<char> {
        self.path@
    }

    pub closed spec fn secure_spec(&self) -> XAPSecureStatus {
        self.secure_status
    }

    /// The token id of the request awaiting its answer.
    pub closed spec fn pending_spec(&self) -> Option<u16> {
        self.pending
    }

    pub closed spec fn connected_spec(&self) -> bool {
        self.connected
    }

    pub closed spec fn info_spec(&self) -> XAPDeviceInfo {
        self.info
    }

    /// Identity, path and descriptor of two device states agree.
    pub open spec fn same_identity(&self, other: &XAPDevice) -> bool {
        &&& self.id_spec() == other.id_spec()
        &&& self.path_spec() == other.path_spec()
        &&& self.info_spec() == other.info_spec()
    }

    pub fn new(id: u128, path: String, info: XAPDeviceInfo, secure_status: XAPSecureStatus) -> (d:
        XAPDevice)
        ensures
            d.id_spec() == id,
            d.path_spec() == path@,
            d.info_spec() == info,
            d.secure_spec() == secure_status,
            d.pending_spec() is None,
            d.connected_spec(),
    {
        XAPDevice { id, path, info, secure_status, pending: None, connected: true }
    }

    pub fn id(&self) -> (r: u128)
        ensures
            r == self.id_spec(),
    {
        self.id
    }

    pub fn path(&self) -> (r: &String)
        ensures
            r@ == self.path_spec(),
    {
        &self.path
    }

    pub fn xap_info(&self) -> (r: &XAPDeviceInfo)
        ensures
            *r == self.info_spec(),
    {
        &self.info
    }

    pub fn secure_status(&self) -> (r: XAPSecureStatus)
        ensures
            r == self.secure_spec(),
    {
        self.secure_status
    }

    /// Whether a request awaits its answer.
    pub fn is_busy(&self) -> (r: bool)
        ensures
            r == self.pending_spec() is Some,
    {
        self.pending.is_some()
    }

    pub fn is_connected(&self) -> (r: bool)
        ensures
            r == self.connected_spec(),
    {
        self.connected
    }

    /// Starts a query: mints a token, encodes the frame to write and
    /// remembers the token. Refused while another query is outstanding, on a
    /// disconnected device, for a privileged request on a device that is not
    /// unlocked, and for a frame too long for its length byte.
    pub fn begin_query<T: XapRequest>(&mut self, request: T) -> (r: Result<Vec<u8>, XapError>)
        ensures
            begin_query_post::<T>(*old(self), *final(self), request@, r),
    {
        if self.pending.is_some() {
            return Err(XapError::Busy);
        }
        if !self.connected {
            return Err(XapError::IO(String::from_str("device is disconnected")));
        }
        if T::is_secure() && self.secure_status != XAPSecureStatus::Unlocked {
            return Err(XapError::SecureLocked);
        }
        let raw = RawRequest::new(request);
        match raw.encode() {
            Ok(frame) => {
                let t = raw.token().raw();
                self.pending = Some(t);
                Ok(frame)
            },
            Err(e) => Err(XapError::BitHandling(e)),
        }
    }

    /// Takes a report read while a query is outstanding. A report carrying
    /// the awaited token ends the wait and hands back the response payload;
    /// any other report leaves the device as it was.
    pub fn accept_response(&mut self, report: &[u8]) -> (r: Option<Vec<u8>>)
        ensures
            accept_response_post(*old(self), *final(self), report@, r),
    {
        match self.pending {
            Some(t) => {
                if report.len() >= 2 && read_u16(report, 0) == t {
                    self.pending = None;
                    Some(copy_range(report, 2, report.len()))
                } else {
                    None
                }
            },
            None => None,
        }
    }

    /// Decodes the payload of the answer to a request of type `T`. An
    /// answered unlock or lock request sets the cached secure status.
    pub fn complete_query<T: XapRequest>(&mut self, payload: &[u8]) -> (r: Result<
        T::Response,
        XapError,
    >)
        ensures
            complete_query_post::<T>(*old(self), *final(self), payload@, r),
    {
        match T::Response::read_response(payload) {
            Some(v) => {
                let route = T::id();
                if bytes_eq(route, &[0x0, 0x4]) {
                    assert(secure_unlock_route() =~= seq![0x0u8, 0x4u8]);
                    self.secure_status = XAPSecureStatus::Unlocked;
                } else if bytes_eq(route, &[0x0, 0x5]) {
                    assert(secure_lock_route() =~= seq![0x0u8, 0x5u8]);
                    self.secure_status = XAPSecureStatus::Locked;
                }
                Ok(v)
            },
            None => Err(XapError::Protocol(String::from_str("response payload does not match its layout"))),
        }
    }

    /// Gives up the outstanding query after its wait has elapsed.
    pub fn expire(&mut self) -> (e: XapError)
        ensures
            e == XapError::RequestFailed,
            final(self).pending_spec() is None,
            final(self).same_identity(old(self)),
            final(self).secure_spec() == old(self).secure_spec(),
            final(self).connected_spec() == old(self).connected_spec(),
    {
        self.pending = None;
        XapError::RequestFailed
    }

    /// Records that the transport reported the device gone: the outstanding
    /// query fails and the device counts as locked.
    pub fn disconnect(&mut self) -> (e: XapError)
        ensures
            e is IO,
            final(self).pending_spec() is None,
            !final(self).connected_spec(),
            final(self).secure_spec() == XAPSecureStatus::Locked,
            final(self).same_identity(old(self)),
    {
        self.pending = None;
        self.connected = false;
        self.secure_status = XAPSecureStatus::Locked;
        XapError::IO(String::from_str("device disconnected"))
    }
}

/// In-flight correlation is never corrupted: while a query awaits its
/// answer on a device, a second query there is refused with `Busy` and the
/// awaited token stays; a report under another token is not taken as the
/// answer and leaves the device as it was; the report under the awaited
/// token ends the wait.
pub proof fn lemma_in_flight_query_kept<T: XapRequest>(
    pre: XAPDevice,
    mid: XAPDevice,
    request: T::V,
    r: Result<Vec<u8>, XapError>,
    report: Seq<u8>,
    post: XAPDevice,
    a: Option<Vec<u8>>,
)
    requires
        pre.pending_spec() is Some,
        begin_query_post::<T>(pre, mid, request, r),
        accept_response_post(mid, post, report, a),
    ensures
        r == Err::<Vec<u8>, XapError>(XapError::Busy),
        mid.pending_spec() == pre.pending_spec(),
        report.len() >= 2 && u16_le(report[0], report[1]) != pre.pending_spec()->0 ==> a is None
            && post == mid,
        report.len() >= 2 && u16_le(report[0], report[1]) == pre.pending_spec()->0 ==> a is Some
            && a->0@ == report.subrange(2, report.len() as int) && post.pending_spec() is None,
{
}

} // verus!
