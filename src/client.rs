use vstd::prelude::*;

use crate::aggregation::XAPDeviceInfo;
use crate::device::{accept_response_post, begin_query_post, complete_query_post, XAPDevice};
use crate::error::XapError;
use crate::events::XAPEvent;
use crate::request::XapRequest;
use crate::xap::XAPSecureStatus;

verus! {

/// Whether a transport path is among the listed ones.
pub open spec fn path_listed(visible: Seq<String>, p: Seq<char>) -> bool {
    exists|j: int| 0 <= j < visible.len() && visible[j]@ == p
}

/// Whether an enumeration keeps a device: its path is still visible and its
/// transport has not reported it gone.
pub open spec fn kept_by(visible: Seq<String>, d: XAPDevice) -> bool {
    path_listed(visible, d.path_spec()) && d.connected_spec()
}

/// The devices that an enumeration keeps.
pub open spec fn still_visible(visible: Seq<String>) -> spec_fn(XAPDevice) -> bool {
    |d: XAPDevice| kept_by(visible, d)
}

/// The devices that an enumeration removes: those no longer visible, and
/// those whose transport reported them gone.
pub open spec fn gone(visible: Seq<String>) -> spec_fn(XAPDevice) -> bool {
    |d: XAPDevice| !kept_by(visible, d)
}

/// The removal event of a device.
pub open spec fn removal_event() -> spec_fn(XAPDevice) -> XAPEvent {
    |d: XAPDevice| XAPEvent::RemovedDevice(d.id_spec())
}

/// No two devices share an id or a transport path.
pub open spec fn unique_devices(s: Seq<XAPDevice>) -> bool {
    forall|i: int, j: int|
        0 <= i < s.len() && 0 <= j < s.len() && i != j ==> s[i].id_spec() != s[j].id_spec()
            && s[i].path_spec() != s[j].path_spec()
}

/// The registry after a device was attached: the old devices, then the new
/// one, idle and connected.
pub open spec fn attached(
    pre: Seq<XAPDevice>,
    post: Seq<XAPDevice>,
    id: u128,
    path: Seq<char>,
    info: XAPDeviceInfo,
    secure_status: XAPSecureStatus,
) -> bool {
    &&& post.len() == pre.len() + 1
    &&& post.subrange(0, pre.len() as int) == pre
    &&& post.last().id_spec() == id
    &&& post.last().path_spec() == path
    &&& post.last().info_spec() == info
    &&& post.last().secure_spec() == secure_status
    &&& post.last().pending_spec() is None
    &&& post.last().connected_spec()
}

/// Whether a device of the sequence has this transport path.
pub open spec fn path_registered(s: Seq<XAPDevice>, p: Seq<char>) -> bool {
    exists|i: int| 0 <= i < s.len() && s[i].path_spec() == p
}

/// Every registered device is visible and connected, and every visible path
/// has a device.
pub open spec fn settled(devices: Seq<XAPDevice>, visible: Seq<String>) -> bool {
    &&& forall|i: int| 0 <= i < devices.len() ==> kept_by(visible, devices[i])
    &&& forall|j: int| 0 <= j < visible.len() ==> path_registered(devices, visible[j]@)
}

/// Relies on uuid's `Uuid::new_v4` and `Uuid::as_u128`: a random version 4
/// UUID as its 128-bit value, with the version and variant bits set.
#[verifier::external_body]
fn new_device_id() -> (r: u128)
    ensures
        (r >> 76u128) & 0xFu128 == 4,
        (r >> 62u128) & 0x3u128 == 2,
{
    uuid::Uuid::new_v4().as_u128()
}

/// Whether a transport path is among the listed ones.
fn listed(visible: &Vec<String>, p: &String) -> (r: bool)
    ensures
        r == path_listed(visible@, p@),
{
    let mut j: usize = 0;
    while j < visible.len()
        invariant
            j <= visible@.len(),
            forall|k: int| 0 <= k < j ==> visible@[k]@ != p@,
        decreases visible@.len() - j,
    {
        if visible[j] == *p {
            return true;
        }
        j = j + 1;
    }
    false
}

/// What one enumeration pass found.
#[derive(Debug)]
pub struct Enumeration {
    /// A `RemovedDevice` event for every device that is no longer visible.
    pub removed: Vec<XAPEvent>,
    /// The visible paths with no device yet; each is to be brought up and attached.
    pub candidates: Vec<String>,
}

/// The registry of known devices, keyed by a generated id.
#[derive(Debug)]
pub struct XAPClient {
    devices: Vec<XAPDevice>,
}

impl XAPClient {
    pub closed spec fn devices_spec(&self) -> Seq<XAPDevice> {
        self.devices@
    }

    /// Ids and transport paths are unique in the registry.
    pub open spec fn wf(&self) -> bool {
        unique_devices(self.devices_spec())
    }

    pub open spec fn has_id(&self, id: u128) -> bool {
        exists|i: int| 0 <= i < self.devices_spec().len() && self.devices_spec()[i].id_spec() == id
    }

    pub open spec fn has_path(&self, p: Seq<char>) -> bool {
        path_registered(self.devices_spec(), p)
    }

    /// The position of the device with this id.
    pub open spec fn index_of(&self, id: u128) -> int {
        choose|i: int| 0 <= i < self.devices_spec().len() && self.devices_spec()[i].id_spec() == id
    }

    /// The registry after device `id` changed to `d`, every other device
    /// staying as it was.
    pub open spec fn only_changed(&self, old: &XAPClient, id: u128, d: XAPDevice) -> bool {
        &&& old.has_id(id)
        &&& self.devices_spec() == old.devices_spec().update(old.index_of(id), d)
    }

    pub fn new() -> (r: XAPClient)
        ensures
            r.devices_spec() == Seq::<XAPDevice>::empty(),
            r.wf(),
    {
        XAPClient { devices: Vec::new() }
    }

    pub fn get_devices(&self) -> (r: &[XAPDevice])
        ensures
            r@ == self.devices_spec(),
    {
        self.devices.as_slice()
    }

    fn find(&self, id: u128) -> (r: Option<usize>)
        requires
            self.wf(),
        ensures
            r is None <==> !self.has_id(id),
            r is Some ==> r->0 == self.index_of(id) && r->0 < self.devices_spec().len(),
    {
        let mut i: usize = 0;
        while i < self.devices.len()
            invariant
                i <= self.devices@.len(),
                self.wf(),
                forall|k: int| 0 <= k < i ==> self.devices@[k].id_spec() != id,
            decreases self.devices@.len() - i,
        {
            if self.devices[i].id() == id {
                assert(self.devices_spec()[i as int].id_spec() == id);
                assert(self.has_id(id));
                return Some(i);
            }
            i = i + 1;
        }
        None
    }

    pub fn get_device(&self, id: u128) -> (r: Result<&XAPDevice, XapError>)
        requires
            self.wf(),
        ensures
            r is Ok <==> self.has_id(id),
            r is Ok ==> *r->Ok_0 == self.devices_spec()[self.index_of(id)],
            r is Err ==> r->Err_0 == XapError::UnknownDevice(id),
    {
        match self.find(id) {
            Some(i) => Ok(&self.devices[i]),
            None => Err(XapError::UnknownDevice(id)),
        }
    }

    /// Starts a query on device `id`; the other devices are not touched, so
    /// queries on different devices are independent of each other.
    pub fn begin_query<T: XapRequest>(&mut self, id: u128, request: T) -> (r: Result<
        Vec<u8>,
        XapError,
    >)
        requires
            old(self).wf(),
        ensures
            final(self).wf(),
            !old(self).has_id(id) ==> r == Err::<Vec<u8>, XapError>(XapError::UnknownDevice(id))
                && *final(self) == *old(self),
            old(self).has_id(id) ==> exists|d: XAPDevice|
                final(self).only_changed(old(self), id, d) && begin_query_post::<T>(
                    old(self).devices_spec()[old(self).index_of(id)],
                    d,
                    request@,
                    r,
                ),
    {
        match self.find(id) {
            None => Err(XapError::UnknownDevice(id)),
            Some(i) => {
                let r = self.devices[i].begin_query(request);
                proof {
                    let d = self.devices@[i as int];
                    assert(final(self).only_changed(old(self), id, d));
                }
                r
            },
        }
    }

    /// Hands a report read from device `id` to its outstanding query.
    pub fn accept_response(&mut self, id: u128, report: &[u8]) -> (r: Result<
        Option<Vec<u8>>,
        XapError,
    >)
        requires
            old(self).wf(),
        ensures
            final(self).wf(),
            !old(self).has_id(id) ==> r == Err::<Option<Vec<u8>>, XapError>(
                XapError::UnknownDevice(id),
            ) && *final(self) == *old(self),
            old(self).has_id(id) ==> r is Ok && exists|d: XAPDevice|
                final(self).only_changed(old(self), id, d) && accept_response_post(
                    old(self).devices_spec()[old(self).index_of(id)],
                    d,
                    report@,
                    r->Ok_0,
                ),
    {
        match self.find(id) {
            None => Err(XapError::UnknownDevice(id)),
            Some(i) => {
                let r = self.devices[i].accept_response(report);
                proof {
                    let d = self.devices@[i as int];
                    assert(final(self).only_changed(old(self), id, d));
                }
                Ok(r)
            },
        }
    }

    /// Decodes the answer to the query of type `T` on device `id`.
    pub fn complete_query<T: XapRequest>(&mut self, id: u128, payload: &[u8]) -> (r: Result<
        T::Response,
        XapError,
    >)
        requires
            old(self).wf(),
        ensures
            final(self).wf(),
            !old(self).has_id(id) ==> r == Err::<T::Response, XapError>(
                XapError::UnknownDevice(id),
            ) && *final(self) == *old(self),
            old(self).has_id(id) ==> exists|d: XAPDevice|
                final(self).only_changed(old(self), id, d) && complete_query_post::<T>(
                    old(self).devices_spec()[old(self).index_of(id)],
                    d,
                    payload@,
                    r,
                ),
    {
        match self.find(id) {
            None => Err(XapError::UnknownDevice(id)),
            Some(i) => {
                let r = self.devices[i].complete_query::<T>(payload);
                proof {
                    let d = self.devices@[i as int];
                    assert(final(self).only_changed(old(self), id, d));
                }
                r
            },
        }
    }

    /// Gives up the outstanding query of device `id` after its wait elapsed.
    pub fn expire(&mut self, id: u128) -> (r: XapError)
        requires
            old(self).wf(),
        ensures
            final(self).wf(),
            !old(self).has_id(id) ==> r == XapError::UnknownDevice(id) && *final(self) == *old(
                self,
            ),
            old(self).has_id(id) ==> r == XapError::RequestFailed && exists|d: XAPDevice|
                final(self).only_changed(old(self), id, d) && d.pending_spec() is None
                    && d.same_identity(&old(self).devices_spec()[old(self).index_of(id)])
                    && d.secure_spec() == old(self).devices_spec()[old(
                    self,
                ).index_of(id)].secure_spec()
                    && d.connected_spec() == old(self).devices_spec()[old(
                    self,
                ).index_of(id)].connected_spec(),
    {
        match self.find(id) {
            None => XapError::UnknownDevice(id),
            Some(i) => {
                let r = self.devices[i].expire();
                proof {
                    let d = self.devices@[i as int];
                    assert(final(self).only_changed(old(self), id, d));
                }
                r
            },
        }
    }

    /// Records that the transport of device `id` reported it gone. The
    /// device stays registered until the next enumeration no longer sees it.
    pub fn disconnect(&mut self, id: u128) -> (r: XapError)
        requires
            old(self).wf(),
        ensures
            final(self).wf(),
            !old(self).has_id(id) ==> r == XapError::UnknownDevice(id) && *final(self) == *old(
                self,
            ),
            old(self).has_id(id) ==> r is IO && exists|d: XAPDevice|
                final(self).only_changed(old(self), id, d) && d.pending_spec() is None
                    && !d.connected_spec() && d.secure_spec() == XAPSecureStatus::Locked
                    && d.same_identity(&old(self).devices_spec()[old(self).index_of(id)]),
    {
        match self.find(id) {
            None => XapError::UnknownDevice(id),
            Some(i) => {
                let r = self.devices[i].disconnect();
                proof {
                    let d = self.devices@[i as int];
                    assert(final(self).only_changed(old(self), id, d));
                }
                r
            },
        }
    }

    /// Whether a device with this transport path is registered.
    fn holds_path(&self, p: &String) -> (r: bool)
        ensures
            r == self.has_path(p@),
    {
        let mut i: usize = 0;
        while i < self.devices.len()
            invariant
                i <= self.devices@.len(),
                forall|k: int| 0 <= k < i ==> self.devices@[k].path_spec() != p@,
            decreases self.devices@.len() - i,
        {
            if *self.devices[i].path() == *p {
                assert(self.devices_spec()[i as int].path_spec() == p@);
                return true;
            }
            i = i + 1;
        }
        false
    }

    /// Reconciles the registry with the transport paths visible now. Devices
    /// whose path is gone, and devices whose transport reported them
    /// disconnected, are removed, each with a `RemovedDevice` event, in
    /// registry order; the path of a disconnected device that is still
    /// visible comes back as a candidate. Visible paths without a device are handed back once
    /// each, to be brought up and attached.
    pub fn enumerate_devices(&mut self, visible: &Vec<String>) -> (r: Enumeration)
        requires
            old(self).wf(),
        ensures
            final(self).wf(),
            final(self).devices_spec() == old(self).devices_spec().filter(still_visible(visible@)),
            r.removed@ == old(self).devices_spec().filter(gone(visible@)).map_values(
                removal_event(),
            ),
            forall|k: int|
                0 <= k < r.candidates@.len() ==> path_listed(visible@, r.candidates@[k]@)
                    && !final(self).has_path(r.candidates@[k]@),
            forall|j: int|
                0 <= j < visible@.len() && !final(self).has_path(visible@[j]@) ==> exists|k: int|
                    0 <= k < r.candidates@.len() && r.candidates@[k]@ == visible@[j]@,
            forall|k1: int, k2: int|
                0 <= k1 < k2 < r.candidates@.len() ==> r.candidates@[k1]@ != r.candidates@[k2]@,
    {
        let ghost orig = self.devices@;
        let mut rest: Vec<XAPDevice> = Vec::new();
        std::mem::swap(&mut rest, &mut self.devices);
        let mut removed: Vec<XAPEvent> = Vec::new();
        let ghost mut i: int = 0;
        assert(orig.subrange(0, 0).filter(still_visible(visible@)) =~= Seq::<XAPDevice>::empty())
            by {
            reveal(Seq::filter);
        }
        assert(orig.subrange(0, 0).filter(gone(visible@)) =~= Seq::<XAPDevice>::empty()) by {
            reveal(Seq::filter);
        }
        while rest.len() > 0
            invariant
                0 <= i <= orig.len(),
                unique_devices(orig),
                rest@ == orig.subrange(i, orig.len() as int),
                self.devices@ == orig.subrange(0, i).filter(still_visible(visible@)),
                removed@ == orig.subrange(0, i).filter(gone(visible@)).map_values(removal_event()),
                forall|a: int|
                    0 <= a < self.devices@.len() ==> exists|k: int|
                        0 <= k < i && #[trigger] self.devices@[a] == orig[k],
                unique_devices(self.devices@),
            decreases rest@.len(),
        {
            let d = rest.remove(0);
            proof {
                assert(d == orig[i]);
                assert(orig.subrange(0, i + 1) =~= orig.subrange(0, i).push(orig[i]));
                orig.subrange(0, i).lemma_filter_push(orig[i], still_visible(visible@));
                orig.subrange(0, i).lemma_filter_push(orig[i], gone(visible@));
            }
            if listed(visible, d.path()) && d.is_connected() {
                let ghost before = self.devices@;
                self.devices.push(d);
                proof {
                    assert forall|a: int| 0 <= a < before.len() implies before[a].id_spec()
                        != orig[i].id_spec() && before[a].path_spec() != orig[i].path_spec() by {
                        let k = choose|k: int| 0 <= k < i && before[a] == orig[k];
                    }
                    assert forall|a: int| 0 <= a < self.devices@.len() implies exists|k: int|
                        0 <= k < i + 1 && #[trigger] self.devices@[a] == orig[k] by {
                        if a < before.len() {
                            let k = choose|k: int| 0 <= k < i && before[a] == orig[k];
                            assert(self.devices@[a] == orig[k]);
                        } else {
                            assert(self.devices@[a] == orig[i]);
                        }
                    }
                }
            } else {
                let ghost before = removed@;
                removed.push(XAPEvent::RemovedDevice(d.id()));
                proof {
                    let f = gone(visible@);
                    assert(removed@ =~= orig.subrange(0, i).filter(f).push(orig[i]).map_values(
                        removal_event(),
                    ));
                }
            }
            proof {
                i = i + 1;
            }
        }
        assert(orig.subrange(0, orig.len() as int) =~= orig);
        let mut candidates: Vec<String> = Vec::new();
        let mut j: usize = 0;
        while j < visible.len()
            invariant
                j <= visible@.len(),
                forall|k: int|
                    0 <= k < candidates@.len() ==> path_listed(visible@, candidates@[k]@)
                        && !self.has_path(candidates@[k]@),
                forall|j2: int|
                    0 <= j2 < j && !self.has_path(visible@[j2]@) ==> exists|k: int|
                        0 <= k < candidates@.len() && candidates@[k]@ == visible@[j2]@,
                forall|k1: int, k2: int|
                    0 <= k1 < k2 < candidates@.len() ==> candidates@[k1]@ != candidates@[k2]@,
            decreases visible@.len() - j,
        {
            let p = &visible[j];
            let ghost before = candidates@;
            if !self.holds_path(p) && !listed(&candidates, p) {
                candidates.push(p.clone());
                proof {
                    assert(visible@[j as int]@ == p@);
                    assert(candidates@[candidates@.len() - 1]@ == visible@[j as int]@);
                }
            }
            proof {
                assert forall|j2: int|
                    0 <= j2 < j + 1 && !self.has_path(visible@[j2]@) implies exists|k: int|
                    0 <= k < candidates@.len() && candidates@[k]@ == visible@[j2]@ by {
                    if j2 < j {
                        let k = choose|k: int|
                            0 <= k < before.len() && before[k]@ == visible@[j2]@;
                        assert(candidates@[k] == before[k]);
                    } else if candidates@.len() == before.len() {
                        let k = choose|k: int| 0 <= k < before.len() && before[k]@ == p@;
                        assert(candidates@[k]@ == visible@[j2]@);
                    } else {
                        assert(candidates@[before.len() as int]@ == visible@[j2]@);
                    }
                }
            }
            j = j + 1;
        }
        let ghost cands = candidates@;
        let r = Enumeration { removed, candidates };
        assert(r.candidates@ == cands);
        assert forall|j2: int|
            0 <= j2 < visible@.len() && !self.has_path(visible@[j2]@) implies exists|k: int|
            0 <= k < r.candidates@.len() && r.candidates@[k]@ == visible@[j2]@ by {
            assert(j2 < j);
            let k = choose|k: int| 0 <= k < cands.len() && cands[k]@ == visible@[j2]@;
            assert(r.candidates@[k]@ == visible@[j2]@);
        }
        r
    }

    /// Registers a brought-up device under the given id.
    pub fn attach_with_id(
        &mut self,
        id: u128,
        path: String,
        info: XAPDeviceInfo,
        secure_status: XAPSecureStatus,
    ) -> (r: Result<XAPEvent, XapError>)
        requires
            old(self).wf(),
        ensures
            final(self).wf(),
            r is Ok <==> !old(self).has_id(id) && !old(self).has_path(path@),
            r is Err ==> r == Err::<XAPEvent, XapError>(XapError::DuplicateDevice) && *final(self)
                == *old(self),
            r is Ok ==> r == Ok::<XAPEvent, XapError>(XAPEvent::NewDevice(id)) && attached(
                old(self).devices_spec(),
                final(self).devices_spec(),
                id,
                path@,
                info,
                secure_status,
            ),
    {
        if self.find(id).is_some() || self.holds_path(&path) {
            return Err(XapError::DuplicateDevice);
        }
        let ghost p = path@;
        self.devices.push(XAPDevice::new(id, path, info, secure_status));
        proof {
            let s = self.devices_spec();
            assert(s.subrange(0, old(self).devices_spec().len() as int) =~= old(
                self,
            ).devices_spec());
            assert forall|a: int, b: int|
                0 <= a < s.len() && 0 <= b < s.len() && a != b implies s[a].id_spec()
                != s[b].id_spec() && s[a].path_spec() != s[b].path_spec() by {
                if a < s.len() - 1 && b < s.len() - 1 {
                } else if a == s.len() - 1 {
                    assert(s[b] == old(self).devices_spec()[b]);
                } else {
                    assert(s[a] == old(self).devices_spec()[a]);
                }
            }
        }
        Ok(XAPEvent::NewDevice(id))
    }

    /// Registers a brought-up device under a freshly generated id and
    /// announces it. Fails for a path that is already registered, and in the
    /// unlikely case that the generated id is taken, which needs another
    /// device registered.
    pub fn attach(&mut self, path: String, info: XAPDeviceInfo, secure_status: XAPSecureStatus) -> (r:
        Result<XAPEvent, XapError>)
        requires
            old(self).wf(),
        ensures
            final(self).wf(),
            old(self).has_path(path@) ==> r is Err,
            !old(self).has_path(path@) && old(self).devices_spec().len() == 0 ==> r is Ok,
            r is Err ==> old(self).has_path(path@) || old(self).devices_spec().len() > 0,
            r is Err ==> r == Err::<XAPEvent, XapError>(XapError::DuplicateDevice) && *final(self)
                == *old(self),
            r matches Ok(XAPEvent::NewDevice(id)) ==> !old(self).has_id(id) && attached(
                old(self).devices_spec(),
                final(self).devices_spec(),
                id,
                path@,
                info,
                secure_status,
            ),
            r is Ok ==> r->Ok_0 is NewDevice,
    {
        let id = new_device_id();
        self.attach_with_id(id, path, info, secure_status)
    }
}

pub(crate) proof fn lemma_filter_keeps_all<A>(s: Seq<A>, p: spec_fn(A) -> bool)
    requires
        forall|i: int| 0 <= i < s.len() ==> p(s[i]),
    ensures
        s.filter(p) == s,
    decreases s.len(),
{
    reveal(Seq::filter);
    if s.len() > 0 {
        lemma_filter_keeps_all(s.drop_last(), p);
        assert(s.drop_last().push(s.last()) =~= s);
    }
}

pub(crate) proof fn lemma_filter_keeps_none<A>(s: Seq<A>, p: spec_fn(A) -> bool)
    requires
        forall|i: int| 0 <= i < s.len() ==> !p(s[i]),
    ensures
        s.filter(p) == Seq::<A>::empty(),
    decreases s.len(),
{
    reveal(Seq::filter);
    if s.len() > 0 {
        lemma_filter_keeps_none(s.drop_last(), p);
    } else {
        assert(s =~= Seq::<A>::empty());
    }
}

pub(crate) proof fn lemma_filter_keeps_one<A>(s: Seq<A>, p: spec_fn(A) -> bool, i: int)
    requires
        0 <= i < s.len(),
        p(s[i]),
        forall|a: int| 0 <= a < s.len() && a != i ==> !p(s[a]),
    ensures
        s.filter(p) == seq![s[i]],
    decreases s.len(),
{
    reveal(Seq::filter);
    if i == s.len() - 1 {
        lemma_filter_keeps_none(s.drop_last(), p);
        assert(Seq::<A>::empty().push(s[i]) =~= seq![s[i]]);
    } else {
        lemma_filter_keeps_one(s.drop_last(), p, i);
    }
}

/// Enumerating and then attaching a device for every candidate leaves the
/// registry settled: `before` is the registry before enumeration,
/// `candidates` what it handed back and `after` the registry once every
/// candidate was attached.
pub proof fn lemma_enumeration_settles(
    before: Seq<XAPDevice>,
    visible: Seq<String>,
    candidates: Seq<String>,
    after: Seq<XAPDevice>,
)
    requires
        forall|j: int|
            0 <= j < visible.len() && !path_registered(
                before.filter(still_visible(visible)),
                visible[j]@,
            ) ==> exists|k: int| 0 <= k < candidates.len() && candidates[k]@ == visible[j]@,
        forall|k: int| 0 <= k < candidates.len() ==> path_listed(visible, candidates[k]@),
        after.len() == before.filter(still_visible(visible)).len() + candidates.len(),
        after.subrange(0, before.filter(still_visible(visible)).len() as int) == before.filter(
            still_visible(visible),
        ),
        forall|k: int|
            0 <= k < candidates.len() ==> after[before.filter(still_visible(visible)).len() + k].path_spec()
                == #[trigger] candidates[k]@ && after[before.filter(
                still_visible(visible),
            ).len() + k].connected_spec(),
    ensures
        settled(after, visible),
{
    let kept = before.filter(still_visible(visible));
    let n = kept.len() as int;
    assert forall|i: int| 0 <= i < after.len() implies kept_by(visible, after[i]) by {
        if i < n {
            assert(after[i] == after.subrange(0, n)[i]);
            before.lemma_filter_pred(still_visible(visible), i);
        } else {
            assert(path_listed(visible, candidates[i - n]@));
            assert(after[n + (i - n)].path_spec() == candidates[i - n]@);
        }
    }
    assert forall|j: int| 0 <= j < visible.len() implies path_registered(after, visible[j]@) by {
        if path_registered(kept, visible[j]@) {
            let i = choose|i: int| 0 <= i < kept.len() && kept[i].path_spec() == visible[j]@;
            assert(after[i] == after.subrange(0, n)[i]);
        } else {
            let k = choose|k: int| 0 <= k < candidates.len() && candidates[k]@ == visible[j]@;
            assert(after[n + k].path_spec() == visible[j]@);
        }
    }
}

/// Enumeration is idempotent: enumerating a settled registry again keeps
/// every device, announces no removal, and no visible path can be a
/// candidate.
pub proof fn lemma_enumeration_idempotent(devices: Seq<XAPDevice>, visible: Seq<String>, p: Seq<char>)
    requires
        settled(devices, visible),
    ensures
        devices.filter(still_visible(visible)) == devices,
        devices.filter(gone(visible)).map_values(removal_event()) == Seq::<XAPEvent>::empty(),
        path_listed(visible, p) ==> path_registered(devices.filter(still_visible(visible)), p),
{
    lemma_filter_keeps_all(devices, still_visible(visible));
    lemma_filter_keeps_none(devices, gone(visible));
    assert(Seq::<XAPDevice>::empty().map_values(removal_event()) =~= Seq::<XAPEvent>::empty());
    if path_listed(visible, p) {
        let j = choose|j: int| 0 <= j < visible.len() && visible[j]@ == p;
        assert(path_registered(devices, visible[j]@));
    }
}

/// When exactly one registered device is no longer visible, or was reported
/// disconnected, enumeration announces the removal of that device once and
/// of no other.
pub proof fn lemma_single_removal(devices: Seq<XAPDevice>, visible: Seq<String>, i: int)
    requires
        0 <= i < devices.len(),
        !kept_by(visible, devices[i]),
        forall|a: int| 0 <= a < devices.len() && a != i ==> kept_by(visible, devices[a]),
    ensures
        devices.filter(gone(visible)).map_values(removal_event()) == seq![
            XAPEvent::RemovedDevice(devices[i].id_spec()),
        ],
{
    lemma_filter_keeps_one(devices, gone(visible), i);
    assert(seq![devices[i]].map_values(removal_event()) =~= seq![
        XAPEvent::RemovedDevice(devices[i].id_spec()),
    ]);
}

/// Queries on two devices are independent: starting a query on device `b`
/// leaves device `a`, and the query it may have in flight, as it was; and a
/// device with a query in flight refuses a second one without touching the
/// first.
pub proof fn lemma_independent_queries<T: XapRequest>(
    pre: XAPClient,
    post: XAPClient,
    a: u128,
    b: u128,
    d: XAPDevice,
    request: T::V,
    r: Result<Vec<u8>, XapError>,
)
    requires
        pre.wf(),
        a != b,
        pre.has_id(a),
        post.only_changed(&pre, b, d),
        begin_query_post::<T>(pre.devices_spec()[pre.index_of(b)], d, request, r),
    ensures
        post.has_id(a),
        post.devices_spec()[post.index_of(a)] == pre.devices_spec()[pre.index_of(a)],
        pre.devices_spec()[pre.index_of(b)].pending_spec() is Some ==> r == Err::<
            Vec<u8>,
            XapError,
        >(XapError::Busy) && d.pending_spec() == pre.devices_spec()[pre.index_of(b)].pending_spec(),
{
    let ia = pre.index_of(a);
    let ib = pre.index_of(b);
    assert(ia != ib);
    assert(post.devices_spec()[ia] == pre.devices_spec()[ia]);
    assert(post.devices_spec()[ia].id_spec() == a);
    assert(post.has_id(a));
    let ja = post.index_of(a);
    if ja != ia {
        if ja == ib {
            assert(post.devices_spec()[ja] == d);
            assert(d.id_spec() == pre.devices_spec()[ib].id_spec());
        } else {
            assert(post.devices_spec()[ja] == pre.devices_spec()[ja]);
        }
    }
}

/// End to end: from a settled registry, when one device alone is unplugged,
/// the next enumeration announces the removal of that device once and of no
/// other, and keeps every other device.
pub proof fn lemma_unplug_from_settled(
    devices: Seq<XAPDevice>,
    visible: Seq<String>,
    after: Seq<String>,
    i: int,
)
    requires
        settled(devices, visible),
        0 <= i < devices.len(),
        !path_listed(after, devices[i].path_spec()),
        forall|a: int|
            0 <= a < devices.len() && a != i ==> path_listed(after, #[trigger] devices[a].path_spec()),
    ensures
        devices.filter(gone(after)).map_values(removal_event()) == seq![
            XAPEvent::RemovedDevice(devices[i].id_spec()),
        ],
        devices.filter(still_visible(after)) == devices.remove(i),
{
    assert forall|a: int| 0 <= a < devices.len() && a != i implies kept_by(after, devices[a]) by {
        assert(kept_by(visible, devices[a]));
    }
    lemma_single_removal(devices, after, i);
    lemma_filter_drops_one(devices, still_visible(after), i);
}

proof fn lemma_filter_drops_one<A>(s: Seq<A>, p: spec_fn(A) -> bool, i: int)
    requires
        0 <= i < s.len(),
        !p(s[i]),
        forall|a: int| 0 <= a < s.len() && a != i ==> p(s[a]),
    ensures
        s.filter(p) == s.remove(i),
    decreases s.len(),
{
    reveal(Seq::filter);
    if i == s.len() - 1 {
        lemma_filter_keeps_all(s.drop_last(), p);
        assert(s.drop_last() =~= s.remove(i));
    } else {
        lemma_filter_drops_one(s.drop_last(), p, i);
        assert(s.drop_last().remove(i).push(s.last()) =~= s.remove(i));
    }
}

} // verus!
