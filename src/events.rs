use vstd::prelude::*;

use crate::broadcast::BroadcastRaw;
use crate::xap::XAPSecureStatus;

verus! {

/// What the device readers and the ticker hand to the application loop.
#[derive(Debug)]
pub enum XAPEvent {
    ReceivedUserBroadcast { broadcast: BroadcastRaw, id: u128 },
    LogReceived { id: u128, log: String },
    SecureStatusChanged { id: u128, secure_status: XAPSecureStatus },
    NewDevice(u128),
    RemovedDevice(u128),
    AnnounceAllDevices,
    RxError,
    Exit,
}

} // verus!
