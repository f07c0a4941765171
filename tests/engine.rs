use qmk_xap::aggregation::{FeaturesInfo, QMKInfo, XAPDeviceInfo, XAPInfo};
use qmk_xap::broadcast::{
    BroadcastRaw, BroadcastType, KeyEvent, LogBroadcast, SecureStatusBroadcast, UserBroadcast,
};
use qmk_xap::client::XAPClient;
use qmk_xap::device::{broadcast_event, classify_report, ReportClass};
use qmk_xap::error::{CodecError, XapError};
use qmk_xap::events::XAPEvent;
use qmk_xap::painter::{PainterDrawClear, PainterGeometry, PainterGetGeometry};
use qmk_xap::xap::{
    QMKBoardIdentifiers, QmkJumpToBootloaderRequest, XAPSecureStatus, XapSecureUnlockRequest,
    XapVersionRequest,
};

fn info(name: &str) -> XAPDeviceInfo {
    XAPDeviceInfo {
        xap: XAPInfo { version: "0.3.0".to_string() },
        qmk: QMKInfo {
            version: "0.22.0".to_string(),
            board_ids: QMKBoardIdentifiers {
                vendor_id: 0xFEED,
                product_id: 1,
                product_version: 1,
                qmk_identifier: 7,
            },
            manufacturer: "QMK".to_string(),
            product_name: name.to_string(),
            config: String::new(),
            hardware_id: String::new(),
            jump_to_bootloader_enabled: true,
            eeprom_reset_enabled: true,
        },
        features: FeaturesInfo {
            audio: None,
            backlight: None,
            bootmagic: None,
            console: None,
            encoder: None,
            extrakey: None,
            mousekey: None,
            nkro: None,
            quantum_painter: Some(true),
            rgb_matrix: None,
            tap_dance: None,
            unicode: None,
            usbpd: None,
            wpm: None,
            xap: Some(true),
        },
        keymap: None,
        remap: None,
        lighting: None,
        split: None,
    }
}

fn new_id(event: Result<XAPEvent, XapError>) -> u128 {
    match event {
        Ok(XAPEvent::NewDevice(id)) => id,
        other => panic!("expected a new device, got {:?}", other),
    }
}

fn response(frame: &[u8], payload: &[u8]) -> Vec<u8> {
    let mut r = vec![frame[0], frame[1]];
    r.extend_from_slice(payload);
    r.resize(64, 0);
    r
}

fn user_report(payload: &[u8]) -> Vec<u8> {
    let mut r = vec![0xFF, 0xFF, 3, payload.len() as u8];
    r.extend_from_slice(payload);
    r.resize(64, 0);
    r
}

#[test]
fn screen_pressed_broadcast() {
    let raw = BroadcastRaw::from_raw_report(&user_report(&[0, 1, 0x40, 0x01, 0x10, 0x00])).unwrap();
    assert_eq!(*raw.broadcast_type(), BroadcastType::User);
    match raw.into_xap_broadcast::<UserBroadcast>().unwrap() {
        UserBroadcast::ScreenPressed(p) => {
            assert_eq!((p.screen_id, p.x, p.y), (1, 320, 16));
        }
        other => panic!("unexpected {:?}", other),
    }
}

#[test]
fn shutdown_broadcast() {
    let raw = BroadcastRaw::from_raw_report(&user_report(&[4, 1])).unwrap();
    match raw.into_xap_broadcast::<UserBroadcast>().unwrap() {
        UserBroadcast::Shutdown(s) => assert_eq!(s.bootloader, 1),
        other => panic!("unexpected {:?}", other),
    }
}

#[test]
fn unknown_user_broadcast_is_an_error_and_reading_goes_on() {
    let raw = BroadcastRaw::from_raw_report(&user_report(&[9, 1, 2])).unwrap();
    assert_eq!(
        raw.into_xap_broadcast::<UserBroadcast>().map(|_| ()),
        Err(XapError::BitHandling(CodecError::UnknownUserBroadcast(9)))
    );
    let next = BroadcastRaw::from_raw_report(&user_report(&[2, 5])).unwrap();
    match next.into_xap_broadcast::<UserBroadcast>().unwrap() {
        UserBroadcast::LayerChanged(l) => assert_eq!(l.layer, 5),
        other => panic!("unexpected {:?}", other),
    }
}

#[test]
fn wrongly_sized_user_broadcast_is_an_error() {
    let raw = BroadcastRaw::from_raw_report(&user_report(&[0, 1, 2])).unwrap();
    assert_eq!(
        raw.into_xap_broadcast::<UserBroadcast>().map(|_| ()),
        Err(XapError::BitHandling(CodecError::LengthMismatch))
    );
}

#[test]
fn key_event_and_key_tester_broadcasts() {
    let raw = BroadcastRaw::from_raw_report(&user_report(&[3, 0x04, 0x00, 1, 2, 3, 4, 0, b'a', b'b', 0]))
        .unwrap();
    match raw.into_xap_broadcast::<UserBroadcast>().unwrap() {
        UserBroadcast::KeyEvent(KeyEvent { keycode, pressed, layer, row, col, mods, str }) => {
            assert_eq!((keycode, pressed, layer, row, col, mods), (4, 1, 2, 3, 4, 0));
            assert_eq!(str, b"ab".to_vec());
        }
        other => panic!("unexpected {:?}", other),
    }
    let raw = BroadcastRaw::from_raw_report(&user_report(&[3, 0x04, 0x00, 1, 2, 3, 4, 0, b'a'])).unwrap();
    assert!(raw.into_xap_broadcast::<UserBroadcast>().is_err());
    let raw = BroadcastRaw::from_raw_report(&user_report(&[5, 1, 2, 3])).unwrap();
    match raw.into_xap_broadcast::<UserBroadcast>().unwrap() {
        UserBroadcast::KeyTester(k) => assert_eq!((k.pressed, k.row, k.col), (1, 2, 3)),
        other => panic!("unexpected {:?}", other),
    }
}

#[test]
fn broadcast_frame_errors() {
    assert_eq!(
        BroadcastRaw::from_raw_report(&[0xFF, 0xFF, 7, 0]).map(|_| ()),
        Err(XapError::BitHandling(CodecError::UnknownBroadcastType(7)))
    );
    assert_eq!(
        BroadcastRaw::from_raw_report(&[0xFF, 0xFF, 3, 5, 0]).map(|_| ()),
        Err(XapError::BitHandling(CodecError::Truncated))
    );
    assert_eq!(
        BroadcastRaw::from_raw_report(&[0x01, 0x00, 3, 0]).map(|_| ()),
        Err(XapError::BitHandling(CodecError::InvalidToken(1)))
    );
    assert_eq!(
        BroadcastRaw::from_raw_report(&[0x34, 0x12, 3, 0]).map(|_| ()),
        Err(XapError::BitHandling(CodecError::UnexpectedToken(0x1234)))
    );
}

#[test]
fn log_and_secure_status_broadcasts() {
    let mut report = vec![0xFF, 0xFF, 0, 6];
    report.extend_from_slice("hé\nx".as_bytes());
    report.resize(64, 0);
    let raw = BroadcastRaw::from_raw_report(&report).unwrap();
    assert_eq!(raw.into_xap_broadcast::<LogBroadcast>().unwrap().0, "hé\nx\0");
    let raw = BroadcastRaw::from_raw_report(&[0xFF, 0xFF, 0, 2, 0xC3, 0x28]).unwrap();
    assert_eq!(
        raw.into_xap_broadcast::<LogBroadcast>().map(|_| ()),
        Err(XapError::BitHandling(CodecError::InvalidUtf8))
    );
    let raw = BroadcastRaw::from_raw_report(&[0xFF, 0xFF, 1, 1, 2]).unwrap();
    assert_eq!(
        raw.into_xap_broadcast::<SecureStatusBroadcast>().unwrap(),
        SecureStatusBroadcast(XAPSecureStatus::Unlocked)
    );
}

#[test]
fn broadcasts_become_events() {
    let raw = BroadcastRaw::from_raw_report(&[0xFF, 0xFF, 0, 3, b'o', b'k', b'\n']).unwrap();
    match broadcast_event(5, raw) {
        Some(XAPEvent::LogReceived { id, log }) => {
            assert_eq!(id, 5);
            assert_eq!(log, "ok\n");
        }
        other => panic!("unexpected {:?}", other),
    }
    let raw = BroadcastRaw::from_raw_report(&[0xFF, 0xFF, 1, 1, 0]).unwrap();
    assert!(matches!(
        broadcast_event(5, raw),
        Some(XAPEvent::SecureStatusChanged { id: 5, secure_status: XAPSecureStatus::Locked })
    ));
    let raw = BroadcastRaw::from_raw_report(&user_report(&[1, 0])).unwrap();
    assert!(matches!(broadcast_event(6, raw), Some(XAPEvent::ReceivedUserBroadcast { id: 6, .. })));
    let raw = BroadcastRaw::from_raw_report(&[0xFF, 0xFF, 2, 0]).unwrap();
    assert!(broadcast_event(6, raw).is_none());
}

#[test]
fn report_classification() {
    assert!(matches!(classify_report(&[0x34, 0x12, 9]), ReportClass::Response(0x1234)));
    assert!(matches!(classify_report(&[0xFE, 0xFF]), ReportClass::Unsolicited));
    assert!(matches!(classify_report(&[0xFF, 0xFF, 3, 2, 2, 1]), ReportClass::Broadcast(_)));
    assert!(matches!(
        classify_report(&[0x05]),
        ReportClass::Invalid(XapError::BitHandling(CodecError::Truncated))
    ));
    assert!(matches!(
        classify_report(&[0x05, 0x00]),
        ReportClass::Invalid(XapError::BitHandling(CodecError::InvalidToken(5)))
    ));
}

#[test]
fn independent_queries_on_two_devices() {
    let mut client = XAPClient::new();
    let a = new_id(client.attach("/dev/hidraw1".to_string(), info("a"), XAPSecureStatus::Locked));
    let b = new_id(client.attach("/dev/hidraw2".to_string(), info("b"), XAPSecureStatus::Locked));
    let frame_a = client.begin_query(a, PainterGetGeometry(0)).unwrap();
    let frame_b = client.begin_query(b, PainterDrawClear(1)).unwrap();
    assert_eq!(
        client.begin_query(a, PainterDrawClear(0)).map(|_| ()),
        Err(XapError::Busy)
    );
    // A stale report for device a does not end its query.
    let stale = response(&frame_b, &[]);
    if frame_a[..2] != frame_b[..2] {
        assert_eq!(client.accept_response(a, &stale).unwrap(), None);
    }
    let payload = client
        .accept_response(a, &response(&frame_a, &[0x40, 0x01, 0xF0, 0x00, 0, 0, 0, 0, 0]))
        .unwrap()
        .unwrap();
    assert_eq!(
        client.complete_query::<PainterGetGeometry>(a, &payload).unwrap(),
        PainterGeometry { width: 320, height: 240, rotation: 0, offset_x: 0, offset_y: 0 }
    );
    assert!(client.get_device(b).unwrap().is_busy());
    assert!(!client.get_device(a).unwrap().is_busy());
    let payload = client.accept_response(b, &response(&frame_b, &[])).unwrap().unwrap();
    assert_eq!(client.complete_query::<PainterDrawClear>(b, &payload), Ok(()));
}

#[test]
fn timeouts_and_disconnection() {
    let mut client = XAPClient::new();
    let a = new_id(client.attach("p".to_string(), info("a"), XAPSecureStatus::Unlocked));
    client.begin_query(a, XapVersionRequest(())).unwrap();
    assert_eq!(client.expire(a), XapError::RequestFailed);
    assert!(!client.get_device(a).unwrap().is_busy());
    client.begin_query(a, XapVersionRequest(())).unwrap();
    assert!(matches!(client.disconnect(a), XapError::IO(_)));
    let d = client.get_device(a).unwrap();
    assert!(!d.is_busy() && !d.is_connected());
    assert_eq!(d.secure_status(), XAPSecureStatus::Locked);
    assert!(matches!(client.begin_query(a, XapVersionRequest(())), Err(XapError::IO(_))));
    assert_eq!(client.expire(7), XapError::UnknownDevice(7));
}

#[test]
fn privileged_requests_need_an_unlocked_device() {
    let mut client = XAPClient::new();
    let a = new_id(client.attach("p".to_string(), info("a"), XAPSecureStatus::Locked));
    assert_eq!(
        client.begin_query(a, QmkJumpToBootloaderRequest(())).map(|_| ()),
        Err(XapError::SecureLocked)
    );
    let frame = client.begin_query(a, XapSecureUnlockRequest(())).unwrap();
    assert_eq!(&frame[2..5], &[2, 0, 4]);
    let payload = client.accept_response(a, &response(&frame, &[])).unwrap().unwrap();
    assert_eq!(client.complete_query::<XapSecureUnlockRequest>(a, &payload), Ok(()));
    assert_eq!(client.get_device(a).unwrap().secure_status(), XAPSecureStatus::Unlocked);
    assert!(client.begin_query(a, QmkJumpToBootloaderRequest(())).is_ok());
}

#[test]
fn short_response_is_a_decode_error() {
    let mut client = XAPClient::new();
    let a = new_id(client.attach("p".to_string(), info("a"), XAPSecureStatus::Locked));
    let frame = client.begin_query(a, PainterGetGeometry(0)).unwrap();
    let payload = client.accept_response(a, &[frame[0], frame[1], 1, 2]).unwrap().unwrap();
    assert!(matches!(
        client.complete_query::<PainterGetGeometry>(a, &payload),
        Err(XapError::Protocol(_))
    ));
}

#[test]
fn enumeration_is_idempotent() {
    let mut client = XAPClient::new();
    let visible = vec!["/dev/hidraw1".to_string(), "/dev/hidraw2".to_string(), "/dev/hidraw1".to_string()];
    let first = client.enumerate_devices(&visible);
    assert!(first.removed.is_empty());
    assert_eq!(first.candidates, vec!["/dev/hidraw1".to_string(), "/dev/hidraw2".to_string()]);
    for path in first.candidates {
        new_id(client.attach(path, info("k"), XAPSecureStatus::Locked));
    }
    let second = client.enumerate_devices(&visible);
    assert!(second.removed.is_empty());
    assert!(second.candidates.is_empty());
    assert_eq!(client.get_devices().len(), 2);
}

#[test]
fn duplicate_paths_are_refused() {
    let mut client = XAPClient::new();
    new_id(client.attach("p".to_string(), info("a"), XAPSecureStatus::Locked));
    assert_eq!(
        client.attach("p".to_string(), info("b"), XAPSecureStatus::Locked).map(|_| ()),
        Err(XapError::DuplicateDevice)
    );
    assert_eq!(
        client.attach_with_id(1, "q".to_string(), info("b"), XAPSecureStatus::Locked).map(|_| ()),
        Ok(())
    );
    assert_eq!(
        client.attach_with_id(1, "r".to_string(), info("c"), XAPSecureStatus::Locked).map(|_| ()),
        Err(XapError::DuplicateDevice)
    );
    assert_eq!(client.get_device(99).map(|_| ()), Err(XapError::UnknownDevice(99)));
}

#[test]
fn device_lifecycle_end_to_end() {
    let mut client = XAPClient::new();
    let keep = "/dev/hidraw0".to_string();
    let gone = "/dev/hidraw3".to_string();
    let found = client.enumerate_devices(&vec![keep.clone(), gone.clone()]);
    let mut ids = vec![];
    for path in found.candidates {
        ids.push(new_id(client.attach(path, info("kb"), XAPSecureStatus::Locked)));
    }
    let target = ids[1];
    assert_eq!(client.get_device(target).unwrap().path(), &gone);

    let frame = client.begin_query(target, XapVersionRequest(())).unwrap();
    let payload = client
        .accept_response(target, &response(&frame, &[0x00, 0x00, 0x03, 0x00]))
        .unwrap()
        .unwrap();
    assert_eq!(client.complete_query::<XapVersionRequest>(target, &payload), Ok(0x0003_0000));

    let after = client.enumerate_devices(&vec![keep.clone()]);
    assert_eq!(after.removed.len(), 1);
    assert!(matches!(after.removed[0], XAPEvent::RemovedDevice(id) if id == target));
    assert!(after.candidates.is_empty());
    assert_eq!(client.get_devices().len(), 1);
    assert_eq!(client.get_devices()[0].id(), ids[0]);
    assert_eq!(client.get_device(target).map(|_| ()), Err(XapError::UnknownDevice(target)));
}

#[test]
fn console_output_is_assembled_into_lines() {
    let mut buffers = qmk_xap::logs::LogBuffers::new();
    assert!(buffers.log(1, "hel").is_empty());
    assert!(buffers.log(2, "other").is_empty());
    assert_eq!(buffers.log(1, "lo\nwor"), vec!["hello\n".to_string()]);
    assert_eq!(buffers.log(1, "ld\n\nx"), vec!["world\n".to_string(), "\n".to_string()]);
    assert_eq!(buffers.log(2, "\n"), vec!["other\n".to_string()]);
    assert_eq!(buffers.log(1, "é\n"), vec!["xé\n".to_string()]);
}

#[test]
fn disconnected_device_is_removed_and_brought_up_again() {
    let mut client = XAPClient::new();
    let visible = vec!["/dev/hidraw1".to_string(), "/dev/hidraw2".to_string()];
    let a = new_id(client.attach(visible[0].clone(), info("a"), XAPSecureStatus::Locked));
    let b = new_id(client.attach(visible[1].clone(), info("b"), XAPSecureStatus::Locked));
    client.begin_query(a, XapVersionRequest(())).unwrap();
    assert!(matches!(client.disconnect(a), XapError::IO(_)));
    let pass = client.enumerate_devices(&visible);
    assert_eq!(pass.removed.len(), 1);
    assert!(matches!(pass.removed[0], XAPEvent::RemovedDevice(id) if id == a));
    assert_eq!(pass.candidates, vec!["/dev/hidraw1".to_string()]);
    assert_eq!(client.get_devices().len(), 1);
    assert_eq!(client.get_devices()[0].id(), b);
    let again = new_id(client.attach(pass.candidates[0].clone(), info("a"), XAPSecureStatus::Locked));
    assert_ne!(again, a);
    let settled = client.enumerate_devices(&visible);
    assert!(settled.removed.is_empty() && settled.candidates.is_empty());
}

#[test]
fn attach_to_empty_registry_succeeds() {
    let mut client = XAPClient::new();
    let id = new_id(client.attach("p".to_string(), info("a"), XAPSecureStatus::Unlocked));
    assert_eq!(client.get_device(id).unwrap().secure_status(), XAPSecureStatus::Unlocked);
}
