use qmk_xap::painter::{
    HSVColor, PainterAnimate, PainterAnimateRecolor, PainterCircle, PainterDrawAnimate,
    PainterDrawAnimateRecolor, PainterDrawCircle, PainterDrawClear, PainterDrawEllipse,
    PainterDrawExtendScrollingText, PainterDrawImage, PainterDrawImageRecolor, PainterDrawLine,
    PainterDrawPixdata, PainterDrawPixel, PainterDrawRect, PainterDrawScrollingText,
    PainterDrawStopScrollingText, PainterDrawText, PainterDrawTextRecolor, PainterEllipse,
    PainterExtendScrollingText, PainterGetGeometry, PainterGetTextWidth, PainterImage,
    PainterImageRecolor, PainterLine, PainterPixdata, PainterPixel, PainterRect,
    PainterScrollingText, PainterSetViewport, PainterSurfaceDrawText, PainterText,
    PainterTextRecolor, PainterTextWidth, PainterViewport,
};
use qmk_xap::request::{decode_request, RawRequest, XapPayload, XapRequest};
use qmk_xap::xap::{
    QmkBoardIdentifiersRequest, QmkCapabilitiesRequest, QmkJumpToBootloaderRequest,
    QmkReinitializeEepromRequest, QmkVersionRequest, XapCapabilitiesRequest,
    XapEnabledSubsystemCapabilitiesRequest, XapSecureLockRequest, XapSecureStatusRequest,
    XapSecureUnlockRequest, XapVersionRequest,
};

/// Encodes a request, decodes the frame and encodes the decoded payload
/// again: both frames must agree past the token.
fn round_trip<T: XapRequest>(make: impl Fn() -> T) {
    let first = RawRequest::new(make());
    let token = *first.token();
    let frame = first.encode().unwrap();
    let mut padded = frame.clone();
    padded.resize(64.max(frame.len()), 0);
    let (t, decoded) = decode_request::<T>(&padded).unwrap();
    assert_eq!(t, token);
    let mut payload = Vec::new();
    decoded.write(&mut payload);
    let mut expected = Vec::new();
    make().write(&mut expected);
    assert_eq!(payload, expected);
    assert_eq!(&frame[3..3 + T::id().len()], T::id());
    assert_eq!(&frame[3 + T::id().len()..], &expected[..]);
    assert_eq!(frame[2] as usize, T::id().len() + expected.len());
}

fn color(h: u8) -> HSVColor {
    HSVColor { hue: h, sat: 255 - h, val: 7 }
}

#[test]
fn every_request_type_round_trips() {
    round_trip(|| PainterDrawClear(3));
    round_trip(|| PainterDrawPixel(PainterPixel { screen_id: 1, x: 2, y: 65535, color: color(9) }));
    round_trip(|| PainterDrawLine(PainterLine { screen_id: 1, x0: 1, y0: 2, x1: 300, y1: 4, color: color(1) }));
    round_trip(|| {
        PainterDrawRect(PainterRect { screen_id: 0, left: 1, top: 2, right: 3, bottom: 4, color: color(2), filled: 1 })
    });
    round_trip(|| PainterDrawCircle(PainterCircle { screen_id: 0, x: 5, y: 6, radius: 7, color: color(3), filled: 0 }));
    round_trip(|| {
        PainterDrawEllipse(PainterEllipse { screen_id: 0, x: 5, y: 6, sizex: 7, sizey: 8, color: color(4), filled: 1 })
    });
    round_trip(|| PainterDrawImage(PainterImage { screen_id: 1, x: 10, y: 20, img: 3 }));
    round_trip(|| {
        PainterDrawImageRecolor(PainterImageRecolor {
            screen_id: 1,
            x: 10,
            y: 20,
            img: 3,
            fg_color: color(5),
            bg_color: color(6),
        })
    });
    round_trip(|| PainterDrawAnimate(PainterAnimate { screen_id: 1, x: 10, y: 20, img: 3 }));
    round_trip(|| {
        PainterDrawAnimateRecolor(PainterAnimateRecolor {
            screen_id: 1,
            x: 10,
            y: 20,
            img: 3,
            fg_color: color(5),
            bg_color: color(6),
        })
    });
    round_trip(|| PainterDrawText(PainterText { screen_id: 1, x: 1, y: 2, font: 0, text: b"hi".to_vec() }));
    round_trip(|| PainterSurfaceDrawText(PainterText { screen_id: 1, x: 1, y: 2, font: 0, text: vec![] }));
    round_trip(|| {
        PainterDrawTextRecolor(PainterTextRecolor {
            screen_id: 1,
            x: 1,
            y: 2,
            font: 0,
            fg_color: color(1),
            bg_color: color(2),
            text: vec![b'x'; 240],
        })
    });
    round_trip(|| PainterGetGeometry(1));
    round_trip(|| PainterSetViewport(PainterViewport { screen_id: 0, left: 1, top: 2, right: 3, bottom: 4 }));
    round_trip(|| PainterDrawPixdata(PainterPixdata { screen_id: 0, pixels: vec![0x55; 56] }));
    round_trip(|| PainterGetTextWidth(PainterTextWidth { font: 1, text: b"width".to_vec() }));
    round_trip(|| {
        PainterDrawScrollingText(PainterScrollingText {
            screen_id: 0,
            x: 0,
            y: 9,
            font: 1,
            n_chars: 18,
            delay: 300,
            text: b"scrolling".to_vec(),
        })
    });
    round_trip(|| PainterDrawStopScrollingText(4));
    round_trip(|| PainterDrawExtendScrollingText(PainterExtendScrollingText { token: 4, text: b" more".to_vec() }));
    round_trip(|| XapVersionRequest(()));
    round_trip(|| XapCapabilitiesRequest(()));
    round_trip(|| XapEnabledSubsystemCapabilitiesRequest(()));
    round_trip(|| XapSecureStatusRequest(()));
    round_trip(|| XapSecureUnlockRequest(()));
    round_trip(|| XapSecureLockRequest(()));
    round_trip(|| QmkVersionRequest(()));
    round_trip(|| QmkCapabilitiesRequest(()));
    round_trip(|| QmkBoardIdentifiersRequest(()));
    round_trip(|| QmkJumpToBootloaderRequest(()));
    round_trip(|| QmkReinitializeEepromRequest(()));
}
