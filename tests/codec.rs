use qmk_xap::error::{CodecError, XapError};
use qmk_xap::painter::{
    HSVColor, PainterDrawClear, PainterDrawPixdata, PainterDrawRect, PainterDrawScrollingText,
    PainterDrawText, PainterGeometry, PainterGetGeometry, PainterGetTextWidth, PainterPixdata,
    PainterRect, PainterScrollingText, PainterText, PainterTextWidth,
};
use qmk_xap::request::{decode_request, RawRequest, XapRequest, XapResponse};
use qmk_xap::token::Token;
use qmk_xap::xap::{XAPSecureStatus, XapSecureStatusRequest, XapVersionRequest};

fn text(screen_id: u8, x: u16, y: u16, font: u8, text: Vec<u8>) -> PainterText {
    PainterText { screen_id, x, y, font, text }
}

#[test]
fn token_classification() {
    assert_eq!(Token::from_raw(0xFFFE), Ok(Token::WithoutResponse));
    assert_eq!(Token::from_raw(0xFFFF), Ok(Token::Broadcast));
    assert_eq!(Token::from_raw(0x0100), Ok(Token::WithResponse(0x0100)));
    assert_eq!(Token::from_raw(0xFFFD), Ok(Token::WithResponse(0xFFFD)));
    assert_eq!(Token::from_raw(0x1234), Ok(Token::WithResponse(0x1234)));
    assert_eq!(Token::from_raw(0x00FF), Err(CodecError::InvalidToken(0x00FF)));
    assert_eq!(Token::from_raw(0), Err(CodecError::InvalidToken(0)));
}

#[test]
fn minted_tokens_stay_in_the_request_window() {
    for _ in 0..1000 {
        match Token::regular_token() {
            Token::WithResponse(id) => assert!((0x0100..=0xFFFD).contains(&id)),
            other => panic!("unexpected token {:?}", other),
        }
    }
}

#[test]
fn token_raw_values() {
    assert_eq!(Token::WithResponse(0x4321).raw(), 0x4321);
    assert_eq!(Token::WithoutResponse.raw(), 0xFFFE);
    assert_eq!(Token::Broadcast.raw(), 0xFFFF);
}

#[test]
fn rect_frame_layout() {
    let req = RawRequest::new(PainterDrawRect(PainterRect {
        screen_id: 1,
        left: 0x0102,
        top: 3,
        right: 0x0304,
        bottom: 5,
        color: HSVColor { hue: 10, sat: 20, val: 30 },
        filled: 1,
    }));
    let raw = req.token().raw();
    let frame = req.encode().unwrap();
    assert_eq!(
        frame,
        vec![
            (raw % 256) as u8,
            (raw / 256) as u8,
            16,
            3,
            2,
            4,
            1,
            0x02,
            0x01,
            3,
            0,
            0x04,
            0x03,
            5,
            0,
            10,
            20,
            30,
            1
        ]
    );
}

#[test]
fn length_byte_for_empty_payload() {
    let frame = RawRequest::new(XapVersionRequest(())).encode().unwrap();
    assert_eq!(frame.len(), 5);
    assert_eq!(frame[2], 2);
    assert_eq!(&frame[3..], &[0, 0]);
}

#[test]
fn length_byte_for_one_byte_payload() {
    let frame = RawRequest::new(PainterDrawClear(7)).encode().unwrap();
    assert_eq!(frame[2], 4);
    assert_eq!(&frame[3..], &[3, 2, 1, 7]);
}

#[test]
fn length_byte_for_largest_payload() {
    let pixels = vec![0xAB; 251];
    let frame = RawRequest::new(PainterDrawPixdata(PainterPixdata { screen_id: 0, pixels }))
        .encode()
        .unwrap();
    assert_eq!(frame[2], 255);
    assert_eq!(frame.len(), 258);
}

#[test]
fn too_long_payload_is_refused() {
    let pixels = vec![0xAB; 252];
    let r = RawRequest::new(PainterDrawPixdata(PainterPixdata { screen_id: 0, pixels })).encode();
    assert_eq!(r, Err(CodecError::FrameTooLong));
}

#[test]
fn text_round_trip_empty_and_longest() {
    for len in [0usize, 1, 246] {
        let body: Vec<u8> = (0..len).map(|i| (i % 200) as u8 + 1).collect();
        let req = RawRequest::new(PainterDrawText(text(1, 300, 7, 2, body.clone())));
        let token = *req.token();
        let frame = req.encode().unwrap();
        let (t, decoded) = decode_request::<PainterDrawText>(&frame).unwrap();
        assert_eq!(t, token);
        assert_eq!(decoded.0.screen_id, 1);
        assert_eq!(decoded.0.x, 300);
        assert_eq!(decoded.0.y, 7);
        assert_eq!(decoded.0.font, 2);
        assert_eq!(decoded.0.text, body);
    }
}

#[test]
fn scrolling_text_round_trip() {
    let req = RawRequest::new(PainterDrawScrollingText(PainterScrollingText {
        screen_id: 0,
        x: 12,
        y: 34,
        font: 1,
        n_chars: 18,
        delay: 300,
        text: b"hello".to_vec(),
    }));
    let frame = req.encode().unwrap();
    let (_, d) = decode_request::<PainterDrawScrollingText>(&frame).unwrap();
    assert_eq!((d.0.screen_id, d.0.x, d.0.y, d.0.font, d.0.n_chars, d.0.delay), (0, 12, 34, 1, 18, 300));
    assert_eq!(d.0.text, b"hello".to_vec());
}

#[test]
fn rect_round_trip_with_padding() {
    let rect = PainterRect {
        screen_id: 2,
        left: 65535,
        top: 0,
        right: 256,
        bottom: 255,
        color: HSVColor { hue: 0, sat: 255, val: 128 },
        filled: 0,
    };
    let mut frame = RawRequest::new(PainterDrawRect(rect)).encode().unwrap();
    frame.resize(64, 0);
    let (_, d) = decode_request::<PainterDrawRect>(&frame).unwrap();
    assert_eq!(d.0, rect);
}

#[test]
fn decoding_checks_route_and_length() {
    let frame = RawRequest::new(PainterDrawClear(1)).encode().unwrap();
    assert_eq!(
        decode_request::<PainterGetGeometry>(&frame).map(|_| ()),
        Err(CodecError::RouteMismatch)
    );
    assert_eq!(
        decode_request::<PainterDrawClear>(&frame[..4]).map(|_| ()),
        Err(CodecError::Truncated)
    );
    let mut long = frame.clone();
    long.push(9);
    long[2] = 5;
    assert_eq!(
        decode_request::<PainterDrawClear>(&long).map(|_| ()),
        Err(CodecError::LengthMismatch)
    );
}

#[test]
fn text_width_request_round_trip() {
    let frame = RawRequest::new(PainterGetTextWidth(PainterTextWidth { font: 3, text: vec![] }))
        .encode()
        .unwrap();
    assert_eq!(frame[2], 4);
    let (_, d) = decode_request::<PainterGetTextWidth>(&frame).unwrap();
    assert_eq!(d.0.font, 3);
    assert!(d.0.text.is_empty());
}

#[test]
fn response_layouts() {
    assert_eq!(
        PainterGeometry::read_response(&[0x40, 0x01, 0xF0, 0x00, 1, 2, 0, 3, 0, 0xEE]),
        Some(PainterGeometry { width: 320, height: 240, rotation: 1, offset_x: 2, offset_y: 3 })
    );
    assert_eq!(PainterGeometry::read_response(&[1, 2, 3]), None);
    assert_eq!(<i16 as XapResponse>::read_response(&[0xFE, 0xFF]), Some(-2));
    assert_eq!(<i16 as XapResponse>::read_response(&[0x10, 0x00]), Some(16));
    assert_eq!(<u32 as XapResponse>::read_response(&[1, 2, 3, 4]), Some(0x04030201));
    assert_eq!(
        <XAPSecureStatus as XapResponse>::read_response(&[2]),
        Some(XAPSecureStatus::Unlocked)
    );
    assert_eq!(<XAPSecureStatus as XapResponse>::read_response(&[7]), None);
}

#[test]
fn request_routes() {
    assert_eq!(PainterDrawText::id(), &[3, 2, 0xB]);
    assert_eq!(XapSecureStatusRequest::id(), &[0, 3]);
    assert!(!PainterDrawText::is_secure());
    assert!(qmk_xap::xap::QmkJumpToBootloaderRequest::is_secure());
}

#[test]
fn error_messages() {
    assert_eq!(XapError::SecureLocked.message(), "device is locked");
    assert_eq!(XapError::Protocol("bad frame".to_string()).message(), "bad frame");
}
