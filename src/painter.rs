use vstd::prelude::*;

use crate::codec::{
    copy_range, i16_of, lemma_le16_round_trip, push_bytes, push_u16, read_i16, read_u16, u16_le,
};
use crate::request::{XapPayload, XapRequest, XapResponse};

verus! {

/// A colour as hue, saturation and value, each scaled to `0..=255`.
#[derive(Debug, Clone, Copy, PartialEq, Eq, Structural)]
pub struct HSVColor {
    pub hue: u8,
    pub sat: u8,
    pub val: u8,
}

/// Appends the three bytes of a colour.
fn push_color(out: &mut Vec<u8>, c: HSVColor)
    ensures
        final(out)@ == old(out)@ + seq![c.hue, c.sat, c.val],
{
    out.push(c.hue);
    out.push(c.sat);
    out.push(c.val);
    assert(out@ =~= old(out)@ + seq![c.hue, c.sat, c.val]);
}

/// The colour stored at `b[at..at + 3]`.
fn read_color(b: &[u8], at: usize) -> (c: HSVColor)
    requires
        at + 3 <= b@.len(),
    ensures
        c == (HSVColor { hue: b@[at as int], sat: b@[at + 1], val: b@[at + 2] }),
{
    HSVColor { hue: b[at], sat: b[at + 1], val: b[at + 2] }
}

/// A one-byte payload: a screen id or a scrolling text token.
impl XapPayload for u8 {
    open spec fn encoded(v: u8) -> Seq<u8> {
        seq![v]
    }

    open spec fn decoded(b: Seq<u8>) -> Option<u8> {
        if b.len() == 1 {
            Some(b[0])
        } else {
            None
        }
    }

    proof fn lemma_round_trip(v: u8) {
    }

    fn write(&self, out: &mut Vec<u8>) {
        out.push(*self);
        assert(out@ =~= old(out)@ + seq![*self]);
    }

    fn read(b: &[u8]) -> (r: Option<u8>) {
        if b.len() == 1 {
            Some(b[0])
        } else {
            None
        }
    }
}

impl XapResponse for () {
    open spec fn parsed(b: Seq<u8>) -> Option<()> {
        Some(())
    }

    fn read_response(b: &[u8]) -> (r: Option<()>) {
        Some(())
    }
}

impl XapResponse for u8 {
    open spec fn parsed(b: Seq<u8>) -> Option<u8> {
        if b.len() >= 1 {
            Some(b[0])
        } else {
            None
        }
    }

    fn read_response(b: &[u8]) -> (r: Option<u8>) {
        if b.len() >= 1 {
            Some(b[0])
        } else {
            None
        }
    }
}

impl XapResponse for i16 {
    open spec fn parsed(b: Seq<u8>) -> Option<i16> {
        if b.len() >= 2 {
            Some(i16_of(u16_le(b[0], b[1])))
        } else {
            None
        }
    }

    fn read_response(b: &[u8]) -> (r: Option<i16>) {
        if b.len() >= 2 {
            Some(read_i16(b, 0))
        } else {
            None
        }
    }
}

/// Size, rotation and offset of a screen.
#[derive(Debug, Clone, Copy, PartialEq, Eq, Structural)]
pub struct PainterGeometry {
    pub width: u16,
    pub height: u16,
    pub rotation: u8,
    pub offset_x: u16,
    pub offset_y: u16,
}

impl XapResponse for PainterGeometry {
    open spec fn parsed(b: Seq<u8>) -> Option<PainterGeometry> {
        if b.len() >= 9 {
            Some(
                PainterGeometry {
                    width: u16_le(b[0], b[1]),
                    height: u16_le(b[2], b[3]),
                    rotation: b[4],
                    offset_x: u16_le(b[5], b[6]),
                    offset_y: u16_le(b[7], b[8]),
                },
            )
        } else {
            None
        }
    }

    fn read_response(b: &[u8]) -> (r: Option<PainterGeometry>) {
        if b.len() >= 9 {
            Some(
                PainterGeometry {
                    width: read_u16(b, 0),
                    height: read_u16(b, 2),
                    rotation: b[4],
                    offset_x: read_u16(b, 5),
                    offset_y: read_u16(b, 7),
                },
            )
        } else {
            None
        }
    }
}

/// A single pixel.
#[derive(Debug, Clone, Copy, PartialEq, Eq, Structural)]
pub struct PainterPixel {
    pub screen_id: u8,
    pub x: u16,
    pub y: u16,
    pub color: HSVColor,
}

impl View for PainterPixel {
    type V = PainterPixel;

    open spec fn view(&self) -> PainterPixel {
        *self
    }
}

impl XapPayload for PainterPixel {
    open spec fn encoded(v: PainterPixel) -> Seq<u8> {
        seq![
            v.screen_id,
            (v.x % 256) as u8,
            (v.x / 256) as u8,
            (v.y % 256) as u8,
            (v.y / 256) as u8,
            v.color.hue,
            v.color.sat,
            v.color.val,
        ]
    }

    open spec fn decoded(b: Seq<u8>) -> Option<PainterPixel> {
        if b.len() == 8 {
            Some(
                PainterPixel {
                    screen_id: b[0],
                    x: u16_le(b[1], b[2]),
                    y: u16_le(b[3], b[4]),
                    color: HSVColor { hue: b[5], sat: b[6], val: b[7] },
                },
            )
        } else {
            None
        }
    }

    proof fn lemma_round_trip(v: PainterPixel) {
        lemma_le16_round_trip(v.x);
        lemma_le16_round_trip(v.y);
    }

    fn write(&self, out: &mut Vec<u8>) {
        out.push(self.screen_id);
        push_u16(out, self.x);
        push_u16(out, self.y);
        push_color(out, self.color);
        assert(out@ =~= old(out)@ + Self::encoded(self@));
    }

    fn read(b: &[u8]) -> (r: Option<PainterPixel>) {
        if b.len() != 8 {
            return None;
        }
        Some(
            PainterPixel {
                screen_id: b[0],
                x: read_u16(b, 1),
                y: read_u16(b, 3),
                color: read_color(b, 5),
            },
        )
    }
}

/// A straight line between two points.
#[derive(Debug, Clone, Copy, PartialEq, Eq, Structural)]
pub struct PainterLine {
    pub screen_id: u8,
    pub x0: u16,
    pub y0: u16,
    pub x1: u16,
    pub y1: u16,
    pub color: HSVColor,
}

impl View for PainterLine {
    type V = PainterLine;

    open spec fn view(&self) -> PainterLine {
        *self
    }
}

impl XapPayload for PainterLine {
    open spec fn encoded(v: PainterLine) -> Seq<u8> {
        seq![
            v.screen_id,
            (v.x0 % 256) as u8,
            (v.x0 / 256) as u8,
            (v.y0 % 256) as u8,
            (v.y0 / 256) as u8,
            (v.x1 % 256) as u8,
            (v.x1 / 256) as u8,
            (v.y1 % 256) as u8,
            (v.y1 / 256) as u8,
            v.color.hue,
            v.color.sat,
            v.color.val,
        ]
    }

    open spec fn decoded(b: Seq<u8>) -> Option<PainterLine> {
        if b.len() == 12 {
            Some(
                PainterLine {
                    screen_id: b[0],
                    x0: u16_le(b[1], b[2]),
                    y0: u16_le(b[3], b[4]),
                    x1: u16_le(b[5], b[6]),
                    y1: u16_le(b[7], b[8]),
                    color: HSVColor { hue: b[9], sat: b[10], val: b[11] },
                },
            )
        } else {
            None
        }
    }

    proof fn lemma_round_trip(v: PainterLine) {
        lemma_le16_round_trip(v.x0);
        lemma_le16_round_trip(v.y0);
        lemma_le16_round_trip(v.x1);
        lemma_le16_round_trip(v.y1);
    }

    fn write(&self, out: &mut Vec<u8>) {
        out.push(self.screen_id);
        push_u16(out, self.x0);
        push_u16(out, self.y0);
        push_u16(out, self.x1);
        push_u16(out, self.y1);
        push_color(out, self.color);
        assert(out@ =~= old(out)@ + Self::encoded(self@));
    }

    fn read(b: &[u8]) -> (r: Option<PainterLine>) {
        if b.len() != 12 {
            return None;
        }
        Some(
            PainterLine {
                screen_id: b[0],
                x0: read_u16(b, 1),
                y0: read_u16(b, 3),
                x1: read_u16(b, 5),
                y1: read_u16(b, 7),
                color: read_color(b, 9),
            },
        )
    }
}

/// A rectangle, outlined or filled.
#[derive(Debug, Clone, Copy, PartialEq, Eq, Structural)]
pub struct PainterRect {
    pub screen_id: u8,
    pub left: u16,
    pub top: u16,
    pub right: u16,
    pub bottom: u16,
    pub color: HSVColor,
    pub filled: u8,
}

impl View for PainterRect {
    type V = PainterRect;

    open spec fn view(&self) -> PainterRect {
        *self
    }
}

impl XapPayload for PainterRect {
    open spec fn encoded(v: PainterRect) -> Seq<u8> {
        seq![
            v.screen_id,
            (v.left % 256) as u8,
            (v.left / 256) as u8,
            (v.top % 256) as u8,
            (v.top / 256) as u8,
            (v.right % 256) as u8,
            (v.right / 256) as u8,
            (v.bottom % 256) as u8,
            (v.bottom / 256) as u8,
            v.color.hue,
            v.color.sat,
            v.color.val,
            v.filled,
        ]
    }

    open spec fn decoded(b: Seq<u8>) -> Option<PainterRect> {
        if b.len() == 13 {
            Some(
                PainterRect {
                    screen_id: b[0],
                    left: u16_le(b[1], b[2]),
                    top: u16_le(b[3], b[4]),
                    right: u16_le(b[5], b[6]),
                    bottom: u16_le(b[7], b[8]),
                    color: HSVColor { hue: b[9], sat: b[10], val: b[11] },
                    filled: b[12],
                },
            )
        } else {
            None
        }
    }

    proof fn lemma_round_trip(v: PainterRect) {
        lemma_le16_round_trip(v.left);
        lemma_le16_round_trip(v.top);
        lemma_le16_round_trip(v.right);
        lemma_le16_round_trip(v.bottom);
    }

    fn write(&self, out: &mut Vec<u8>) {
        out.push(self.screen_id);
        push_u16(out, self.left);
        push_u16(out, self.top);
        push_u16(out, self.right);
        push_u16(out, self.bottom);
        push_color(out, self.color);
        out.push(self.filled);
        assert(out@ =~= old(out)@ + Self::encoded(self@));
    }

    fn read(b: &[u8]) -> (r: Option<PainterRect>) {
        if b.len() != 13 {
            return None;
        }
        Some(
            PainterRect {
                screen_id: b[0],
                left: read_u16(b, 1),
                top: read_u16(b, 3),
                right: read_u16(b, 5),
                bottom: read_u16(b, 7),
                color: read_color(b, 9),
                filled: b[12],
            },
        )
    }
}

/// A circle around a centre point.
#[derive(Debug, Clone, Copy, PartialEq, Eq, Structural)]
pub struct PainterCircle {
    pub screen_id: u8,
    pub x: u16,
    pub y: u16,
    pub radius: u16,
    pub color: HSVColor,
    pub filled: u8,
}

impl View for PainterCircle {
    type V = PainterCircle;

    open spec fn view(&self) -> PainterCircle {
        *self
    }
}

impl XapPayload for PainterCircle {
    open spec fn encoded(v: PainterCircle) -> Seq<u8> {
        seq![
            v.screen_id,
            (v.x % 256) as u8,
            (v.x / 256) as u8,
            (v.y % 256) as u8,
            (v.y / 256) as u8,
            (v.radius % 256) as u8,
            (v.radius / 256) as u8,
            v.color.hue,
            v.color.sat,
            v.color.val,
            v.filled,
        ]
    }

    open spec fn decoded(b: Seq<u8>) -> Option<PainterCircle> {
        if b.len() == 11 {
            Some(
                PainterCircle {
                    screen_id: b[0],
                    x: u16_le(b[1], b[2]),
                    y: u16_le(b[3], b[4]),
                    radius: u16_le(b[5], b[6]),
                    color: HSVColor { hue: b[7], sat: b[8], val: b[9] },
                    filled: b[10],
                },
            )
        } else {
            None
        }
    }

    proof fn lemma_round_trip(v: PainterCircle) {
        lemma_le16_round_trip(v.x);
        lemma_le16_round_trip(v.y);
        lemma_le16_round_trip(v.radius);
    }

    fn write(&self, out: &mut Vec<u8>) {
        out.push(self.screen_id);
        push_u16(out, self.x);
        push_u16(out, self.y);
        push_u16(out, self.radius);
        push_color(out, self.color);
        out.push(self.filled);
        assert(out@ =~= old(out)@ + Self::encoded(self@));
    }

    fn read(b: &[u8]) -> (r: Option<PainterCircle>) {
        if b.len() != 11 {
            return None;
        }
        Some(
            PainterCircle {
                screen_id: b[0],
                x: read_u16(b, 1),
                y: read_u16(b, 3),
                radius: read_u16(b, 5),
                color: read_color(b, 7),
                filled: b[10],
            },
        )
    }
}

/// An ellipse around a centre point.
#[derive(Debug, Clone, Copy, PartialEq, Eq, Structural)]
pub struct PainterEllipse {
    pub screen_id: u8,
    pub x: u16,
    pub y: u16,
    pub sizex: u16,
    pub sizey: u16,
    pub color: HSVColor,
    pub filled: u8,
}

impl View for PainterEllipse {
    type V = PainterEllipse;

    open spec fn view(&self) -> PainterEllipse {
        *self
    }
}

impl XapPayload for PainterEllipse {
    open spec fn encoded(v: PainterEllipse) -> Seq<u8> {
        seq![
            v.screen_id,
            (v.x % 256) as u8,
            (v.x / 256) as u8,
            (v.y % 256) as u8,
            (v.y / 256) as u8,
            (v.sizex % 256) as u8,
            (v.sizex / 256) as u8,
            (v.sizey % 256) as u8,
            (v.sizey / 256) as u8,
            v.color.hue,
            v.color.sat,
            v.color.val,
            v.filled,
        ]
    }

    open spec fn decoded(b: Seq<u8>) -> Option<PainterEllipse> {
        if b.len() == 13 {
            Some(
                PainterEllipse {
                    screen_id: b[0],
                    x: u16_le(b[1], b[2]),
                    y: u16_le(b[3], b[4]),
                    sizex: u16_le(b[5], b[6]),
                    sizey: u16_le(b[7], b[8]),
                    color: HSVColor { hue: b[9], sat: b[10], val: b[11] },
                    filled: b[12],
                },
            )
        } else {
            None
        }
    }

    proof fn lemma_round_trip(v: PainterEllipse) {
        lemma_le16_round_trip(v.x);
        lemma_le16_round_trip(v.y);
        lemma_le16_round_trip(v.sizex);
        lemma_le16_round_trip(v.sizey);
    }

    fn write(&self, out: &mut Vec<u8>) {
        out.push(self.screen_id);
        push_u16(out, self.x);
        push_u16(out, self.y);
        push_u16(out, self.sizex);
        push_u16(out, self.sizey);
        push_color(out, self.color);
        out.push(self.filled);
        assert(out@ =~= old(out)@ + Self::encoded(self@));
    }

    fn read(b: &[u8]) -> (r: Option<PainterEllipse>) {
        if b.len() != 13 {
            return None;
        }
        Some(
            PainterEllipse {
                screen_id: b[0],
                x: read_u16(b, 1),
                y: read_u16(b, 3),
                sizex: read_u16(b, 5),
                sizey: read_u16(b, 7),
                color: read_color(b, 9),
                filled: b[12],
            },
        )
    }
}

/// An image stored on the device.
#[derive(Debug, Clone, Copy, PartialEq, Eq, Structural)]
pub struct PainterImage {
    pub screen_id: u8,
    pub x: u16,
    pub y: u16,
    pub img: u8,
}

impl View for PainterImage {
    type V = PainterImage;

    open spec fn view(&self) -> PainterImage {
        *self
    }
}

impl XapPayload for PainterImage {
    open spec fn encoded(v: PainterImage) -> Seq<u8> {
        seq![
            v.screen_id,
            (v.x % 256) as u8,
            (v.x / 256) as u8,
            (v.y % 256) as u8,
            (v.y / 256) as u8,
            v.img,
        ]
    }

    open spec fn decoded(b: Seq<u8>) -> Option<PainterImage> {
        if b.len() == 6 {
            Some(
                PainterImage {
                    screen_id: b[0],
                    x: u16_le(b[1], b[2]),
                    y: u16_le(b[3], b[4]),
                    img: b[5],
                },
            )
        } else {
            None
        }
    }

    proof fn lemma_round_trip(v: PainterImage) {
        lemma_le16_round_trip(v.x);
        lemma_le16_round_trip(v.y);
    }

    fn write(&self, out: &mut Vec<u8>) {
        out.push(self.screen_id);
        push_u16(out, self.x);
        push_u16(out, self.y);
        out.push(self.img);
        assert(out@ =~= old(out)@ + Self::encoded(self@));
    }

    fn read(b: &[u8]) -> (r: Option<PainterImage>) {
        if b.len() != 6 {
            return None;
        }
        Some(PainterImage { screen_id: b[0], x: read_u16(b, 1), y: read_u16(b, 3), img: b[5] })
    }
}

/// An image stored on the device, drawn in two given colours.
#[derive(Debug, Clone, Copy, PartialEq, Eq, Structural)]
pub struct PainterImageRecolor {
    pub screen_id: u8,
    pub x: u16,
    pub y: u16,
    pub img: u8,
    pub fg_color: HSVColor,
    pub bg_color: HSVColor,
}

impl View for PainterImageRecolor {
    type V = PainterImageRecolor;

    open spec fn view(&self) -> PainterImageRecolor {
        *self
    }
}

impl XapPayload for PainterImageRecolor {
    open spec fn encoded(v: PainterImageRecolor) -> Seq<u8> {
        seq![
            v.screen_id,
            (v.x % 256) as u8,
            (v.x / 256) as u8,
            (v.y % 256) as u8,
            (v.y / 256) as u8,
            v.img,
            v.fg_color.hue,
            v.fg_color.sat,
            v.fg_color.val,
            v.bg_color.hue,
            v.bg_color.sat,
            v.bg_color.val,
        ]
    }

    open spec fn decoded(b: Seq<u8>) -> Option<PainterImageRecolor> {
        if b.len() == 12 {
            Some(
                PainterImageRecolor {
                    screen_id: b[0],
                    x: u16_le(b[1], b[2]),
                    y: u16_le(b[3], b[4]),
                    img: b[5],
                    fg_color: HSVColor { hue: b[6], sat: b[7], val: b[8] },
                    bg_color: HSVColor { hue: b[9], sat: b[10], val: b[11] },
                },
            )
        } else {
            None
        }
    }

    proof fn lemma_round_trip(v: PainterImageRecolor) {
        lemma_le16_round_trip(v.x);
        lemma_le16_round_trip(v.y);
    }

    fn write(&self, out: &mut Vec<u8>) {
        out.push(self.screen_id);
        push_u16(out, self.x);
        push_u16(out, self.y);
        out.push(self.img);
        push_color(out, self.fg_color);
        push_color(out, self.bg_color);
        assert(out@ =~= old(out)@ + Self::encoded(self@));
    }

    fn read(b: &[u8]) -> (r: Option<PainterImageRecolor>) {
        if b.len() != 12 {
            return None;
        }
        Some(
            PainterImageRecolor {
                screen_id: b[0],
                x: read_u16(b, 1),
                y: read_u16(b, 3),
                img: b[5],
                fg_color: read_color(b, 6),
                bg_color: read_color(b, 9),
            },
        )
    }
}

/// An animation stored on the device.
#[derive(Debug, Clone, Copy, PartialEq, Eq, Structural)]
pub struct PainterAnimate {
    pub screen_id: u8,
    pub x: u16,
    pub y: u16,
    pub img: u8,
}

impl View for PainterAnimate {
    type V = PainterAnimate;

    open spec fn view(&self) -> PainterAnimate {
        *self
    }
}

impl XapPayload for PainterAnimate {
    open spec fn encoded(v: PainterAnimate) -> Seq<u8> {
        seq![
            v.screen_id,
            (v.x % 256) as u8,
            (v.x / 256) as u8,
            (v.y % 256) as u8,
            (v.y / 256) as u8,
            v.img,
        ]
    }

    open spec fn decoded(b: Seq<u8>) -> Option<PainterAnimate> {
        if b.len() == 6 {
            Some(
                PainterAnimate {
                    screen_id: b[0],
                    x: u16_le(b[1], b[2]),
                    y: u16_le(b[3], b[4]),
                    img: b[5],
                },
            )
        } else {
            None
        }
    }

    proof fn lemma_round_trip(v: PainterAnimate) {
        lemma_le16_round_trip(v.x);
        lemma_le16_round_trip(v.y);
    }

    fn write(&self, out: &mut Vec<u8>) {
        out.push(self.screen_id);
        push_u16(out, self.x);
        push_u16(out, self.y);
        out.push(self.img);
        assert(out@ =~= old(out)@ + Self::encoded(self@));
    }

    fn read(b: &[u8]) -> (r: Option<PainterAnimate>) {
        if b.len() != 6 {
            return None;
        }
        Some(PainterAnimate { screen_id: b[0], x: read_u16(b, 1), y: read_u16(b, 3), img: b[5] })
    }
}

/// An animation stored on the device, drawn in two given colours.
#[derive(Debug, Clone, Copy, PartialEq, Eq, Structural)]
pub struct PainterAnimateRecolor {
    pub screen_id: u8,
    pub x: u16,
    pub y: u16,
    pub img: u8,
    pub fg_color: HSVColor,
    pub bg_color: HSVColor,
}

impl View for PainterAnimateRecolor {
    type V = PainterAnimateRecolor;

    open spec fn view(&self) -> PainterAnimateRecolor {
        *self
    }
}

impl XapPayload for PainterAnimateRecolor {
    open spec fn encoded(v: PainterAnimateRecolor) -> Seq<u8> {
        seq![
            v.screen_id,
            (v.x % 256) as u8,
            (v.x / 256) as u8,
            (v.y % 256) as u8,
            (v.y / 256) as u8,
            v.img,
            v.fg_color.hue,
            v.fg_color.sat,
            v.fg_color.val,
            v.bg_color.hue,
            v.bg_color.sat,
            v.bg_color.val,
        ]
    }

    open spec fn decoded(b: Seq<u8>) -> Option<PainterAnimateRecolor> {
        if b.len() == 12 {
            Some(
                PainterAnimateRecolor {
                    screen_id: b[0],
                    x: u16_le(b[1], b[2]),
                    y: u16_le(b[3], b[4]),
                    img: b[5],
                    fg_color: HSVColor { hue: b[6], sat: b[7], val: b[8] },
                    bg_color: HSVColor { hue: b[9], sat: b[10], val: b[11] },
                },
            )
        } else {
            None
        }
    }

    proof fn lemma_round_trip(v: PainterAnimateRecolor) {
        lemma_le16_round_trip(v.x);
        lemma_le16_round_trip(v.y);
    }

    fn write(&self, out: &mut Vec<u8>) {
        out.push(self.screen_id);
        push_u16(out, self.x);
        push_u16(out, self.y);
        out.push(self.img);
        push_color(out, self.fg_color);
        push_color(out, self.bg_color);
        assert(out@ =~= old(out)@ + Self::encoded(self@));
    }

    fn read(b: &[u8]) -> (r: Option<PainterAnimateRecolor>) {
        if b.len() != 12 {
            return None;
        }
        Some(
            PainterAnimateRecolor {
                screen_id: b[0],
                x: read_u16(b, 1),
                y: read_u16(b, 3),
                img: b[5],
                fg_color: read_color(b, 6),
                bg_color: read_color(b, 9),
            },
        )
    }
}

/// Text in one of the device's fonts.
#[derive(Debug, Clone)]
pub struct PainterText {
    pub screen_id: u8,
    pub x: u16,
    pub y: u16,
    pub font: u8,
    pub text: Vec<u8>,
}

/// The mathematical value of a [`PainterText`].
pub struct PainterTextView {
    pub screen_id: u8,
    pub x: u16,
    pub y: u16,
    pub font: u8,
    pub text: Seq<u8>,
}

impl View for PainterText {
    type V = PainterTextView;

    open spec fn view(&self) -> PainterTextView {
        PainterTextView {
            screen_id: self.screen_id,
            x: self.x,
            y: self.y,
            font: self.font,
            text: self.text@,
        }
    }
}

impl XapPayload for PainterText {
    open spec fn encoded(v: PainterTextView) -> Seq<u8> {
        seq![
            v.screen_id,
            (v.x % 256) as u8,
            (v.x / 256) as u8,
            (v.y % 256) as u8,
            (v.y / 256) as u8,
            v.font,
        ] + v.text
    }

    open spec fn decoded(b: Seq<u8>) -> Option<PainterTextView> {
        if b.len() >= 6 {
            Some(
                PainterTextView {
                    screen_id: b[0],
                    x: u16_le(b[1], b[2]),
                    y: u16_le(b[3], b[4]),
                    font: b[5],
                    text: b.subrange(6, b.len() as int),
                },
            )
        } else {
            None
        }
    }

    proof fn lemma_round_trip(v: PainterTextView) {
        lemma_le16_round_trip(v.x);
        lemma_le16_round_trip(v.y);
        let b = Self::encoded(v);
        assert(b.subrange(6, b.len() as int) =~= v.text);
    }

    fn write(&self, out: &mut Vec<u8>) {
        out.push(self.screen_id);
        push_u16(out, self.x);
        push_u16(out, self.y);
        out.push(self.font);
        push_bytes(out, self.text.as_slice());
        assert(out@ =~= old(out)@ + Self::encoded(self@));
    }

    fn read(b: &[u8]) -> (r: Option<PainterText>) {
        if b.len() < 6 {
            return None;
        }
        Some(
            PainterText {
                screen_id: b[0],
                x: read_u16(b, 1),
                y: read_u16(b, 3),
                font: b[5],
                text: copy_range(b, 6, b.len()),
            },
        )
    }
}

/// Text in one of the device's fonts, in two given colours.
#[derive(Debug, Clone)]
pub struct PainterTextRecolor {
    pub screen_id: u8,
    pub x: u16,
    pub y: u16,
    pub font: u8,
    pub fg_color: HSVColor,
    pub bg_color: HSVColor,
    pub text: Vec<u8>,
}

/// The mathematical value of a [`PainterTextRecolor`].
pub struct PainterTextRecolorView {
    pub screen_id: u8,
    pub x: u16,
    pub y: u16,
    pub font: u8,
    pub fg_color: HSVColor,
    pub bg_color: HSVColor,
    pub text: Seq<u8>,
}

impl View for PainterTextRecolor {
    type V = PainterTextRecolorView;

    open spec fn view(&self) -> PainterTextRecolorView {
        PainterTextRecolorView {
            screen_id: self.screen_id,
            x: self.x,
            y: self.y,
            font: self.font,
            fg_color: self.fg_color,
            bg_color: self.bg_color,
            text: self.text@,
        }
    }
}

impl XapPayload for PainterTextRecolor {
    open spec fn encoded(v: PainterTextRecolorView) -> Seq<u8> {
        seq![
            v.screen_id,
            (v.x % 256) as u8,
            (v.x / 256) as u8,
            (v.y % 256) as u8,
            (v.y / 256) as u8,
            v.font,
            v.fg_color.hue,
            v.fg_color.sat,
            v.fg_color.val,
            v.bg_color.hue,
            v.bg_color.sat,
            v.bg_color.val,
        ] + v.text
    }

    open spec fn decoded(b: Seq<u8>) -> Option<PainterTextRecolorView> {
        if b.len() >= 12 {
            Some(
                PainterTextRecolorView {
                    screen_id: b[0],
                    x: u16_le(b[1], b[2]),
                    y: u16_le(b[3], b[4]),
                    font: b[5],
                    fg_color: HSVColor { hue: b[6], sat: b[7], val: b[8] },
                    bg_color: HSVColor { hue: b[9], sat: b[10], val: b[11] },
                    text: b.subrange(12, b.len() as int),
                },
            )
        } else {
            None
        }
    }

    proof fn lemma_round_trip(v: PainterTextRecolorView) {
        lemma_le16_round_trip(v.x);
        lemma_le16_round_trip(v.y);
        let b = Self::encoded(v);
        assert(b.subrange(12, b.len() as int) =~= v.text);
    }

    fn write(&self, out: &mut Vec<u8>) {
        out.push(self.screen_id);
        push_u16(out, self.x);
        push_u16(out, self.y);
        out.push(self.font);
        push_color(out, self.fg_color);
        push_color(out, self.bg_color);
        push_bytes(out, self.text.as_slice());
        assert(out@ =~= old(out)@ + Self::encoded(self@));
    }

    fn read(b: &[u8]) -> (r: Option<PainterTextRecolor>) {
        if b.len() < 12 {
            return None;
        }
        Some(
            PainterTextRecolor {
                screen_id: b[0],
                x: read_u16(b, 1),
                y: read_u16(b, 3),
                font: b[5],
                fg_color: read_color(b, 6),
                bg_color: read_color(b, 9),
                text: copy_range(b, 12, b.len()),
            },
        )
    }
}

/// The window that following pixel data fills.
#[derive(Debug, Clone, Copy, PartialEq, Eq, Structural)]
pub struct PainterViewport {
    pub screen_id: u8,
    pub left: u16,
    pub top: u16,
    pub right: u16,
    pub bottom: u16,
}

impl View for PainterViewport {
    type V = PainterViewport;

    open spec fn view(&self) -> PainterViewport {
        *self
    }
}

impl XapPayload for PainterViewport {
    open spec fn encoded(v: PainterViewport) -> Seq<u8> {
        seq![
            v.screen_id,
            (v.left % 256) as u8,
            (v.left / 256) as u8,
            (v.top % 256) as u8,
            (v.top / 256) as u8,
            (v.right % 256) as u8,
            (v.right / 256) as u8,
            (v.bottom % 256) as u8,
            (v.bottom / 256) as u8,
        ]
    }

    open spec fn decoded(b: Seq<u8>) -> Option<PainterViewport> {
        if b.len() == 9 {
            Some(
                PainterViewport {
                    screen_id: b[0],
                    left: u16_le(b[1], b[2]),
                    top: u16_le(b[3], b[4]),
                    right: u16_le(b[5], b[6]),
                    bottom: u16_le(b[7], b[8]),
                },
            )
        } else {
            None
        }
    }

    proof fn lemma_round_trip(v: PainterViewport) {
        lemma_le16_round_trip(v.left);
        lemma_le16_round_trip(v.top);
        lemma_le16_round_trip(v.right);
        lemma_le16_round_trip(v.bottom);
    }

    fn write(&self, out: &mut Vec<u8>) {
        out.push(self.screen_id);
        push_u16(out, self.left);
        push_u16(out, self.top);
        push_u16(out, self.right);
        push_u16(out, self.bottom);
        assert(out@ =~= old(out)@ + Self::encoded(self@));
    }

    fn read(b: &[u8]) -> (r: Option<PainterViewport>) {
        if b.len() != 9 {
            return None;
        }
        Some(
            PainterViewport {
                screen_id: b[0],
                left: read_u16(b, 1),
                top: read_u16(b, 3),
                right: read_u16(b, 5),
                bottom: read_u16(b, 7),
            },
        )
    }
}

/// Raw pixel data for the current viewport.
#[derive(Debug, Clone)]
pub struct PainterPixdata {
    pub screen_id: u8,
    pub pixels: Vec<u8>,
}

/// The mathematical value of a [`PainterPixdata`].
pub struct PainterPixdataView {
    pub screen_id: u8,
    pub pixels: Seq<u8>,
}

impl View for PainterPixdata {
    type V = PainterPixdataView;

    open spec fn view(&self) -> PainterPixdataView {
        PainterPixdataView {
            screen_id: self.screen_id,
            pixels: self.pixels@,
        }
    }
}

impl XapPayload for PainterPixdata {
    open spec fn encoded(v: PainterPixdataView) -> Seq<u8> {
        seq![v.screen_id] + v.pixels
    }

    open spec fn decoded(b: Seq<u8>) -> Option<PainterPixdataView> {
        if b.len() >= 1 {
            Some(PainterPixdataView { screen_id: b[0], pixels: b.subrange(1, b.len() as int) })
        } else {
            None
        }
    }

    proof fn lemma_round_trip(v: PainterPixdataView) {
        let b = Self::encoded(v);
        assert(b.subrange(1, b.len() as int) =~= v.pixels);
    }

    fn write(&self, out: &mut Vec<u8>) {
        out.push(self.screen_id);
        push_bytes(out, self.pixels.as_slice());
        assert(out@ =~= old(out)@ + Self::encoded(self@));
    }

    fn read(b: &[u8]) -> (r: Option<PainterPixdata>) {
        if b.len() < 1 {
            return None;
        }
        Some(PainterPixdata { screen_id: b[0], pixels: copy_range(b, 1, b.len()) })
    }
}

/// Text whose rendered width is asked for.
#[derive(Debug, Clone)]
pub struct PainterTextWidth {
    pub font: u8,
    pub text: Vec<u8>,
}

/// The mathematical value of a [`PainterTextWidth`].
pub struct PainterTextWidthView {
    pub font: u8,
    pub text: Seq<u8>,
}

impl View for PainterTextWidth {
    type V = PainterTextWidthView;

    open spec fn view(&self) -> PainterTextWidthView {
        PainterTextWidthView {
            font: self.font,
            text: self.text@,
        }
    }
}

impl XapPayload for PainterTextWidth {
    open spec fn encoded(v: PainterTextWidthView) -> Seq<u8> {
        seq![v.font] + v.text
    }

    open spec fn decoded(b: Seq<u8>) -> Option<PainterTextWidthView> {
        if b.len() >= 1 {
            Some(PainterTextWidthView { font: b[0], text: b.subrange(1, b.len() as int) })
        } else {
            None
        }
    }

    proof fn lemma_round_trip(v: PainterTextWidthView) {
        let b = Self::encoded(v);
        assert(b.subrange(1, b.len() as int) =~= v.text);
    }

    fn write(&self, out: &mut Vec<u8>) {
        out.push(self.font);
        push_bytes(out, self.text.as_slice());
        assert(out@ =~= old(out)@ + Self::encoded(self@));
    }

    fn read(b: &[u8]) -> (r: Option<PainterTextWidth>) {
        if b.len() < 1 {
            return None;
        }
        Some(PainterTextWidth { font: b[0], text: copy_range(b, 1, b.len()) })
    }
}

/// Text that scrolls through a window of `n_chars` characters.
#[derive(Debug, Clone)]
pub struct PainterScrollingText {
    pub screen_id: u8,
    pub x: u16,
    pub y: u16,
    pub font: u8,
    pub n_chars: u8,
    pub delay: u16,
    pub text: Vec<u8>,
}

/// The mathematical value of a [`PainterScrollingText`].
pub struct PainterScrollingTextView {
    pub screen_id: u8,
    pub x: u16,
    pub y: u16,
    pub font: u8,
    pub n_chars: u8,
    pub delay: u16,
    pub text: Seq<u8>,
}

impl View for PainterScrollingText {
    type V = PainterScrollingTextView;

    open spec fn view(&self) -> PainterScrollingTextView {
        PainterScrollingTextView {
            screen_id: self.screen_id,
            x: self.x,
            y: self.y,
            font: self.font,
            n_chars: self.n_chars,
            delay: self.delay,
            text: self.text@,
        }
    }
}

impl XapPayload for PainterScrollingText {
    open spec fn encoded(v: PainterScrollingTextView) -> Seq<u8> {
        seq![
            v.screen_id,
            (v.x % 256) as u8,
            (v.x / 256) as u8,
            (v.y % 256) as u8,
            (v.y / 256) as u8,
            v.font,
            v.n_chars,
            (v.delay % 256) as u8,
            (v.delay / 256) as u8,
        ] + v.text
    }

    open spec fn decoded(b: Seq<u8>) -> Option<PainterScrollingTextView> {
        if b.len() >= 9 {
            Some(
                PainterScrollingTextView {
                    screen_id: b[0],
                    x: u16_le(b[1], b[2]),
                    y: u16_le(b[3], b[4]),
                    font: b[5],
                    n_chars: b[6],
                    delay: u16_le(b[7], b[8]),
                    text: b.subrange(9, b.len() as int),
                },
            )
        } else {
            None
        }
    }

    proof fn lemma_round_trip(v: PainterScrollingTextView) {
        lemma_le16_round_trip(v.x);
        lemma_le16_round_trip(v.y);
        lemma_le16_round_trip(v.delay);
        let b = Self::encoded(v);
        assert(b.subrange(9, b.len() as int) =~= v.text);
    }

    fn write(&self, out: &mut Vec<u8>) {
        out.push(self.screen_id);
        push_u16(out, self.x);
        push_u16(out, self.y);
        out.push(self.font);
        out.push(self.n_chars);
        push_u16(out, self.delay);
        push_bytes(out, self.text.as_slice());
        assert(out@ =~= old(out)@ + Self::encoded(self@));
    }

    fn read(b: &[u8]) -> (r: Option<PainterScrollingText>) {
        if b.len() < 9 {
            return None;
        }
        Some(
            PainterScrollingText {
                screen_id: b[0],
                x: read_u16(b, 1),
                y: read_u16(b, 3),
                font: b[5],
                n_chars: b[6],
                delay: read_u16(b, 7),
                text: copy_range(b, 9, b.len()),
            },
        )
    }
}

/// More text for a scrolling text already on screen.
#[derive(Debug, Clone)]
pub struct PainterExtendScrollingText {
    pub token: u8,
    pub text: Vec<u8>,
}

/// The mathematical value of a [`PainterExtendScrollingText`].
pub struct PainterExtendScrollingTextView {
    pub token: u8,
    pub text: Seq<u8>,
}

impl View for PainterExtendScrollingText {
    type V = PainterExtendScrollingTextView;

    open spec fn view(&self) -> PainterExtendScrollingTextView {
        PainterExtendScrollingTextView {
            token: self.token,
            text: self.text@,
        }
    }
}

impl XapPayload for PainterExtendScrollingText {
    open spec fn encoded(v: PainterExtendScrollingTextView) -> Seq<u8> {
        seq![v.token] + v.text
    }

    open spec fn decoded(b: Seq<u8>) -> Option<PainterExtendScrollingTextView> {
        if b.len() >= 1 {
            Some(
                PainterExtendScrollingTextView {
                    token: b[0],
                    text: b.subrange(1, b.len() as int),
                },
            )
        } else {
            None
        }
    }

    proof fn lemma_round_trip(v: PainterExtendScrollingTextView) {
        let b = Self::encoded(v);
        assert(b.subrange(1, b.len() as int) =~= v.text);
    }

    fn write(&self, out: &mut Vec<u8>) {
        out.push(self.token);
        push_bytes(out, self.text.as_slice());
        assert(out@ =~= old(out)@ + Self::encoded(self@));
    }

    fn read(b: &[u8]) -> (r: Option<PainterExtendScrollingText>) {
        if b.len() < 1 {
            return None;
        }
        Some(PainterExtendScrollingText { token: b[0], text: copy_range(b, 1, b.len()) })
    }
}

/// Clears a screen.
#[derive(Debug, Clone, Copy, PartialEq, Eq, Structural)]
pub struct PainterDrawClear(pub u8);

impl View for PainterDrawClear {
    type V = u8;

    open spec fn view(&self) -> u8 {
        self.0
    }
}

impl XapPayload for PainterDrawClear {
    open spec fn encoded(v: u8) -> Seq<u8> {
        u8::encoded(v)
    }

    open spec fn decoded(b: Seq<u8>) -> Option<u8> {
        u8::decoded(b)
    }

    proof fn lemma_round_trip(v: u8) {
        u8::lemma_round_trip(v);
    }

    fn write(&self, out: &mut Vec<u8>) {
        self.0.write(out);
    }

    fn read(b: &[u8]) -> (r: Option<PainterDrawClear>) {
        match u8::read(b) {
            Some(p) => Some(PainterDrawClear(p)),
            None => None,
        }
    }
}

impl XapRequest for PainterDrawClear {
    type Response = ();

    open spec fn route() -> Seq<u8> {
        seq![0x3u8, 0x2u8, 0x1u8]
    }

    fn id() -> (r: &'static [u8]) {
        &[0x3, 0x2, 0x1]
    }

    open spec fn secure() -> bool {
        false
    }

    fn is_secure() -> (r: bool) {
        false
    }
}

/// Draws a pixel.
#[derive(Debug, Clone, Copy, PartialEq, Eq, Structural)]
pub struct PainterDrawPixel(pub PainterPixel);

impl View for PainterDrawPixel {
    type V = PainterPixel;

    open spec fn view(&self) -> PainterPixel {
        self.0
    }
}

impl XapPayload for PainterDrawPixel {
    open spec fn encoded(v: PainterPixel) -> Seq<u8> {
        PainterPixel::encoded(v)
    }

    open spec fn decoded(b: Seq<u8>) -> Option<PainterPixel> {
        PainterPixel::decoded(b)
    }

    proof fn lemma_round_trip(v: PainterPixel) {
        PainterPixel::lemma_round_trip(v);
    }

    fn write(&self, out: &mut Vec<u8>) {
        self.0.write(out);
    }

    fn read(b: &[u8]) -> (r: Option<PainterDrawPixel>) {
        match PainterPixel::read(b) {
            Some(p) => Some(PainterDrawPixel(p)),
            None => None,
        }
    }
}

impl XapRequest for PainterDrawPixel {
    type Response = ();

    open spec fn route() -> Seq<u8> {
        seq![0x3u8, 0x2u8, 0x2u8]
    }

    fn id() -> (r: &'static [u8]) {
        &[0x3, 0x2, 0x2]
    }

    open spec fn secure() -> bool {
        false
    }

    fn is_secure() -> (r: bool) {
        false
    }
}

/// Draws a line.
#[derive(Debug, Clone, Copy, PartialEq, Eq, Structural)]
pub struct PainterDrawLine(pub PainterLine);

impl View for PainterDrawLine {
    type V = PainterLine;

    open spec fn view(&self) -> PainterLine {
        self.0
    }
}

impl XapPayload for PainterDrawLine {
    open spec fn encoded(v: PainterLine) -> Seq<u8> {
        PainterLine::encoded(v)
    }

    open spec fn decoded(b: Seq<u8>) -> Option<PainterLine> {
        PainterLine::decoded(b)
    }

    proof fn lemma_round_trip(v: PainterLine) {
        PainterLine::lemma_round_trip(v);
    }

    fn write(&self, out: &mut Vec<u8>) {
        self.0.write(out);
    }

    fn read(b: &[u8]) -> (r: Option<PainterDrawLine>) {
        match PainterLine::read(b) {
            Some(p) => Some(PainterDrawLine(p)),
            None => None,
        }
    }
}

impl XapRequest for PainterDrawLine {
    type Response = ();

    open spec fn route() -> Seq<u8> {
        seq![0x3u8, 0x2u8, 0x3u8]
    }

    fn id() -> (r: &'static [u8]) {
        &[0x3, 0x2, 0x3]
    }

    open spec fn secure() -> bool {
        false
    }

    fn is_secure() -> (r: bool) {
        false
    }
}

/// Draws a rectangle.
#[derive(Debug, Clone, Copy, PartialEq, Eq, Structural)]
pub struct PainterDrawRect(pub PainterRect);

impl View for PainterDrawRect {
    type V = PainterRect;

    open spec fn view(&self) -> PainterRect {
        self.0
    }
}

impl XapPayload for PainterDrawRect {
    open spec fn encoded(v: PainterRect) -> Seq<u8> {
        PainterRect::encoded(v)
    }

    open spec fn decoded(b: Seq<u8>) -> Option<PainterRect> {
        PainterRect::decoded(b)
    }

    proof fn lemma_round_trip(v: PainterRect) {
        PainterRect::lemma_round_trip(v);
    }

    fn write(&self, out: &mut Vec<u8>) {
        self.0.write(out);
    }

    fn read(b: &[u8]) -> (r: Option<PainterDrawRect>) {
        match PainterRect::read(b) {
            Some(p) => Some(PainterDrawRect(p)),
            None => None,
        }
    }
}

impl XapRequest for PainterDrawRect {
    type Response = ();

    open spec fn route() -> Seq<u8> {
        seq![0x3u8, 0x2u8, 0x4u8]
    }

    fn id() -> (r: &'static [u8]) {
        &[0x3, 0x2, 0x4]
    }

    open spec fn secure() -> bool {
        false
    }

    fn is_secure() -> (r: bool) {
        false
    }
}

/// Draws a circle.
#[derive(Debug, Clone, Copy, PartialEq, Eq, Structural)]
pub struct PainterDrawCircle(pub PainterCircle);

impl View for PainterDrawCircle {
    type V = PainterCircle;

    open spec fn view(&self) -> PainterCircle {
        self.0
    }
}

impl XapPayload for PainterDrawCircle {
    open spec fn encoded(v: PainterCircle) -> Seq<u8> {
        PainterCircle::encoded(v)
    }

    open spec fn decoded(b: Seq<u8>) -> Option<PainterCircle> {
        PainterCircle::decoded(b)
    }

    proof fn lemma_round_trip(v: PainterCircle) {
        PainterCircle::lemma_round_trip(v);
    }

    fn write(&self, out: &mut Vec<u8>) {
        self.0.write(out);
    }

    fn read(b: &[u8]) -> (r: Option<PainterDrawCircle>) {
        match PainterCircle::read(b) {
            Some(p) => Some(PainterDrawCircle(p)),
            None => None,
        }
    }
}

impl XapRequest for PainterDrawCircle {
    type Response = ();

    open spec fn route() -> Seq<u8> {
        seq![0x3u8, 0x2u8, 0x5u8]
    }

    fn id() -> (r: &'static [u8]) {
        &[0x3, 0x2, 0x5]
    }

    open spec fn secure() -> bool {
        false
    }

    fn is_secure() -> (r: bool) {
        false
    }
}

/// Draws an ellipse.
#[derive(Debug, Clone, Copy, PartialEq, Eq, Structural)]
pub struct PainterDrawEllipse(pub PainterEllipse);

impl View for PainterDrawEllipse {
    type V = PainterEllipse;

    open spec fn view(&self) -> PainterEllipse {
        self.0
    }
}

impl XapPayload for PainterDrawEllipse {
    open spec fn encoded(v: PainterEllipse) -> Seq<u8> {
        PainterEllipse::encoded(v)
    }

    open spec fn decoded(b: Seq<u8>) -> Option<PainterEllipse> {
        PainterEllipse::decoded(b)
    }

    proof fn lemma_round_trip(v: PainterEllipse) {
        PainterEllipse::lemma_round_trip(v);
    }

    fn write(&self, out: &mut Vec<u8>) {
        self.0.write(out);
    }

    fn read(b: &[u8]) -> (r: Option<PainterDrawEllipse>) {
        match PainterEllipse::read(b) {
            Some(p) => Some(PainterDrawEllipse(p)),
            None => None,
        }
    }
}

impl XapRequest for PainterDrawEllipse {
    type Response = ();

    open spec fn route() -> Seq<u8> {
        seq![0x3u8, 0x2u8, 0x6u8]
    }

    fn id() -> (r: &'static [u8]) {
        &[0x3, 0x2, 0x6]
    }

    open spec fn secure() -> bool {
        false
    }

    fn is_secure() -> (r: bool) {
        false
    }
}

/// Draws an image.
#[derive(Debug, Clone, Copy, PartialEq, Eq, Structural)]
pub struct PainterDrawImage(pub PainterImage);

impl View for PainterDrawImage {
    type V = PainterImage;

    open spec fn view(&self) -> PainterImage {
        self.0
    }
}

impl XapPayload for PainterDrawImage {
    open spec fn encoded(v: PainterImage) -> Seq<u8> {
        PainterImage::encoded(v)
    }

    open spec fn decoded(b: Seq<u8>) -> Option<PainterImage> {
        PainterImage::decoded(b)
    }

    proof fn lemma_round_trip(v: PainterImage) {
        PainterImage::lemma_round_trip(v);
    }

    fn write(&self, out: &mut Vec<u8>) {
        self.0.write(out);
    }

    fn read(b: &[u8]) -> (r: Option<PainterDrawImage>) {
        match PainterImage::read(b) {
            Some(p) => Some(PainterDrawImage(p)),
            None => None,
        }
    }
}

impl XapRequest for PainterDrawImage {
    type Response = ();

    open spec fn route() -> Seq<u8> {
        seq![0x3u8, 0x2u8, 0x7u8]
    }

    fn id() -> (r: &'static [u8]) {
        &[0x3, 0x2, 0x7]
    }

    open spec fn secure() -> bool {
        false
    }

    fn is_secure() -> (r: bool) {
        false
    }
}

/// Draws an image in given colours.
#[derive(Debug, Clone, Copy, PartialEq, Eq, Structural)]
pub struct PainterDrawImageRecolor(pub PainterImageRecolor);

impl View for PainterDrawImageRecolor {
    type V = PainterImageRecolor;

    open spec fn view(&self) -> PainterImageRecolor {
        self.0
    }
}

impl XapPayload for PainterDrawImageRecolor {
    open spec fn encoded(v: PainterImageRecolor) -> Seq<u8> {
        PainterImageRecolor::encoded(v)
    }

    open spec fn decoded(b: Seq<u8>) -> Option<PainterImageRecolor> {
        PainterImageRecolor::decoded(b)
    }

    proof fn lemma_round_trip(v: PainterImageRecolor) {
        PainterImageRecolor::lemma_round_trip(v);
    }

    fn write(&self, out: &mut Vec<u8>) {
        self.0.write(out);
    }

    fn read(b: &[u8]) -> (r: Option<PainterDrawImageRecolor>) {
        match PainterImageRecolor::read(b) {
            Some(p) => Some(PainterDrawImageRecolor(p)),
            None => None,
        }
    }
}

impl XapRequest for PainterDrawImageRecolor {
    type Response = ();

    open spec fn route() -> Seq<u8> {
        seq![0x3u8, 0x2u8, 0x8u8]
    }

    fn id() -> (r: &'static [u8]) {
        &[0x3, 0x2, 0x8]
    }

    open spec fn secure() -> bool {
        false
    }

    fn is_secure() -> (r: bool) {
        false
    }
}

/// Starts an animation.
#[derive(Debug, Clone, Copy, PartialEq, Eq, Structural)]
pub struct PainterDrawAnimate(pub PainterAnimate);

impl View for PainterDrawAnimate {
    type V = PainterAnimate;

    open spec fn view(&self) -> PainterAnimate {
        self.0
    }
}

impl XapPayload for PainterDrawAnimate {
    open spec fn encoded(v: PainterAnimate) -> Seq<u8> {
        PainterAnimate::encoded(v)
    }

    open spec fn decoded(b: Seq<u8>) -> Option<PainterAnimate> {
        PainterAnimate::decoded(b)
    }

    proof fn lemma_round_trip(v: PainterAnimate) {
        PainterAnimate::lemma_round_trip(v);
    }

    fn write(&self, out: &mut Vec<u8>) {
        self.0.write(out);
    }

    fn read(b: &[u8]) -> (r: Option<PainterDrawAnimate>) {
        match PainterAnimate::read(b) {
            Some(p) => Some(PainterDrawAnimate(p)),
            None => None,
        }
    }
}

impl XapRequest for PainterDrawAnimate {
    type Response = ();

    open spec fn route() -> Seq<u8> {
        seq![0x3u8, 0x2u8, 0x9u8]
    }

    fn id() -> (r: &'static [u8]) {
        &[0x3, 0x2, 0x9]
    }

    open spec fn secure() -> bool {
        false
    }

    fn is_secure() -> (r: bool) {
        false
    }
}

/// Starts an animation in given colours.
#[derive(Debug, Clone, Copy, PartialEq, Eq, Structural)]
pub struct PainterDrawAnimateRecolor(pub PainterAnimateRecolor);

impl View for PainterDrawAnimateRecolor {
    type V = PainterAnimateRecolor;

    open spec fn view(&self) -> PainterAnimateRecolor {
        self.0
    }
}

impl XapPayload for PainterDrawAnimateRecolor {
    open spec fn encoded(v: PainterAnimateRecolor) -> Seq<u8> {
        PainterAnimateRecolor::encoded(v)
    }

    open spec fn decoded(b: Seq<u8>) -> Option<PainterAnimateRecolor> {
        PainterAnimateRecolor::decoded(b)
    }

    proof fn lemma_round_trip(v: PainterAnimateRecolor) {
        PainterAnimateRecolor::lemma_round_trip(v);
    }

    fn write(&self, out: &mut Vec<u8>) {
        self.0.write(out);
    }

    fn read(b: &[u8]) -> (r: Option<PainterDrawAnimateRecolor>) {
        match PainterAnimateRecolor::read(b) {
            Some(p) => Some(PainterDrawAnimateRecolor(p)),
            None => None,
        }
    }
}

impl XapRequest for PainterDrawAnimateRecolor {
    type Response = ();

    open spec fn route() -> Seq<u8> {
        seq![0x3u8, 0x2u8, 0xAu8]
    }

    fn id() -> (r: &'static [u8]) {
        &[0x3, 0x2, 0xA]
    }

    open spec fn secure() -> bool {
        false
    }

    fn is_secure() -> (r: bool) {
        false
    }
}

/// Draws text.
#[derive(Debug, Clone)]
pub struct PainterDrawText(pub PainterText);

impl View for PainterDrawText {
    type V = PainterTextView;

    open spec fn view(&self) -> PainterTextView {
        self.0@
    }
}

impl XapPayload for PainterDrawText {
    open spec fn encoded(v: PainterTextView) -> Seq<u8> {
        PainterText::encoded(v)
    }

    open spec fn decoded(b: Seq<u8>) -> Option<PainterTextView> {
        PainterText::decoded(b)
    }

    proof fn lemma_round_trip(v: PainterTextView) {
        PainterText::lemma_round_trip(v);
    }

    fn write(&self, out: &mut Vec<u8>) {
        self.0.write(out);
    }

    fn read(b: &[u8]) -> (r: Option<PainterDrawText>) {
        match PainterText::read(b) {
            Some(p) => Some(PainterDrawText(p)),
            None => None,
        }
    }
}

impl XapRequest for PainterDrawText {
    type Response = ();

    open spec fn route() -> Seq<u8> {
        seq![0x3u8, 0x2u8, 0xBu8]
    }

    fn id() -> (r: &'static [u8]) {
        &[0x3, 0x2, 0xB]
    }

    open spec fn secure() -> bool {
        false
    }

    fn is_secure() -> (r: bool) {
        false
    }
}

/// Draws text in given colours.
#[derive(Debug, Clone)]
pub struct PainterDrawTextRecolor(pub PainterTextRecolor);

impl View for PainterDrawTextRecolor {
    type V = PainterTextRecolorView;

    open spec fn view(&self) -> PainterTextRecolorView {
        self.0@
    }
}

impl XapPayload for PainterDrawTextRecolor {
    open spec fn encoded(v: PainterTextRecolorView) -> Seq<u8> {
        PainterTextRecolor::encoded(v)
    }

    open spec fn decoded(b: Seq<u8>) -> Option<PainterTextRecolorView> {
        PainterTextRecolor::decoded(b)
    }

    proof fn lemma_round_trip(v: PainterTextRecolorView) {
        PainterTextRecolor::lemma_round_trip(v);
    }

    fn write(&self, out: &mut Vec<u8>) {
        self.0.write(out);
    }

    fn read(b: &[u8]) -> (r: Option<PainterDrawTextRecolor>) {
        match PainterTextRecolor::read(b) {
            Some(p) => Some(PainterDrawTextRecolor(p)),
            None => None,
        }
    }
}

impl XapRequest for PainterDrawTextRecolor {
    type Response = ();

    open spec fn route() -> Seq<u8> {
        seq![0x3u8, 0x2u8, 0xCu8]
    }

    fn id() -> (r: &'static [u8]) {
        &[0x3, 0x2, 0xC]
    }

    open spec fn secure() -> bool {
        false
    }

    fn is_secure() -> (r: bool) {
        false
    }
}

/// Asks for the geometry of a screen.
#[derive(Debug, Clone, Copy, PartialEq, Eq, Structural)]
pub struct PainterGetGeometry(pub u8);

impl View for PainterGetGeometry {
    type V = u8;

    open spec fn view(&self) -> u8 {
        self.0
    }
}

impl XapPayload for PainterGetGeometry {
    open spec fn encoded(v: u8) -> Seq<u8> {
        u8::encoded(v)
    }

    open spec fn decoded(b: Seq<u8>) -> Option<u8> {
        u8::decoded(b)
    }

    proof fn lemma_round_trip(v: u8) {
        u8::lemma_round_trip(v);
    }

    fn write(&self, out: &mut Vec<u8>) {
        self.0.write(out);
    }

    fn read(b: &[u8]) -> (r: Option<PainterGetGeometry>) {
        match u8::read(b) {
            Some(p) => Some(PainterGetGeometry(p)),
            None => None,
        }
    }
}

impl XapRequest for PainterGetGeometry {
    type Response = PainterGeometry;

    open spec fn route() -> Seq<u8> {
        seq![0x3u8, 0x2u8, 0xDu8]
    }

    fn id() -> (r: &'static [u8]) {
        &[0x3, 0x2, 0xD]
    }

    open spec fn secure() -> bool {
        false
    }

    fn is_secure() -> (r: bool) {
        false
    }
}

/// Sets the viewport for pixel data.
#[derive(Debug, Clone, Copy, PartialEq, Eq, Structural)]
pub struct PainterSetViewport(pub PainterViewport);

impl View for PainterSetViewport {
    type V = PainterViewport;

    open spec fn view(&self) -> PainterViewport {
        self.0
    }
}

impl XapPayload for PainterSetViewport {
    open spec fn encoded(v: PainterViewport) -> Seq<u8> {
        PainterViewport::encoded(v)
    }

    open spec fn decoded(b: Seq<u8>) -> Option<PainterViewport> {
        PainterViewport::decoded(b)
    }

    proof fn lemma_round_trip(v: PainterViewport) {
        PainterViewport::lemma_round_trip(v);
    }

    fn write(&self, out: &mut Vec<u8>) {
        self.0.write(out);
    }

    fn read(b: &[u8]) -> (r: Option<PainterSetViewport>) {
        match PainterViewport::read(b) {
            Some(p) => Some(PainterSetViewport(p)),
            None => None,
        }
    }
}

impl XapRequest for PainterSetViewport {
    type Response = ();

    open spec fn route() -> Seq<u8> {
        seq![0x3u8, 0x2u8, 0xFu8]
    }

    fn id() -> (r: &'static [u8]) {
        &[0x3, 0x2, 0xF]
    }

    open spec fn secure() -> bool {
        false
    }

    fn is_secure() -> (r: bool) {
        false
    }
}

/// Streams pixel data into the viewport.
#[derive(Debug, Clone)]
pub struct PainterDrawPixdata(pub PainterPixdata);

impl View for PainterDrawPixdata {
    type V = PainterPixdataView;

    open spec fn view(&self) -> PainterPixdataView {
        self.0@
    }
}

impl XapPayload for PainterDrawPixdata {
    open spec fn encoded(v: PainterPixdataView) -> Seq<u8> {
        PainterPixdata::encoded(v)
    }

    open spec fn decoded(b: Seq<u8>) -> Option<PainterPixdataView> {
        PainterPixdata::decoded(b)
    }

    proof fn lemma_round_trip(v: PainterPixdataView) {
        PainterPixdata::lemma_round_trip(v);
    }

    fn write(&self, out: &mut Vec<u8>) {
        self.0.write(out);
    }

    fn read(b: &[u8]) -> (r: Option<PainterDrawPixdata>) {
        match PainterPixdata::read(b) {
            Some(p) => Some(PainterDrawPixdata(p)),
            None => None,
        }
    }
}

impl XapRequest for PainterDrawPixdata {
    type Response = ();

    open spec fn route() -> Seq<u8> {
        seq![0x3u8, 0x2u8, 0x10u8]
    }

    fn id() -> (r: &'static [u8]) {
        &[0x3, 0x2, 0x10]
    }

    open spec fn secure() -> bool {
        false
    }

    fn is_secure() -> (r: bool) {
        false
    }
}

/// Draws text on the off-screen surface.
#[derive(Debug, Clone)]
pub struct PainterSurfaceDrawText(pub PainterText);

impl View for PainterSurfaceDrawText {
    type V = PainterTextView;

    open spec fn view(&self) -> PainterTextView {
        self.0@
    }
}

impl XapPayload for PainterSurfaceDrawText {
    open spec fn encoded(v: PainterTextView) -> Seq<u8> {
        PainterText::encoded(v)
    }

    open spec fn decoded(b: Seq<u8>) -> Option<PainterTextView> {
        PainterText::decoded(b)
    }

    proof fn lemma_round_trip(v: PainterTextView) {
        PainterText::lemma_round_trip(v);
    }

    fn write(&self, out: &mut Vec<u8>) {
        self.0.write(out);
    }

    fn read(b: &[u8]) -> (r: Option<PainterSurfaceDrawText>) {
        match PainterText::read(b) {
            Some(p) => Some(PainterSurfaceDrawText(p)),
            None => None,
        }
    }
}

impl XapRequest for PainterSurfaceDrawText {
    type Response = ();

    open spec fn route() -> Seq<u8> {
        seq![0x3u8, 0x2u8, 0x11u8]
    }

    fn id() -> (r: &'static [u8]) {
        &[0x3, 0x2, 0x11]
    }

    open spec fn secure() -> bool {
        false
    }

    fn is_secure() -> (r: bool) {
        false
    }
}

/// Asks for the rendered width of a text.
#[derive(Debug, Clone)]
pub struct PainterGetTextWidth(pub PainterTextWidth);

impl View for PainterGetTextWidth {
    type V = PainterTextWidthView;

    open spec fn view(&self) -> PainterTextWidthView {
        self.0@
    }
}

impl XapPayload for PainterGetTextWidth {
    open spec fn encoded(v: PainterTextWidthView) -> Seq<u8> {
        PainterTextWidth::encoded(v)
    }

    open spec fn decoded(b: Seq<u8>) -> Option<PainterTextWidthView> {
        PainterTextWidth::decoded(b)
    }

    proof fn lemma_round_trip(v: PainterTextWidthView) {
        PainterTextWidth::lemma_round_trip(v);
    }

    fn write(&self, out: &mut Vec<u8>) {
        self.0.write(out);
    }

    fn read(b: &[u8]) -> (r: Option<PainterGetTextWidth>) {
        match PainterTextWidth::read(b) {
            Some(p) => Some(PainterGetTextWidth(p)),
            None => None,
        }
    }
}

impl XapRequest for PainterGetTextWidth {
    type Response = i16;

    open spec fn route() -> Seq<u8> {
        seq![0x3u8, 0x2u8, 0x12u8]
    }

    fn id() -> (r: &'static [u8]) {
        &[0x3, 0x2, 0x12]
    }

    open spec fn secure() -> bool {
        false
    }

    fn is_secure() -> (r: bool) {
        false
    }
}

/// Starts a scrolling text; the answer is its token.
#[derive(Debug, Clone)]
pub struct PainterDrawScrollingText(pub PainterScrollingText);

impl View for PainterDrawScrollingText {
    type V = PainterScrollingTextView;

    open spec fn view(&self) -> PainterScrollingTextView {
        self.0@
    }
}

impl XapPayload for PainterDrawScrollingText {
    open spec fn encoded(v: PainterScrollingTextView) -> Seq<u8> {
        PainterScrollingText::encoded(v)
    }

    open spec fn decoded(b: Seq<u8>) -> Option<PainterScrollingTextView> {
        PainterScrollingText::decoded(b)
    }

    proof fn lemma_round_trip(v: PainterScrollingTextView) {
        PainterScrollingText::lemma_round_trip(v);
    }

    fn write(&self, out: &mut Vec<u8>) {
        self.0.write(out);
    }

    fn read(b: &[u8]) -> (r: Option<PainterDrawScrollingText>) {
        match PainterScrollingText::read(b) {
            Some(p) => Some(PainterDrawScrollingText(p)),
            None => None,
        }
    }
}

impl XapRequest for PainterDrawScrollingText {
    type Response = u8;

    open spec fn route() -> Seq<u8> {
        seq![0x3u8, 0x2u8, 0x13u8]
    }

    fn id() -> (r: &'static [u8]) {
        &[0x3, 0x2, 0x13]
    }

    open spec fn secure() -> bool {
        false
    }

    fn is_secure() -> (r: bool) {
        false
    }
}

/// Stops the scrolling text of the given token.
#[derive(Debug, Clone, Copy, PartialEq, Eq, Structural)]
pub struct PainterDrawStopScrollingText(pub u8);

impl View for PainterDrawStopScrollingText {
    type V = u8;

    open spec fn view(&self) -> u8 {
        self.0
    }
}

impl XapPayload for PainterDrawStopScrollingText {
    open spec fn encoded(v: u8) -> Seq<u8> {
        u8::encoded(v)
    }

    open spec fn decoded(b: Seq<u8>) -> Option<u8> {
        u8::decoded(b)
    }

    proof fn lemma_round_trip(v: u8) {
        u8::lemma_round_trip(v);
    }

    fn write(&self, out: &mut Vec<u8>) {
        self.0.write(out);
    }

    fn read(b: &[u8]) -> (r: Option<PainterDrawStopScrollingText>) {
        match u8::read(b) {
            Some(p) => Some(PainterDrawStopScrollingText(p)),
            None => None,
        }
    }
}

impl XapRequest for PainterDrawStopScrollingText {
    type Response = ();

    open spec fn route() -> Seq<u8> {
        seq![0x3u8, 0x2u8, 0x14u8]
    }

    fn id() -> (r: &'static [u8]) {
        &[0x3, 0x2, 0x14]
    }

    open spec fn secure() -> bool {
        false
    }

    fn is_secure() -> (r: bool) {
        false
    }
}

/// Appends text to a scrolling text.
#[derive(Debug, Clone)]
pub struct PainterDrawExtendScrollingText(pub PainterExtendScrollingText);

impl View for PainterDrawExtendScrollingText {
    type V = PainterExtendScrollingTextView;

    open spec fn view(&self) -> PainterExtendScrollingTextView {
        self.0@
    }
}

impl XapPayload for PainterDrawExtendScrollingText {
    open spec fn encoded(v: PainterExtendScrollingTextView) -> Seq<u8> {
        PainterExtendScrollingText::encoded(v)
    }

    open spec fn decoded(b: Seq<u8>) -> Option<PainterExtendScrollingTextView> {
        PainterExtendScrollingText::decoded(b)
    }

    proof fn lemma_round_trip(v: PainterExtendScrollingTextView) {
        PainterExtendScrollingText::lemma_round_trip(v);
    }

    fn write(&self, out: &mut Vec<u8>) {
        self.0.write(out);
    }

    fn read(b: &[u8]) -> (r: Option<PainterDrawExtendScrollingText>) {
        match PainterExtendScrollingText::read(b) {
            Some(p) => Some(PainterDrawExtendScrollingText(p)),
            None => None,
        }
    }
}

impl XapRequest for PainterDrawExtendScrollingText {
    type Response = ();

    open spec fn route() -> Seq<u8> {
        seq![0x3u8, 0x2u8, 0x15u8]
    }

    fn id() -> (r: &'static [u8]) {
        &[0x3, 0x2, 0x15]
    }

    open spec fn secure() -> bool {
        false
    }

    fn is_secure() -> (r: bool) {
        false
    }
}

} // verus!
