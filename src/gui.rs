use vstd::prelude::*;

use crate::broadcast::ScreenPressed;

verus! {

/// Size of the images stored on the devices, in pixels.
pub const IMAGE_SIZE: u16 = 48;

/// How far outside its image a press still hits a button.
pub const BUTTON_TOLERANCE: u16 = 15;

/// Side of the square in which a press hits a button, tolerance included.
pub const BUTTON_SIZE: u16 = 78;

/// A persistent element of a screen that reacts to presses.
#[derive(Debug, Clone, Copy, PartialEq, Eq, Structural)]
pub struct Button {
    pub x: u16,
    pub y: u16,
    pub img: u8,
}

/// The axis along which a slider's value runs.
#[derive(Debug, Clone, Copy, PartialEq, Eq, Structural)]
pub enum SliderDirection {
    Vertical,
    Horizontal,
}

/// An area of a screen whose value follows one coordinate of a press.
#[derive(Debug, Clone, Copy, PartialEq, Eq, Structural)]
pub struct Slider {
    pub direction: SliderDirection,
    pub start: u16,
    pub size: u16,
    pub x: u16,
    pub y: u16,
}

/// A screen with its id and the elements drawn on it.
#[derive(Debug, Clone)]
pub struct Screen {
    pub id: u8,
    pub buttons: Vec<Button>,
    pub sliders: Vec<Slider>,
}

/// Whether a press at `(x, y)` hits a button.
pub open spec fn hits_button(b: Button, x: u16, y: u16) -> bool {
    &&& b.x - BUTTON_TOLERANCE <= x <= b.x + BUTTON_SIZE
    &&& b.y - BUTTON_TOLERANCE <= y <= b.y + BUTTON_SIZE
}

/// Whether a press at `(x, y)` hits a slider: along `x` for a vertical
/// slider, along `y` for a horizontal one.
pub open spec fn hits_slider(s: Slider, x: u16, y: u16) -> bool {
    match s.direction {
        SliderDirection::Vertical => s.start <= x <= s.start + s.size,
        SliderDirection::Horizontal => s.start <= y <= s.start + s.size,
    }
}

/// Whether `i` is the first position of `s` whose element satisfies `p`.
pub open spec fn first_match<A>(s: Seq<A>, p: spec_fn(A) -> bool, i: int) -> bool {
    &&& 0 <= i < s.len()
    &&& p(s[i])
    &&& forall|j: int| 0 <= j < i ==> !p(s[j])
}

impl Slider {
    /// The coordinate of a press that sets the slider's value.
    pub fn coord(&self, x: u16, y: u16) -> (r: u16)
        ensures
            r == (match self.direction {
                SliderDirection::Vertical => y,
                SliderDirection::Horizontal => x,
            }),
    {
        match self.direction {
            SliderDirection::Vertical => y,
            SliderDirection::Horizontal => x,
        }
    }
}

impl Screen {
    /// The first button that a press at `(x, y)` hits.
    pub fn get_button(&self, x: u16, y: u16) -> (r: Option<usize>)
        ensures
            r matches Some(i) ==> first_match(self.buttons@, |b: Button| hits_button(b, x, y), i as int),
            r is None ==> forall|i: int| 0 <= i < self.buttons@.len() ==> !hits_button(self.buttons@[i], x, y),
    {
        let mut i: usize = 0;
        while i < self.buttons.len()
            invariant
                i <= self.buttons@.len(),
                forall|j: int| 0 <= j < i ==> !hits_button(self.buttons@[j], x, y),
            decreases self.buttons@.len() - i,
        {
            let b = self.buttons[i];
            let x_lo = b.x as i32 - BUTTON_TOLERANCE as i32;
            let y_lo = b.y as i32 - BUTTON_TOLERANCE as i32;
            if x_lo <= x as i32 && x as i32 <= b.x as i32 + BUTTON_SIZE as i32 && y_lo <= y as i32
                && y as i32 <= b.y as i32 + BUTTON_SIZE as i32 {
                return Some(i);
            }
            i = i + 1;
        }
        None
    }

    /// The button and the slider that a press hits, for a press on this
    /// screen; a press on another screen hits nothing here.
    pub fn handle(&self, msg: &ScreenPressed) -> (r: (Option<usize>, Option<usize>))
        ensures
            msg.screen_id != self.id ==> r == (None::<usize>, None::<usize>),
            msg.screen_id == self.id ==> {
                &&& (r.0 matches Some(i) ==> first_match(
                    self.buttons@,
                    |b: Button| hits_button(b, msg.x, msg.y),
                    i as int,
                ))
                &&& (r.0 is None ==> forall|i: int|
                    0 <= i < self.buttons@.len() ==> !hits_button(self.buttons@[i], msg.x, msg.y))
                &&& (r.1 matches Some(i) ==> first_match(
                    self.sliders@,
                    |s: Slider| hits_slider(s, msg.x, msg.y),
                    i as int,
                ))
                &&& (r.1 is None ==> forall|i: int|
                    0 <= i < self.sliders@.len() ==> !hits_slider(self.sliders@[i], msg.x, msg.y))
            },
    {
        if msg.screen_id != self.id {
            return (None, None);
        }
        (self.get_button(msg.x, msg.y), self.get_slider(msg.x, msg.y))
    }

    /// The first slider that a press at `(x, y)` hits.
    pub fn get_slider(&self, x: u16, y: u16) -> (r: Option<usize>)
        ensures
            r matches Some(i) ==> first_match(self.sliders@, |s: Slider| hits_slider(s, x, y), i as int),
            r is None ==> forall|i: int| 0 <= i < self.sliders@.len() ==> !hits_slider(self.sliders@[i], x, y),
    {
        let mut i: usize = 0;
        while i < self.sliders.len()
            invariant
                i <= self.sliders@.len(),
                forall|j: int| 0 <= j < i ==> !hits_slider(self.sliders@[j], x, y),
            decreases self.sliders@.len() - i,
        {
            let s = self.sliders[i];
            let along = match s.direction {
                SliderDirection::Vertical => x,
                SliderDirection::Horizontal => y,
            };
            if s.start as u32 <= along as u32 && along as u32 <= s.start as u32 + s.size as u32 {
                return Some(i);
            }
            i = i + 1;
        }
        None
    }
}

/// The image shown for a weather code of the forecast.
pub open spec fn forecast_image(code: u8) -> Option<u8> {
    if code == 0 {
        Some(9)
    } else if 1 <= code <= 3 {
        Some(7)
    } else if 61 <= code <= 65 || 80 <= code <= 82 {
        Some(8)
    } else {
        None
    }
}

/// The image for a forecast: sun for clear sky, clouds, rain; none for
/// other weather or no forecast.
pub fn forecast_to_img_id(forecast: Option<u8>) -> (r: Option<u8>)
    ensures
        r == (match forecast {
            Some(code) => forecast_image(code),
            None => None,
        }),
{
    match forecast {
        Some(0) => Some(9),
        Some(1..=3) => Some(7),
        Some(61..=65) => Some(8),
        Some(80..=82) => Some(8),
        _ => None,
    }
}

/// The rendered width of a text from the device's answer: a failed query
/// or a negative width means the text cannot be drawn, reported as the
/// largest width.
pub fn text_width(answer: Option<i16>) -> (r: u16)
    ensures
        r == (match answer {
            Some(w) => if w < 0 {
                u16::MAX
            } else {
                w as u16
            },
            None => u16::MAX,
        }),
{
    match answer {
        Some(w) => if w < 0 {
            u16::MAX
        } else {
            w as u16
        },
        None => u16::MAX,
    }
}

/// Where a text of width `width` starts so that it is centred on `x`, or
/// `None` where it would not fit on a screen `screen_width` wide.
pub fn centered_x(x: u16, width: u16, screen_width: u16) -> (r: Option<u16>)
    ensures
        r is Some <==> x + width / 2 <= screen_width && width / 2 <= x,
        r matches Some(left) ==> left == x - width / 2,
{
    let half = width / 2;
    if x as u32 + half as u32 > screen_width as u32 || half > x {
        None
    } else {
        Some(x - half)
    }
}

/// How many characters a scrolling text shows at once on a screen and font,
/// for the combinations the screens are configured for.
pub fn scrolling_window(screen_id: u8, font: u8) -> (r: Option<u8>)
    ensures
        r == (if screen_id == 0 && font == 1 {
            Some(18u8)
        } else if screen_id == 0 && font == 0 {
            Some(7u8)
        } else if screen_id == 1 && font == 0 {
            Some(18u8)
        } else {
            None
        }),
{
    match (screen_id, font) {
        (0, 1) => Some(18),
        (0, 0) => Some(7),
        (1, 0) => Some(18),
        _ => None,
    }
}

/// Hue of a usage bar: green up to 30 %, yellow up to 70 %, red above.
pub fn bar_hue(percent: u8) -> (r: u8)
    ensures
        r == (if percent <= 30 {
            105u8
        } else if percent <= 70 {
            45u8
        } else {
            0u8
        }),
{
    if percent <= 30 {
        105
    } else if percent <= 70 {
        45
    } else {
        0
    }
}

/// The periodic tasks due at a tick of the half-second ticker.
#[derive(Debug, Clone, Copy, PartialEq, Eq, Structural)]
pub struct DueTasks {
    /// Every five seconds.
    pub album_cover: bool,
    /// Every thirty seconds.
    pub notifications: bool,
    /// Every ten minutes.
    pub weather: bool,
}

/// The tasks due at tick `counter`; the counter wraps around.
pub fn due_tasks(counter: u32) -> (r: DueTasks)
    ensures
        r.album_cover == (counter % 10 == 0),
        r.notifications == (counter % 60 == 0),
        r.weather == (counter % 1200 == 0),
{
    DueTasks {
        album_cover: counter % 10 == 0,
        notifications: counter % 60 == 0,
        weather: counter % 1200 == 0,
    }
}

/// The letter that the second byte of a two-byte `0xC3` sequence is
/// replaced by, for the accented Latin letters that the fonts lack.
pub open spec fn plain_letter(b: u8) -> Option<u8> {
    if b == 0xA1 || b == 0xA4 || b == 0xA0 {
        Some(0x61u8)
    } else if b == 0x81 || b == 0x84 || b == 0x80 {
        Some(0x41u8)
    } else if b == 0xA9 || b == 0xAB || b == 0xA8 {
        Some(0x65u8)
    } else if b == 0x89 || b == 0x8B || b == 0x88 {
        Some(0x45u8)
    } else if b == 0xAD || b == 0xAF || b == 0xAC {
        Some(0x69u8)
    } else if b == 0x8D || b == 0x8F || b == 0x8C {
        Some(0x49u8)
    } else if b == 0xB3 || b == 0xB6 || b == 0xB2 {
        Some(0x6Fu8)
    } else if b == 0x93 || b == 0x96 || b == 0x92 {
        Some(0x4Fu8)
    } else if b == 0xBA || b == 0xBC || b == 0xB9 {
        Some(0x75u8)
    } else if b == 0x9A || b == 0x9C || b == 0x99 {
        Some(0x55u8)
    } else if b == 0xB1 {
        Some(0x6Eu8)
    } else if b == 0x91 {
        Some(0x4Eu8)
    } else if b == 0xA7 {
        Some(0x63u8)
    } else if b == 0x87 {
        Some(0x43u8)
    } else {
        None
    }
}

/// UTF-8 text with accented vowels, `ñ` and `ç` replaced by their plain
/// letters, and `&`, `¡` and `¿` dropped.
pub open spec fn normalized(b: Seq<u8>) -> Seq<u8>
    decreases b.len(),
{
    if b.len() == 0 {
        b
    } else if b.len() >= 2 && b[0] == 0xC3 && plain_letter(b[1]) is Some {
        seq![plain_letter(b[1])->0] + normalized(b.subrange(2, b.len() as int))
    } else if b.len() >= 2 && b[0] == 0xC2 && (b[1] == 0xA1 || b[1] == 0xBF) {
        normalized(b.subrange(2, b.len() as int))
    } else if b[0] == 0x26 {
        normalized(b.subrange(1, b.len() as int))
    } else {
        seq![b[0]] + normalized(b.subrange(1, b.len() as int))
    }
}

fn plain_letter_of(b: u8) -> (r: Option<u8>)
    ensures
        r == plain_letter(b),
{
    match b {
        0xA1 | 0xA4 | 0xA0 => Some(0x61),
        0x81 | 0x84 | 0x80 => Some(0x41),
        0xA9 | 0xAB | 0xA8 => Some(0x65),
        0x89 | 0x8B | 0x88 => Some(0x45),
        0xAD | 0xAF | 0xAC => Some(0x69),
        0x8D | 0x8F | 0x8C => Some(0x49),
        0xB3 | 0xB6 | 0xB2 => Some(0x6F),
        0x93 | 0x96 | 0x92 => Some(0x4F),
        0xBA | 0xBC | 0xB9 => Some(0x75),
        0x9A | 0x9C | 0x99 => Some(0x55),
        0xB1 => Some(0x6E),
        0x91 => Some(0x4E),
        0xA7 => Some(0x63),
        0x87 => Some(0x43),
        _ => None,
    }
}

/// Replaces the characters that the device fonts cannot draw.
pub fn normalize_string(input: Vec<u8>) -> (r: Vec<u8>)
    requires
        vstd::utf8::valid_utf8(input@),
    ensures
        r@ == normalized(input@),
{
    let n = input.len();
    let mut out: Vec<u8> = Vec::new();
    let mut i: usize = 0;
    assert(input@.subrange(0, n as int) =~= input@);
    while i < n
        invariant
            i <= n == input@.len(),
            normalized(input@) == out@ + normalized(input@.subrange(i as int, n as int)),
        decreases n - i,
    {
        let ghost rest = input@.subrange(i as int, n as int);
        let ghost before = out@;
        let b = input[i];
        if n - i >= 2 && b == 0xC3 && plain_letter_of(input[i + 1]).is_some() {
            let letter = match plain_letter_of(input[i + 1]) {
                Some(l) => l,
                None => b,
            };
            out.push(letter);
            assert(rest.subrange(2, rest.len() as int) =~= input@.subrange(i + 2, n as int));
            assert(before + (seq![letter] + normalized(input@.subrange(i + 2, n as int))) =~= out@
                + normalized(input@.subrange(i + 2, n as int)));
            i = i + 2;
        } else if n - i >= 2 && b == 0xC2 && (input[i + 1] == 0xA1 || input[i + 1] == 0xBF) {
            assert(rest.subrange(2, rest.len() as int) =~= input@.subrange(i + 2, n as int));
            i = i + 2;
        } else if b == 0x26 {
            assert(rest.subrange(1, rest.len() as int) =~= input@.subrange(i + 1, n as int));
            i = i + 1;
        } else {
            out.push(b);
            assert(rest.subrange(1, rest.len() as int) =~= input@.subrange(i + 1, n as int));
            assert(before + (seq![b] + normalized(input@.subrange(i + 1, n as int))) =~= out@
                + normalized(input@.subrange(i + 1, n as int)));
            i = i + 1;
        }
    }
    assert(out@ + normalized(input@.subrange(n as int, n as int)) =~= out@);
    out
}

/// The two little-endian bytes of a pixel in RGB565: five bits of red, six
/// of green, five of blue.
pub open spec fn rgb565(r: u8, g: u8, b: u8) -> Seq<u8> {
    seq![
        (((r >> 3u8) & 0x1Fu8) << 3u8) | ((g >> 5u8) & 0x07u8),
        (((g >> 2u8) & 0x07u8) << 5u8) | ((b >> 3u8) & 0x1Fu8),
    ]
}

/// RGB pixels, three bytes each, packed into RGB565.
pub open spec fn packed_rgb565(s: Seq<u8>) -> Seq<u8>
    decreases s.len(),
{
    if s.len() < 3 {
        Seq::empty()
    } else {
        rgb565(s[0], s[1], s[2]) + packed_rgb565(s.subrange(3, s.len() as int))
    }
}

/// Packs RGB pixels, three bytes each, into the RGB565 pixel data that the
/// screens take.
pub fn pixels_to_rgb565(rgb: &[u8]) -> (r: Vec<u8>)
    requires
        rgb@.len() % 3 == 0,
    ensures
        r@ == packed_rgb565(rgb@),
{
    let n = rgb.len();
    let mut out: Vec<u8> = Vec::new();
    let mut i: usize = 0;
    assert(rgb@.subrange(0, n as int) =~= rgb@);
    while i < n
        invariant
            i <= n == rgb@.len(),
            n % 3 == 0,
            i % 3 == 0,
            packed_rgb565(rgb@) == out@ + packed_rgb565(rgb@.subrange(i as int, n as int)),
        decreases n - i,
    {
        let ghost rest = rgb@.subrange(i as int, n as int);
        let ghost before = out@;
        let r = rgb[i];
        let g = rgb[i + 1];
        let b = rgb[i + 2];
        let hi = (((r >> 3u8) & 0x1Fu8) << 3u8) | ((g >> 5u8) & 0x07u8);
        let lo = (((g >> 2u8) & 0x07u8) << 5u8) | ((b >> 3u8) & 0x1Fu8);
        out.push(hi);
        out.push(lo);
        proof {
            assert(rest.subrange(3, rest.len() as int) =~= rgb@.subrange(i + 3, n as int));
            assert(before + (rgb565(r, g, b) + packed_rgb565(rgb@.subrange(i + 3, n as int)))
                =~= out@ + packed_rgb565(rgb@.subrange(i + 3, n as int)));
        }
        i = i + 3;
    }
    assert(out@ + packed_rgb565(rgb@.subrange(n as int, n as int)) =~= out@);
    out
}

} // verus!
