//! Window handles and the values fetched through them: titles, geometry
//! attributes, and captured pixel buffers.
//!
//! A window is a numeric identifier assigned by the display server; two
//! values with the same identifier refer to the same server-side window.
//! The native fetches (title read, attribute read, image capture) happen
//! outside the verified boundary and hand these functions plain values.

use vstd::prelude::*;

use crate::{NotSupported, Null};
use crate::connection::Ledger;
use crate::event::{ButtonEvent, ButtonType, KeyEvent, KeyType};
use crate::prop::{PropBuffer, XA_WINDOW, decode_ids, format_supported, id_at, item_count};

verus! {

/// A handle to a server-side window: its numeric identifier.
#[derive(Clone, Copy, Debug, PartialEq, Eq, Structural)]
pub struct Window {
    /// The identifier the server assigned to this window.
    pub id: u64,
}

/// A window title: the bytes of the name property, taken over from the
/// server buffer that reported them. The bytes are not guaranteed to be
/// printable; they are compared byte for byte.
#[derive(Debug)]
pub struct WindowTitle {
    /// The raw bytes of the title.
    pub bytes: Vec<u8>,
}

impl WindowTitle {
    /// The raw bytes of the title.
    pub fn as_bytes(&self) -> (r: &Vec<u8>)
        ensures
            r == self.bytes,
    {
        &self.bytes
    }
}

/// Geometry and state attributes of a window, as the attribute query
/// reports them. Only plain numeric fields appear here.
#[derive(Clone, Copy, Debug, PartialEq, Eq, Structural)]
pub struct WindowAttributes {
    /// Horizontal position of the window on the screen.
    pub x: i32,
    /// Vertical position of the window on the screen.
    pub y: i32,
    /// Width of the window in pixels.
    pub width: i32,
    /// Height of the window in pixels.
    pub height: i32,
    /// Width of the window border in pixels.
    pub border_width: i32,
    /// Colour depth of the window.
    pub depth: i32,
    /// Whether the window is unmapped, unviewable or viewable.
    pub map_state: i32,
    /// Identifier of the root window this window sits on.
    pub root: u64,
    /// Whether the window redirects compositing.
    pub override_redirect: i32,
}

impl WindowAttributes {
    /// Attributes with every field zeroed, as a fetch starts from.
    pub fn new() -> (a: WindowAttributes)
        ensures
            a == (WindowAttributes {
                x: 0,
                y: 0,
                width: 0,
                height: 0,
                border_width: 0,
                depth: 0,
                map_state: 0,
                root: 0,
                override_redirect: 0,
            }),
    {
        WindowAttributes {
            x: 0,
            y: 0,
            width: 0,
            height: 0,
            border_width: 0,
            depth: 0,
            map_state: 0,
            root: 0,
            override_redirect: 0,
        }
    }
}

/// Whether a fetched title matches a wanted name byte for byte; an absent
/// title matches nothing.
pub open spec fn title_matches(title: Option<Vec<u8>>, name: Seq<u8>) -> bool {
    match title {
        Option::Some(bytes) => bytes@ == name,
        Option::None => false,
    }
}

/// Byte-for-byte equality of two byte vectors.
pub(crate) fn bytes_eq(a: &Vec<u8>, b: &Vec<u8>) -> (r: bool)
    ensures
        r == (a@ == b@),
{
    if a.len() != b.len() {
        return false;
    }
    let n: usize = a.len();
    let mut k: usize = 0;
    while k < n
        invariant
            n == a@.len(),
            n == b@.len(),
            k <= n,
            forall|i: int| 0 <= i < k ==> a@[i] == b@[i],
        decreases n - k,
    {
        if a[k] != b[k] {
            return false;
        }
        k = k + 1;
    }
    proof {
        assert(a@ =~= b@);
    }
    true
}

impl Window {
    /// Wraps the bytes the title fetch returned for this window. A null
    /// buffer means the window has no title.
    pub fn get_title(&self, raw: Option<Vec<u8>>) -> (r: Result<WindowTitle, Null>)
        ensures
            r is Ok <==> raw is Some,
            raw matches Some(bytes) ==> r matches Ok(t) && t.bytes == bytes,
    {
        match raw {
            Option::Some(bytes) => Ok(WindowTitle { bytes }),
            Option::None => Err(Null),
        }
    }

    /// Whether the bytes the title fetch returned for this window match a
    /// wanted name byte for byte; no title matches nothing.
    pub fn match_title(&self, raw: &Option<Vec<u8>>, name: &Vec<u8>) -> (r: bool)
        ensures
            r == title_matches(*raw, name@),
    {
        match raw {
            Option::Some(bytes) => bytes_eq(bytes, name),
            Option::None => false,
        }
    }

    /// Decodes the property response for the active-window query: its one
    /// element names the active window. The buffer is released on every
    /// path. The query fails as unsupported when the property is wrongly
    /// typed, wrongly sized, or empty.
    pub fn active_window(buf: PropBuffer, ledger: &mut Ledger) -> (r: Result<Window, NotSupported>)
        requires
            old(ledger).wf(),
            old(ledger).frees < old(ledger).allocs,
        ensures
            *final(ledger) == old(ledger).after_free(),
            final(ledger).wf(),
            r is Ok <==> (buf.actual_type == XA_WINDOW && format_supported(buf.format)
                && item_count(buf.data@, buf.format) >= 1),
            r matches Ok(w) ==> w.id == id_at(buf.data@, buf.format, 0),
    {
        let type_ok: bool = buf.actual_type == XA_WINDOW;
        let decoded = decode_ids(&buf.data, buf.format);
        buf.release(ledger);
        if !type_ok {
            return Err(NotSupported);
        }
        match decoded {
            Ok(ids) => {
                if ids.len() >= 1 {
                    Ok(Window { id: ids[0] })
                } else {
                    Err(NotSupported)
                }
            },
            Err(e) => Err(e),
        }
    }

    /// The synthetic key event this window dispatches for the given
    /// subtype: a fresh synthetic event carrying the resolved key code and
    /// the modifier state, addressed to this window under the given root.
    pub fn key_event(&self, typ: KeyType, keycode: u8, modifiers: u32, root: u64) -> (ev: KeyEvent)
        ensures
            ev == (KeyEvent {
                event_code: typ.spec_code(),
                mask: typ.spec_mask(),
                serial: 0,
                send_event: 1,
                window: self.id,
                root: root,
                subwindow: 0,
                time: 0,
                x: 1,
                y: 1,
                x_root: 1,
                y_root: 1,
                state: modifiers,
                keycode: keycode as u32,
                same_screen: 1,
            }),
    {
        KeyEvent {
            event_code: typ.code(),
            mask: typ.mask(),
            serial: 0,
            send_event: 1,
            window: self.id,
            root: root,
            subwindow: 0,
            time: 0,
            x: 1,
            y: 1,
            x_root: 1,
            y_root: 1,
            state: modifiers,
            keycode: keycode as u32,
            same_screen: 1,
        }
    }

    /// The synthetic button event this window dispatches for the given
    /// subtype. The given coordinates are relative to the window; the
    /// event carries them adjusted by the window's on-screen offset from
    /// the attributes.
    pub fn button_event(
        &self,
        typ: ButtonType,
        button: u32,
        x: i32,
        y: i32,
        attr: &WindowAttributes,
        modifiers: u32,
        root: u64,
    ) -> (ev: ButtonEvent)
        requires
            i32::MIN <= x + attr.x <= i32::MAX,
            i32::MIN <= y + attr.y <= i32::MAX,
        ensures
            ev == (ButtonEvent {
                event_code: typ.spec_code(),
                mask: typ.spec_mask(),
                serial: 0,
                send_event: 1,
                window: self.id,
                root: root,
                subwindow: 0,
                time: 0,
                x: (x + attr.x) as i32,
                y: (y + attr.y) as i32,
                x_root: (x + attr.x) as i32,
                y_root: (y + attr.y) as i32,
                state: modifiers,
                button: button,
                same_screen: 1,
            }),
    {
        let sx: i32 = x + attr.x;
        let sy: i32 = y + attr.y;
        ButtonEvent {
            event_code: typ.code(),
            mask: typ.mask(),
            serial: 0,
            send_event: 1,
            window: self.id,
            root: root,
            subwindow: 0,
            time: 0,
            x: sx,
            y: sy,
            x_root: sx,
            y_root: sy,
            state: modifiers,
            button: button,
            same_screen: 1,
        }
    }
}

/// The weighted luminance of a pixel, using the standard coefficients
/// 19595, 38470 and 7471 over a 16-bit fixed-point scale, rounded to
/// nearest.
pub open spec fn luminance(r: u8, g: u8, b: u8) -> int {
    (19595 * r + 38470 * g + 7471 * b + 32768) / 65536
}

/// The rough luminance of a pixel: the mean of its three channels.
pub open spec fn luminance_approx(r: u8, g: u8, b: u8) -> int {
    (b + g + r) / 3
}

/// One pixel of a captured image. The capture format stores four bytes
/// per pixel — blue, green, red, one byte of padding — and the padding
/// byte is dropped when the pixel is read out of the raw bytes.
#[derive(Clone, Copy, Debug, PartialEq, Eq, Structural)]
pub struct XColor {
    /// Blue value of the pixel.
    pub b: u8,
    /// Green value of the pixel.
    pub g: u8,
    /// Red value of the pixel.
    pub r: u8,
}

impl XColor {
    /// A pixel with the given blue, green and red values.
    pub fn new(b: u8, g: u8, r: u8) -> (c: XColor)
        ensures
            c.b == b,
            c.g == g,
            c.r == r,
    {
        XColor { b, g, r }
    }

    /// The rough grey value of the pixel: channel sum divided by three.
    pub fn grayscale_approx(&self) -> (v: u8)
        ensures
            v == luminance_approx(self.r, self.g, self.b),
    {
        ((self.b as u16 + self.g as u16 + self.r as u16) / 3) as u8
    }

    /// The weighted grey value of the pixel, by the standard luminance
    /// coefficients.
    pub fn grayscale(&self) -> (v: u8)
        ensures
            v == luminance(self.r, self.g, self.b),
    {
        let r: u32 = self.r as u32;
        let g: u32 = self.g as u32;
        let b: u32 = self.b as u32;
        let x: u32 = 19595 * r + 38470 * g + 7471 * b + 32768;
        proof {
            assert(x >> 16 == x / 65536 && (x <= 16744448 ==> x >> 16 <= 255)) by (bit_vector);
        }
        (x >> 16) as u8
    }
}

/// Number of pixels a captured image of these dimensions holds.
pub open spec fn pixel_count(width: u32, height: u32) -> int {
    (width as int) * (height as int)
}

/// A captured image: its dimensions and its pixels, rows first. A window
/// reporting zero width or height captures to an image with no pixels.
pub struct XImg {
    /// Width of the image in pixels.
    pub width: u32,
    /// Height of the image in pixels.
    pub height: u32,
    /// The pixels, rows first: the pixel at column `x` of row `y` sits at
    /// position `y * width + x`.
    pub pixels: Vec<XColor>,
}

impl XImg {
    /// The image holds exactly width times height pixels.
    pub open spec fn wf(self) -> bool {
        self.pixels@.len() == pixel_count(self.width, self.height)
    }

    /// Builds the image out of the raw bytes of a capture sized by the
    /// attributes query: four bytes per pixel — blue, green, red, padding —
    /// rows first. A byte count that does not fit the dimensions is a
    /// failed capture.
    pub fn from_bgra(width: u32, height: u32, data: &Vec<u8>) -> (r: Option<XImg>)
        ensures
            r is Some <==> data@.len() == 4 * pixel_count(width, height),
            r matches Some(img) ==> img.wf() && img.width == width && img.height == height
                && img.pixels@.len() == pixel_count(width, height) && (forall|i: int|
                0 <= i < img.pixels@.len() ==> img.pixels@[i].b == data@[4 * i]
                    && img.pixels@[i].g == data@[4 * i + 1] && img.pixels@[i].r == data@[4 * i
                    + 2]),
    {
        proof {
            vstd::arithmetic::mul::lemma_mul_upper_bound(
                width as int,
                u32::MAX as int,
                height as int,
                u32::MAX as int,
            );
        }
        let expected: u128 = (width as u128) * (height as u128) * 4;
        if (data.len() as u128) != expected {
            return None;
        }
        let count: usize = data.len() / 4;
        proof {
            vstd::arithmetic::div_mod::lemma_div_multiples_vanish(
                pixel_count(width, height),
                4,
            );
            assert(4 * pixel_count(width, height) == pixel_count(width, height) * 4);
            assert(count == pixel_count(width, height));
            assert(data@.len() == vstd::std_specs::vec::spec_vec_len(data));
        }
        let mut pixels: Vec<XColor> = Vec::new();
        let mut k: usize = 0;
        while k < count
            invariant
                4 * count <= data@.len(),
                data@.len() <= usize::MAX,
                k <= count,
                pixels@.len() == k,
                forall|i: int| 0 <= i < k ==> pixels@[i].b == data@[4 * i] && pixels@[i].g
                    == data@[4 * i + 1] && pixels@[i].r == data@[4 * i + 2],
            decreases count - k,
        {
            let px = XColor::new(data[4 * k], data[4 * k + 1], data[4 * k + 2]);
            pixels.push(px);
            k = k + 1;
        }
        Some(XImg { width, height, pixels })
    }

    /// Width of the image in pixels.
    pub fn width(&self) -> (w: u32)
        ensures
            w == self.width,
    {
        self.width
    }

    /// Height of the image in pixels.
    pub fn height(&self) -> (h: u32)
        ensures
            h == self.height,
    {
        self.height
    }

    /// The pixels row by row: element `y` holds row `y`, left to right.
    pub fn rows(&self) -> (r: Vec<Vec<XColor>>)
        requires
            self.wf(),
        ensures
            r@.len() == self.height as int,
            forall|y: int| 0 <= y < self.height ==> #[trigger] r@[y]@.len() == self.width as int,
            forall|y: int, x: int|
                0 <= y < self.height && 0 <= x < self.width ==> #[trigger] r@[y]@[x]
                    == self.pixels@[y * (self.width as int) + x],
    {
        let w: usize = self.width as usize;
        let h: usize = self.height as usize;
        let mut out: Vec<Vec<XColor>> = Vec::new();
        let mut y: usize = 0;
        while y < h
            invariant
                w == self.width as int,
                h == self.height as int,
                self.wf(),
                y <= h,
                out@.len() == y,
                forall|yy: int| 0 <= yy < y ==> #[trigger] out@[yy]@.len() == w as int,
                forall|yy: int, xx: int|
                    0 <= yy < y && 0 <= xx < w ==> #[trigger] out@[yy]@[xx] == self.pixels@[yy * (
                    w as int) + xx],
            decreases h - y,
        {
            let mut row: Vec<XColor> = Vec::new();
            let mut x: usize = 0;
            while x < w
                invariant
                    w == self.width as int,
                    h == self.height as int,
                    self.wf(),
                    y < h,
                    x <= w,
                    row@.len() == x,
                    forall|xx: int|
                        0 <= xx < x ==> #[trigger] row@[xx] == self.pixels@[y * (w as int) + xx],
                decreases w - x,
            {
                proof {
                    assert(self.pixels@.len() == vstd::std_specs::vec::spec_vec_len(&self.pixels));
                    assert((y as int) * (w as int) + (x as int) < (h as int) * (w as int))
                        by (nonlinear_arith)
                        requires
                            0 <= y < h,
                            0 <= x < w,
                    ;
                    assert((h as int) * (w as int) == pixel_count(self.width, self.height))
                        by (nonlinear_arith)
                        requires
                            w == self.width as int,
                            h == self.height as int,
                    ;
                }
                let px = self.pixels[y * w + x];
                row.push(px);
                x = x + 1;
            }
            out.push(row);
            y = y + 1;
        }
        out
    }
}

} // verus!
