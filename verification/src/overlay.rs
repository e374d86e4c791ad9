//! What is drawn on an accepted frame: a black banner along its top edge, and
//! on the banner the time of the capture in white.

use vstd::prelude::*;

verus! {

/// Height of the banner, in pixels.
pub const BANNER_HEIGHT: i32 = 45;

/// Column at which the caption starts.
pub const CAPTION_LEFT: i32 = 10;

/// Row of the caption's baseline.
pub const CAPTION_BASELINE: i32 = 32;

/// Factor by which the caption's base size is multiplied.
pub const CAPTION_SCALE: i32 = 2;

/// Thickness of the caption's strokes, in pixels.
pub const CAPTION_THICKNESS: i32 = 2;

/// A colour without hue: all channels of a pixel carry the same level.
#[derive(Clone, Copy, Debug, PartialEq, Eq, Structural)]
pub enum Shade {
    Black,
    White,
}

impl Shade {
    /// The level of every channel: none for black, the most a byte holds for white.
    pub open spec fn level_value(self) -> u8 {
        match self {
            Shade::Black => 0,
            Shade::White => 255,
        }
    }

    /// The level of every channel.
    pub fn level(self) -> (level: u8)
        ensures
            level == self.level_value(),
    {
        match self {
            Shade::Black => 0,
            Shade::White => 255,
        }
    }
}

/// A filled rectangle without border, to be painted on a frame. Columns count
/// from the left edge of the frame and rows from its top edge.
#[derive(Clone, Copy, Debug, PartialEq, Eq, Structural)]
pub struct Banner {
    pub left: i32,
    pub top: i32,
    pub width: i32,
    pub height: i32,
    pub shade: Shade,
}

/// The banner for a source whose frames are `width` pixels wide: black, from
/// the top left corner over the whole width.
pub open spec fn banner_across(width: i32) -> Banner {
    Banner { left: 0, top: 0, width, height: BANNER_HEIGHT, shade: Shade::Black }
}

impl Banner {
    /// Whether the rectangle holds the pixel in column `x` of row `y`.
    pub open spec fn covers_pixel(self, x: int, y: int) -> bool {
        &&& self.left <= x < self.left + self.width
        &&& self.top <= y < self.top + self.height
    }

    /// The banner for a source whose frames are `width` pixels wide. Whatever
    /// the frame shows, it is black and holds exactly the pixels of the first
    /// `BANNER_HEIGHT` rows that lie in the first `width` columns.
    pub fn across(width: i32) -> (banner: Banner)
        ensures
            banner == banner_across(width),
            banner.shade == Shade::Black,
            forall|x: int, y: int|
                banner.covers_pixel(x, y) <==> 0 <= x < width && 0 <= y < BANNER_HEIGHT,
    {
        Banner { left: 0, top: 0, width, height: BANNER_HEIGHT, shade: Shade::Black }
    }

    /// Whether the rectangle holds the pixel in column `x` of row `y`.
    pub fn covers(&self, x: i32, y: i32) -> (inside: bool)
        ensures
            inside == self.covers_pixel(x as int, y as int),
    {
        let right: i64 = self.left as i64 + self.width as i64;
        let bottom: i64 = self.top as i64 + self.height as i64;
        self.left <= x && (x as i64) < right && self.top <= y && (y as i64) < bottom
    }
}

/// A line of text to be drawn on a frame in the plain sans-serif face, with
/// smoothed edges. `left` and `baseline` give the place of the lower left
/// corner of the first character.
#[derive(Debug, PartialEq, Eq)]
pub struct Caption {
    pub text: String,
    pub left: i32,
    pub baseline: i32,
    pub scale: i32,
    pub thickness: i32,
    pub shade: Shade,
}

/// The mathematical model of a caption.
pub struct CaptionView {
    pub text: Seq<char>,
    pub left: i32,
    pub baseline: i32,
    pub scale: i32,
    pub thickness: i32,
    pub shade: Shade,
}

impl View for Caption {
    type V = CaptionView;

    open spec fn view(&self) -> CaptionView {
        CaptionView {
            text: self.text@,
            left: self.left,
            baseline: self.baseline,
            scale: self.scale,
            thickness: self.thickness,
            shade: self.shade,
        }
    }
}

/// The caption that shows `text`: white, at its fixed place on the banner.
pub open spec fn caption_of(text: Seq<char>) -> CaptionView {
    CaptionView {
        text,
        left: CAPTION_LEFT,
        baseline: CAPTION_BASELINE,
        scale: CAPTION_SCALE,
        thickness: CAPTION_THICKNESS,
        shade: Shade::White,
    }
}

impl Caption {
    /// The caption that shows `text`.
    pub fn of(text: String) -> (caption: Caption)
        ensures
            caption@ == caption_of(text@),
    {
        Caption {
            text,
            left: CAPTION_LEFT,
            baseline: CAPTION_BASELINE,
            scale: CAPTION_SCALE,
            thickness: CAPTION_THICKNESS,
            shade: Shade::White,
        }
    }
}

} // verus!
