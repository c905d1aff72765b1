//! The typed component records an entity can carry: position, renderable
//! appearance, the player and monster markers, and the (reserved) viewshed.

use vstd::prelude::*;

verus! {

/// A color as one byte per channel; the host turns it into whatever
/// color type its output surface wants.
#[derive(PartialEq, Eq, Structural, Copy, Clone, Debug)]
pub struct Rgb {
    pub r: u8,
    pub g: u8,
    pub b: u8,
}

/// Black: the background of every tile and entity drawn here.
pub open spec fn black() -> Rgb {
    Rgb { r: 0, g: 0, b: 0 }
}

/// Mid-gray: the foreground of a Floor tile.
pub open spec fn gray() -> Rgb {
    Rgb { r: 128, g: 128, b: 128 }
}

/// Green: the foreground of a Wall tile.
pub open spec fn green() -> Rgb {
    Rgb { r: 0, g: 255, b: 0 }
}

/// Yellow: the foreground of the player glyph.
pub open spec fn yellow() -> Rgb {
    Rgb { r: 255, g: 255, b: 0 }
}

/// Builds the black color value.
pub(crate) fn black_exec() -> (c: Rgb)
    ensures
        c == black(),
{
    Rgb { r: 0, g: 0, b: 0 }
}

/// Builds the mid-gray color value.
pub(crate) fn gray_exec() -> (c: Rgb)
    ensures
        c == gray(),
{
    Rgb { r: 128, g: 128, b: 128 }
}

/// Builds the green color value.
pub(crate) fn green_exec() -> (c: Rgb)
    ensures
        c == green(),
{
    Rgb { r: 0, g: 255, b: 0 }
}

/// Builds the yellow color value.
pub(crate) fn yellow_exec() -> (c: Rgb)
    ensures
        c == yellow(),
{
    Rgb { r: 255, g: 255, b: 0 }
}

/// A grid cell holding an entity. Valid positions lie on the map:
/// `0 <= x < 80` and `0 <= y < 50` at all times after any mutation.
#[derive(PartialEq, Eq, Structural, Copy, Clone, Debug)]
pub struct Position {
    pub x: i32,
    pub y: i32,
}

impl Position {
    /// The position invariant: the cell lies on the map.
    pub open spec fn wf(self) -> bool {
        crate::map::in_map_bounds(self.x as int, self.y as int)
    }
}

/// How an entity is drawn: a glyph code point and a color pair.
/// Immutable after creation in this scope.
#[derive(PartialEq, Eq, Structural, Copy, Clone, Debug)]
pub struct Renderable {
    pub glyph: u16,
    pub fg: Rgb,
    pub bg: Rgb,
}

impl Renderable {
    /// Builds the appearance from a character: the glyph stored is the
    /// character's code-page-437 code point.
    pub fn new(glyph: char, fg: Rgb, bg: Rgb) -> (r: Renderable)
        ensures
            r == (Renderable { glyph: crate::render::cp437_of(glyph), fg, bg }),
    {
        Renderable { glyph: crate::render::to_cp437(glyph), fg, bg }
    }
}

/// Zero-size marker: exactly one entity holds it in this scope.
#[derive(PartialEq, Eq, Structural, Copy, Clone, Debug)]
pub struct Player {}

/// Zero-size marker, declared for future systems; nothing consumes it yet.
#[derive(PartialEq, Eq, Structural, Copy, Clone, Debug)]
pub struct Monster {}

/// A point on the grid, as carried by a viewshed's visible-tile list.
#[derive(PartialEq, Eq, Structural, Copy, Clone, Debug)]
pub struct Point {
    pub x: i32,
    pub y: i32,
}

/// Field-of-view state: the visible tiles, the sight radius, and a
/// recompute flag. Declared as an extension point; no system consumes it.
#[derive(Clone, Debug)]
pub struct Viewshed {
    pub visible_tiles: Vec<Point>,
    pub range: i32,
    pub dirty: bool,
}

} // verus!
