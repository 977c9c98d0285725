//! Points and rectangles of the screen, and the rule that brings a rectangle
//! given in screen coordinates into the bytes that the window registers hold.

use vstd::prelude::*;

verus! {

/// Width of the visible screen, in pixels.
pub const WIDTH: i32 = 240;

/// Height of the visible screen, in pixels.
pub const HEIGHT: i32 = 160;

/// A pair of coordinates.
#[derive(Clone, Copy, Debug, PartialEq, Eq)]
pub struct Vector2D<T> {
    pub x: T,
    pub y: T,
}

/// A rectangle, given by its top left corner and its size.
#[derive(Clone, Copy, Debug, PartialEq, Eq)]
pub struct Rect<T> {
    pub position: Vector2D<T>,
    pub size: Vector2D<T>,
}

impl<T> Vector2D<T> {
    /// The pair `(x, y)`.
    pub fn new(x: T, y: T) -> (v: Self)
        ensures
            v == (Vector2D { x, y }),
    {
        Vector2D { x, y }
    }
}

impl<T> Rect<T> {
    /// The rectangle with its top left corner at `position` and of size
    /// `size`.
    pub fn new(position: Vector2D<T>, size: Vector2D<T>) -> (r: Self)
        ensures
            r == (Rect { position, size }),
    {
        Rect { position, size }
    }
}

/// The rectangle of no size in the top left corner of the screen.
pub open spec fn empty() -> Rect<u8> {
    Rect { position: Vector2D { x: 0u8, y: 0u8 }, size: Vector2D { x: 0u8, y: 0u8 } }
}

/// The value in `low ..= high` that is nearest to `value`.
pub open spec fn clamped(value: int, low: int, high: int) -> int {
    if value < low {
        low
    } else if value > high {
        high
    } else {
        value
    }
}

/// The lowest eight bits of `value`, read as an unsigned number.
pub open spec fn low_byte(value: int) -> int {
    value % 256
}

/// What a rectangle in screen coordinates becomes when it is stored for a
/// window: its corner is brought onto the screen, edges included, and of
/// each side of its size only the lowest eight bits are kept.
pub open spec fn on_screen(rect: Rect<i32>) -> Rect<u8> {
    Rect {
        position: Vector2D {
            x: clamped(rect.position.x as int, 0, WIDTH as int) as u8,
            y: clamped(rect.position.y as int, 0, HEIGHT as int) as u8,
        },
        size: Vector2D {
            x: low_byte(rect.size.x as int) as u8,
            y: low_byte(rect.size.y as int) as u8,
        },
    }
}

/// The same rectangle with each byte widened to a screen coordinate.
pub open spec fn widened(rect: Rect<u8>) -> Rect<i32> {
    Rect {
        position: Vector2D { x: rect.position.x as i32, y: rect.position.y as i32 },
        size: Vector2D { x: rect.size.x as i32, y: rect.size.y as i32 },
    }
}

/// Whether the right and the bottom edge of `rect` each fit in a byte.
pub open spec fn spec_edges_fit(rect: Rect<u8>) -> bool {
    rect.position.x + rect.size.x <= u8::MAX && rect.position.y + rect.size.y <= u8::MAX
}

/// Clamping is idempotent: a clamped value is its own clamp.
pub proof fn lemma_clamped_idempotent(value: int, low: int, high: int)
    requires
        low <= high,
    ensures
        low <= clamped(value, low, high) <= high,
        clamped(clamped(value, low, high), low, high) == clamped(value, low, high),
{
}

/// A stored rectangle lies with its corner on the screen, and storing it
/// again changes nothing: bringing a rectangle onto the screen twice is the
/// same as doing so once.
pub proof fn lemma_on_screen_idempotent(rect: Rect<i32>)
    ensures
        on_screen(rect).position.x <= WIDTH,
        on_screen(rect).position.y <= HEIGHT,
        on_screen(widened(on_screen(rect))) == on_screen(rect),
{
}

/// Whether the right and the bottom edge of `rect` each fit in a byte.
#[verifier::when_used_as_spec(spec_edges_fit)]
pub fn edges_fit(rect: Rect<u8>) -> (fit: bool)
    ensures
        fit == edges_fit(rect),
{
    rect.size.x <= u8::MAX - rect.position.x && rect.size.y <= u8::MAX - rect.position.y
}

/// Brings `value` into `low ..= high`.
pub fn clamp(value: i32, low: i32, high: i32) -> (r: i32)
    requires
        low <= high,
    ensures
        r == clamped(value as int, low as int, high as int),
{
    if value < low {
        low
    } else if value > high {
        high
    } else {
        value
    }
}

/// The lowest eight bits of `value`.
pub fn truncate(value: i32) -> (r: u8)
    ensures
        r == low_byte(value as int),
{
    let r: u8 = value as u8;
    assert(r as int == (value as int) % 256) by (bit_vector)
        requires
            r == value as u8,
    ;
    r
}

/// Brings a rectangle in screen coordinates into the bytes stored for a
/// window.
pub fn to_screen(rect: &Rect<i32>) -> (stored: Rect<u8>)
    ensures
        stored == on_screen(*rect),
        stored.position.x <= WIDTH,
        stored.position.y <= HEIGHT,
{
    Rect::new(
        Vector2D::new(
            clamp(rect.position.x, 0, WIDTH) as u8,
            clamp(rect.position.y, 0, HEIGHT) as u8,
        ),
        Vector2D::new(truncate(rect.size.x), truncate(rect.size.y)),
    )
}

} // verus!
