//! Rectangles, the overlap test and the limits an entity is kept within.

use vstd::prelude::*;

verus! {

/// Width and height in pixels, of a sprite or of the viewport.
#[derive(Clone, Copy, Debug, PartialEq, Eq, Structural)]
pub struct Size {
    pub width: u16,
    pub height: u16,
}

impl Size {
    /// Whether a sprite of this size leaves room to move inside `screen`:
    /// the lower movement limit does not lie past the upper one.
    pub open spec fn spec_fits_in(&self, screen: Size) -> bool {
        &&& -(self.width / 3) <= screen.width - (2 * self.width) / 3
        &&& -(self.height / 11) <= screen.height - self.height
    }

    #[verifier::when_used_as_spec(spec_fits_in)]
    pub fn fits_in(&self, screen: Size) -> (fits: bool)
        ensures
            fits == self.spec_fits_in(screen),
    {
        let width: i32 = self.width as i32;
        let height: i32 = self.height as i32;
        -(width / 3) <= screen.width as i32 - (2 * width) / 3 && -(height / 11) <= screen.height as i32 - height
    }
}

/// Axis-aligned rectangle used for collision testing: top-left corner plus
/// the footprint of the sprite it belongs to.
#[derive(Clone, Copy, Debug, PartialEq, Eq, Structural)]
pub struct Hitbox {
    pub x: i32,
    pub y: i32,
    pub size: Size,
}

impl Hitbox {
    pub fn new(x: i32, y: i32, size: Size) -> (hitbox: Hitbox)
        ensures
            hitbox == (Hitbox { x, y, size }),
    {
        Hitbox { x, y, size }
    }

    /// The x coordinate of the right edge.
    pub open spec fn right(&self) -> int {
        self.x + self.size.width
    }

    /// The y coordinate of the bottom edge.
    pub open spec fn bottom(&self) -> int {
        self.y + self.size.height
    }

    /// Whether this box collides with `other`. The test is closed on this
    /// box's right and bottom edges and open on its left and top edges, so a
    /// box that merely touches `other` from the right or from below does not
    /// collide with it.
    pub open spec fn spec_overlaps(&self, other: &Hitbox) -> bool {
        &&& self.x < other.right()
        &&& other.x <= self.right()
        &&& self.y < other.bottom()
        &&& other.y <= self.bottom()
    }

    #[verifier::when_used_as_spec(spec_overlaps)]
    pub fn overlaps(&self, other: &Hitbox) -> (hit: bool)
        ensures
            hit == self.spec_overlaps(other),
    {
        let left: i64 = self.x as i64;
        let top: i64 = self.y as i64;
        let other_left: i64 = other.x as i64;
        let other_top: i64 = other.y as i64;
        left < other_left + other.size.width as i64
            && other_left <= left + self.size.width as i64
            && top < other_top + other.size.height as i64
            && other_top <= top + self.size.height as i64
    }
}

/// Boxes whose horizontal extents, or whose vertical extents, share no point
/// never overlap.
pub proof fn lemma_disjoint_boxes_do_not_overlap(a: Hitbox, b: Hitbox)
    requires
        a.right() < b.x || b.right() < a.x || a.bottom() < b.y || b.bottom() < a.y,
    ensures
        !a.overlaps(&b),
        !b.overlaps(&a),
{
}

/// A box with a positive width and height overlaps every box identical to it.
pub proof fn lemma_identical_boxes_overlap(a: Hitbox, b: Hitbox)
    requires
        a == b,
        a.size.width > 0,
        a.size.height > 0,
    ensures
        a.overlaps(&b),
{
}

/// `v` limited to the closed range from `lo` to `hi`.
pub open spec fn clamped(v: int, lo: int, hi: int) -> int {
    if v < lo {
        lo
    } else if v > hi {
        hi
    } else {
        v
    }
}

/// Limits `v` to the closed range from `lo` to `hi`.
pub fn clamp(v: i64, lo: i32, hi: i32) -> (r: i32)
    requires
        lo <= hi,
    ensures
        r == clamped(v as int, lo as int, hi as int),
        lo <= r <= hi,
{
    if v < lo as i64 {
        lo
    } else if v > hi as i64 {
        hi
    } else {
        v as i32
    }
}

/// The closed ranges of x and y that an entity's top-left corner is kept in.
#[derive(Clone, Copy, Debug, PartialEq, Eq, Structural)]
pub struct Bounds {
    pub min_x: i32,
    pub max_x: i32,
    pub min_y: i32,
    pub max_y: i32,
}

impl Bounds {
    /// Neither range is empty.
    pub open spec fn wf(&self) -> bool {
        self.min_x <= self.max_x && self.min_y <= self.max_y
    }

    /// Whether the point lies inside both ranges.
    pub open spec fn contains(&self, x: int, y: int) -> bool {
        self.min_x <= x <= self.max_x && self.min_y <= y <= self.max_y
    }

    /// The limits for a sprite inside `screen`: it may leave the screen by a
    /// third of its width on the left and on the right, and by an eleventh of
    /// its height at the top, and not at all at the bottom.
    pub open spec fn spec_around(screen: Size, sprite: Size) -> Bounds {
        Bounds {
            min_x: (-(sprite.width / 3)) as i32,
            max_x: (screen.width - (2 * sprite.width) / 3) as i32,
            min_y: (-(sprite.height / 11)) as i32,
            max_y: (screen.height - sprite.height) as i32,
        }
    }

    #[verifier::when_used_as_spec(spec_around)]
    pub fn around(screen: Size, sprite: Size) -> (bounds: Bounds)
        ensures
            bounds == Bounds::spec_around(screen, sprite),
            bounds.wf() <==> sprite.fits_in(screen),
    {
        let width: i32 = sprite.width as i32;
        let height: i32 = sprite.height as i32;
        Bounds {
            min_x: -(width / 3),
            max_x: screen.width as i32 - (2 * width) / 3,
            min_y: -(height / 11),
            max_y: screen.height as i32 - height,
        }
    }

    /// The point of these limits nearest to `(x, y)`.
    pub open spec fn spec_restrict(&self, x: int, y: int) -> (int, int) {
        (clamped(x, self.min_x as int, self.max_x as int), clamped(y, self.min_y as int, self.max_y as int))
    }

    /// Brings a point inside these limits, each coordinate on its own.
    pub fn restrict(&self, x: i64, y: i64) -> (p: (i32, i32))
        requires
            self.wf(),
        ensures
            (p.0 as int, p.1 as int) == self.spec_restrict(x as int, y as int),
            self.contains(p.0 as int, p.1 as int),
    {
        (clamp(x, self.min_x, self.max_x), clamp(y, self.min_y, self.max_y))
    }
}

} // verus!
