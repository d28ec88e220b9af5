//! The endlessly scrolling backdrop.

use vstd::prelude::*;
use crate::config::Config;
use crate::geometry::Size;

verus! {

/// Where the second copy of the tile starts.
pub const SECOND_TILE_START: i32 = -1000;

/// Two copies of one tile, each at its own height, scrolling down together.
#[derive(Clone, Copy, Debug, PartialEq, Eq, Structural)]
pub struct BackgroundAnimation {
    pub tile_height: u16,
    pub y1: i32,
    pub y2: i32,
}

/// A tile's top edge one frame later: further down by the pace, or, once
/// that lies below the screen's bottom edge, just above the top edge.
pub open spec fn scrolled(y: i32, tile_height: u16, screen: Size, config: Config) -> int {
    if y + config.spec_pace() > screen.height {
        -(tile_height as int)
    } else {
        y + config.spec_pace()
    }
}

fn scroll(y: i32, tile_height: u16, screen: Size, config: &Config) -> (next: i32)
    ensures
        next == scrolled(y, tile_height, screen, *config),
{
    let lower: i64 = y as i64 + config.pace() as i64;
    if lower > screen.height as i64 {
        -(tile_height as i32)
    } else {
        lower as i32
    }
}

impl BackgroundAnimation {
    /// The backdrop before the first frame: one copy at the top edge, the
    /// other a thousand pixels above it.
    pub open spec fn spec_new(tile_height: u16) -> BackgroundAnimation {
        BackgroundAnimation { tile_height, y1: 0, y2: SECOND_TILE_START }
    }

    #[verifier::when_used_as_spec(spec_new)]
    pub fn new(tile_height: u16) -> (background: BackgroundAnimation)
        ensures
            background == BackgroundAnimation::spec_new(tile_height),
    {
        BackgroundAnimation { tile_height, y1: 0, y2: SECOND_TILE_START }
    }

    /// The backdrop one frame later.
    pub open spec fn animated(&self, screen: Size, config: Config) -> BackgroundAnimation {
        BackgroundAnimation {
            tile_height: self.tile_height,
            y1: scrolled(self.y1, self.tile_height, screen, config) as i32,
            y2: scrolled(self.y2, self.tile_height, screen, config) as i32,
        }
    }

    /// Scrolls both copies down by one frame.
    pub fn animate(&mut self, screen: Size, config: &Config)
        ensures
            *final(self) == old(self).animated(screen, *config),
            final(self).y1 <= screen.height,
            final(self).y2 <= screen.height,
    {
        self.y1 = scroll(self.y1, self.tile_height, screen, config);
        self.y2 = scroll(self.y2, self.tile_height, screen, config);
    }
}

} // verus!
