//! Viewport geometry: buffer gaps, thresholds, the size of a window and the
//! scroll position that keeps an anchor where it was.
//!
//! Whole pixels are `i32`, as the viewport reports them. Lengths that may be
//! fractional are `i64` millipixels. A ratio is a `u32` in thousandths.

use vstd::prelude::*;

verus! {

/// The number of items asked for while no viewport is bound.
pub const DEFAULT_LIMIT: usize = 100;

/// The buffer threshold while no viewport is bound, in millipixels.
pub const DEFAULT_MIN_BUFFER: i64 = 150_000;

/// The continuation step while no viewport is bound, in millipixels.
pub const DEFAULT_STEP_BACK: i64 = 240_000;

/// The bottom gap below which a live viewport follows new items, in
/// millipixels.
pub const AUTO_SCROLL_SLACK: i64 = 50_000;

/// The distance that a scroll target must exceed to be acted on, in
/// millipixels.
pub const SCROLL_TOLERANCE: i64 = 100;

/// What the bound scroll container reports about itself.
#[derive(Clone, Copy, Debug, PartialEq, Eq, Structural)]
pub struct Viewport {
    /// How far the content is scrolled, in whole pixels.
    pub scroll_top: i32,
    /// The height of the whole content, in whole pixels.
    pub scroll_height: i32,
    /// The height of the visible part, padding included, in whole pixels.
    pub client_height: i32,
    /// The container's top padding, in millipixels.
    pub padding_top: i64,
    /// The container's bottom padding, in millipixels.
    pub padding_bottom: i64,
}

impl Viewport {
    /// The distance between the top of the content and the top of the
    /// visible part, in millipixels.
    pub open spec fn top_gap(self) -> int {
        1000 * self.scroll_top
    }

    /// The distance between the bottom of the visible part and the bottom of
    /// the content, in millipixels.
    pub open spec fn bottom_gap(self) -> int {
        1000 * (self.scroll_height - self.scroll_top - self.client_height)
    }

    /// The visible height without the container's padding, in millipixels.
    pub open spec fn content_height(self) -> int {
        1000 * self.client_height - self.padding_top - self.padding_bottom
    }
}

/// The constants that size windows and thresholds.
#[derive(Clone, Copy, Debug, PartialEq, Eq, Structural)]
pub struct ScrollConfig {
    /// The least height of one row, in millipixels.
    pub min_row: u32,
    /// The buffer gap below which a page is loaded, in thousandths of the
    /// viewport height.
    pub min_buffer_size: u32,
    /// How far from the window's edge the next page starts, in thousandths
    /// of the viewport height.
    pub continuation_step_back: u32,
    /// The height that one window covers, in thousandths of the viewport
    /// height.
    pub query_size: u32,
}

/// The measurements that the controller derives from the viewport.
#[derive(Clone, Copy, Debug, PartialEq, Eq, Structural)]
pub struct ScrollMetrics {
    /// The gap above the visible part, in millipixels.
    pub top_gap: i64,
    /// The gap below the visible part, in millipixels.
    pub bottom_gap: i64,
    /// The gap below which a page is loaded, in millipixels.
    pub min_buffer: i64,
    /// The continuation step, in millipixels.
    pub step_back: i64,
    /// The number of items in the window when it was measured.
    pub result_count: usize,
}

/// An order to move the viewport. Whoever carries it out recomputes the
/// metrics once, on the next paint.
#[derive(Clone, Copy, Debug, PartialEq, Eq, Structural)]
pub struct ScrollCommand {
    /// The new scroll position, in whole pixels.
    pub scroll_top: i32,
}

/// The least whole number of `unit`s that cover `amount`: nothing for an
/// amount that is not positive, and as many as can be counted where the unit
/// is not positive.
pub open spec fn units_to_cover(amount: int, unit: int) -> usize {
    if amount <= 0 {
        0
    } else if unit <= 0 {
        usize::MAX
    } else if (amount + unit - 1) / unit > usize::MAX {
        usize::MAX
    } else {
        ((amount + unit - 1) / unit) as usize
    }
}

/// The nearest `i32` to `n`.
pub open spec fn clip_i32(n: int) -> i32 {
    if n < i32::MIN {
        i32::MIN
    } else if n > i32::MAX {
        i32::MAX
    } else {
        n as i32
    }
}

/// The nearest `i64` to `n`.
pub open spec fn clip_i64(n: int) -> i64 {
    if n < i64::MIN {
        i64::MIN
    } else if n > i64::MAX {
        i64::MAX
    } else {
        n as i64
    }
}

/// The whole pixel that a position in millipixels falls on: the fraction is
/// dropped, and a position outside the range of `i32` becomes the nearest
/// end of that range.
pub open spec fn whole_pixels(position: int) -> i32 {
    clip_i32(
        if position >= 0 {
            position / 1000
        } else {
            -((-position) / 1000)
        },
    )
}

/// The command that moves a viewport standing at `current` whole pixels to
/// `target` millipixels: none where the two are within the tolerance.
pub open spec fn scroll_command_for(target: int, current: i32) -> Option<ScrollCommand> {
    if target - 1000 * current > SCROLL_TOLERANCE || 1000 * current - target > SCROLL_TOLERANCE {
        Some(ScrollCommand { scroll_top: whole_pixels(target) })
    } else {
        None
    }
}

/// How far an anchor moved between two measurements of its offset, in
/// millipixels. An anchor that cannot be found afterwards has not moved; an
/// offset that could not be taken beforehand counts as zero.
pub open spec fn anchor_shift(before: Option<i64>, after: Option<i64>) -> int {
    match after {
        None => 0,
        Some(a) => match before {
            None => a as int,
            Some(b) => a - b,
        },
    }
}

impl ScrollConfig {
    /// The configuration that the controller starts with: rows of at least
    /// 74 pixels, windows of three viewport heights, and three quarters of a
    /// viewport height for both the buffer threshold and the continuation
    /// step.
    pub open spec fn standard() -> ScrollConfig {
        ScrollConfig {
            min_row: 74_000,
            min_buffer_size: 750,
            continuation_step_back: 750,
            query_size: 3000,
        }
    }

    /// The number of items to ask for: as many rows of the least height as
    /// cover `query_size` viewport heights, and `DEFAULT_LIMIT` without a
    /// viewport.
    pub open spec fn limit_for(self, viewport: Option<Viewport>) -> usize {
        match viewport {
            None => DEFAULT_LIMIT,
            Some(v) => units_to_cover(v.content_height() * self.query_size, 1000 * self.min_row),
        }
    }

    /// The buffer threshold, in millipixels.
    pub open spec fn min_buffer_for(self, viewport: Option<Viewport>) -> int {
        match viewport {
            None => DEFAULT_MIN_BUFFER as int,
            Some(v) => self.min_buffer_size * v.client_height,
        }
    }

    /// The continuation step, in millipixels.
    pub open spec fn step_back_for(self, viewport: Option<Viewport>) -> int {
        match viewport {
            None => DEFAULT_STEP_BACK as int,
            Some(v) => self.continuation_step_back * v.client_height,
        }
    }

    /// The metrics of a viewport that shows `result_count` items.
    pub open spec fn metrics_for(self, v: Viewport, result_count: usize) -> ScrollMetrics {
        ScrollMetrics {
            top_gap: v.top_gap() as i64,
            bottom_gap: v.bottom_gap() as i64,
            min_buffer: self.min_buffer_for(Some(v)) as i64,
            step_back: self.step_back_for(Some(v)) as i64,
            result_count,
        }
    }

    /// The configuration that the controller starts with.
    pub fn new() -> (config: ScrollConfig)
        ensures
            config == ScrollConfig::standard(),
    {
        ScrollConfig {
            min_row: 74_000,
            min_buffer_size: 750,
            continuation_step_back: 750,
            query_size: 3000,
        }
    }

    /// The number of items to ask for.
    pub fn compute_limit(&self, viewport: Option<Viewport>) -> (limit: usize)
        ensures
            limit == self.limit_for(viewport),
    {
        match viewport {
            None => DEFAULT_LIMIT,
            Some(v) => {
                let content: i128 = 1000 * (v.client_height as i128) - (v.padding_top as i128) - (
                v.padding_bottom as i128);
                let factor: i128 = self.query_size as i128;
                let unit: i128 = 1000 * (self.min_row as i128);
                assert(-0x4_0000_0000_0000_0000 <= content <= 0x4_0000_0000_0000_0000);
                assert(0 <= factor <= 0xffff_ffff);
                assert(-0x4_0000_0000_0000_0000_0000_0000 <= content * factor
                    <= 0x4_0000_0000_0000_0000_0000_0000) by (nonlinear_arith)
                    requires
                        -0x4_0000_0000_0000_0000 <= content <= 0x4_0000_0000_0000_0000,
                        0 <= factor <= 0xffff_ffff,
                ;
                let amount: i128 = content * factor;
                if amount <= 0 {
                    0
                } else if unit <= 0 {
                    usize::MAX
                } else {
                    let rows: i128 = (amount + unit - 1) / unit;
                    if rows > usize::MAX as i128 {
                        usize::MAX
                    } else {
                        rows as usize
                    }
                }
            },
        }
    }

    /// The buffer threshold and the continuation step, both in millipixels:
    /// the configured fractions of the viewport height, and the two
    /// defaults without a viewport.
    pub fn get_thresholds(&self, viewport: Option<Viewport>) -> (thresholds: (i64, i64))
        ensures
            thresholds.0 == self.min_buffer_for(viewport),
            thresholds.1 == self.step_back_for(viewport),
    {
        match viewport {
            None => (DEFAULT_MIN_BUFFER, DEFAULT_STEP_BACK),
            Some(v) => {
                let height: i64 = v.client_height as i64;
                (scale(self.min_buffer_size, height), scale(self.continuation_step_back, height))
            },
        }
    }

    /// The metrics of a viewport that shows `result_count` items.
    pub fn measure(&self, v: Viewport, result_count: usize) -> (metrics: ScrollMetrics)
        ensures
            metrics == self.metrics_for(v, result_count),
            metrics.top_gap == v.top_gap(),
            metrics.bottom_gap == v.bottom_gap(),
            metrics.min_buffer == self.min_buffer_for(Some(v)),
            metrics.step_back == self.step_back_for(Some(v)),
            metrics.result_count == result_count,
    {
        let top: i64 = v.scroll_top as i64;
        let height: i64 = v.scroll_height as i64;
        let visible: i64 = v.client_height as i64;
        let (min_buffer, step_back) = self.get_thresholds(Some(v));
        ScrollMetrics {
            top_gap: 1000 * top,
            bottom_gap: 1000 * (height - top - visible),
            min_buffer,
            step_back,
            result_count,
        }
    }
}

/// A fraction of a height: `ratio` times `height`, in thousandths of the
/// height's unit.
fn scale(ratio: u32, height: i64) -> (scaled: i64)
    requires
        i32::MIN <= height <= i32::MAX,
    ensures
        scaled == ratio * height,
{
    assert(-0x7fff_ffff_8000_0000 <= ratio * height <= 0x7fff_ffff_8000_0000) by (nonlinear_arith)
        requires
            0 <= ratio <= 0xffff_ffff,
            -0x8000_0000 <= height <= 0x7fff_ffff,
    ;
    (ratio as i64) * height
}

/// The whole pixel that a position in millipixels falls on.
pub fn to_whole_pixels(position: i128) -> (px: i32)
    ensures
        px == whole_pixels(position as int),
{
    if position >= 0 {
        let px: i128 = position / 1000;
        if px > i32::MAX as i128 {
            i32::MAX
        } else {
            px as i32
        }
    } else if position == i128::MIN {
        i32::MIN
    } else {
        let px: i128 = (-position) / 1000;
        if px > 0x8000_0000 {
            i32::MIN
        } else {
            (-px) as i32
        }
    }
}

/// The command that moves a viewport standing at `current` whole pixels to
/// `target` millipixels, or `None` where the two are within a tenth of a
/// pixel of each other.
pub fn scroll_command(target: i128, current: i32) -> (command: Option<ScrollCommand>)
    ensures
        command == scroll_command_for(target as int, current),
{
    let here: i128 = 1000 * (current as i128);
    let tolerance: i128 = SCROLL_TOLERANCE as i128;
    let above: bool = target >= here && target - tolerance > here;
    let below: bool = target < here && target + tolerance < here;
    if above || below {
        Some(ScrollCommand { scroll_top: to_whole_pixels(target) })
    } else {
        None
    }
}

/// The nearest `i64` to `n`.
pub fn to_i64(n: i128) -> (clipped: i64)
    ensures
        clipped == clip_i64(n as int),
{
    if n < i64::MIN as i128 {
        i64::MIN
    } else if n > i64::MAX as i128 {
        i64::MAX
    } else {
        n as i64
    }
}

/// The corner of a measured box, in millipixels from the corner of the
/// viewport.
#[derive(Clone, Copy, Debug, PartialEq, Eq, Structural)]
pub struct Corner {
    /// Distance from the left edge.
    pub left: i64,
    /// Distance from the top edge.
    pub top: i64,
}

/// Where a box lies within its parent: the distances between the two left
/// edges and between the two top edges.
pub open spec fn offset_within(element: Corner, parent: Corner) -> (i64, i64) {
    (clip_i64(element.left - parent.left), clip_i64(element.top - parent.top))
}

/// Where an element lies within its parent, in millipixels: `None` for an
/// element without a parent.
pub fn offset_to_parent(element: Corner, parent: Option<Corner>) -> (offset: Option<(i64, i64)>)
    ensures
        offset == match parent {
            Some(p) => Some(offset_within(element, p)),
            None => None,
        },
{
    match parent {
        Some(p) => Some(
            (
                to_i64(element.left as i128 - p.left as i128),
                to_i64(element.top as i128 - p.top as i128),
            ),
        ),
        None => None,
    }
}

/// How far an anchor moved between two measurements of its offset.
pub fn shift_of(before: Option<i64>, after: Option<i64>) -> (shift: i128)
    ensures
        shift == anchor_shift(before, after),
{
    match after {
        None => 0,
        Some(a) => match before {
            None => a as i128,
            Some(b) => a as i128 - b as i128,
        },
    }
}

} // verus!
