//! Where overlays go on the picture. Places are counted in half pixels, from the
//! top left.
use vstd::prelude::*;
use crate::overlay::Size;

verus! {

/// A place, in half pixels.
#[derive(Clone, Copy, Debug, PartialEq, Eq, Structural)]
pub struct Place {
    pub left: u64,
    pub top: u64,
    pub right: u64,
    pub bottom: u64,
}

/// The larger number.
pub open spec fn larger(a: int, b: int) -> int {
    if a >= b {
        a
    } else {
        b
    }
}

/// The smaller number.
pub open spec fn smaller(a: int, b: int) -> int {
    if a <= b {
        a
    } else {
        b
    }
}

impl Place {
    /// Made of whole pixels.
    pub open spec fn of_pixels(left: int, top: int, right: int, bottom: int) -> Self {
        Place {
            left: (2 * left) as u64,
            top: (2 * top) as u64,
            right: (2 * right) as u64,
            bottom: (2 * bottom) as u64,
        }
    }
}

fn larger_of(a: u64, b: u64) -> (r: u64)
    ensures
        r == larger(a as int, b as int),
{
    if a >= b {
        a
    } else {
        b
    }
}

fn smaller_of(a: u64, b: u64) -> (r: u64)
    ensures
        r == smaller(a as int, b as int),
{
    if a <= b {
        a
    } else {
        b
    }
}

/// A difference, at least zero.
fn less(a: u64, b: u64) -> (r: u64)
    ensures
        r == larger(a - b, 0),
{
    if a >= b {
        a - b
    } else {
        0
    }
}

/// How far subtitles stay from the lower edge, in pixels.
pub open spec fn subtitle_margin(view: Size) -> int {
    larger(view.height as int / 18, 24)
}

/// Where subtitles go, in pixels: in the middle, above the lower edge.
pub open spec fn subtitle_place_spec(overlay: Size, view: Size) -> Place {
    let left = larger(view.width - overlay.width, 0) / 2;
    let top = larger(view.height - subtitle_margin(view) - overlay.height, 0);
    Place::of_pixels(
        left,
        top,
        left + overlay.width,
        smaller(top + overlay.height, view.height as int),
    )
}

/// Where subtitles go.
pub fn subtitle_place(overlay: Size, view: Size) -> (r: Place)
    ensures
        r == subtitle_place_spec(overlay, view),
{
    let (ow, oh): (u64, u64) = (overlay.width as u64, overlay.height as u64);
    let (vw, vh): (u64, u64) = (view.width as u64, view.height as u64);
    let margin: u64 = larger_of(vh / 18, 24);
    let left: u64 = less(vw, ow) / 2;
    let top: u64 = less(vh, margin + oh);
    let bottom: u64 = smaller_of(top + oh, vh);
    Place { left: 2 * left, top: 2 * top, right: 2 * (left + ow), bottom: 2 * bottom }
}

/// Where the timeline goes, in pixels: over the whole width, ten rows above the
/// lower edge.
pub open spec fn timeline_place_spec(overlay_height: u32, view: Size) -> Place {
    let top = larger(view.height - overlay_height - 10, 0);
    Place::of_pixels(
        0,
        top,
        view.width as int,
        smaller(top + overlay_height, view.height as int),
    )
}

/// Where the timeline goes.
pub fn timeline_place(overlay_height: u32, view: Size) -> (r: Place)
    ensures
        r == timeline_place_spec(overlay_height, view),
{
    let (oh, vh): (u64, u64) = (overlay_height as u64, view.height as u64);
    let top: u64 = less(vh, oh + 10);
    let bottom: u64 = smaller_of(top + oh, vh);
    Place { left: 0, top: 2 * top, right: 2 * (view.width as u64), bottom: 2 * bottom }
}

/// Where the volume goes, in pixels: at the upper right, with some margin.
pub open spec fn volume_place_spec(overlay: Size, view: Size) -> Place {
    let right = larger(view.width - 16, overlay.width as int);
    Place::of_pixels(
        right - overlay.width,
        16,
        right,
        smaller(16 + overlay.height, view.height as int),
    )
}

/// Where the volume goes.
pub fn volume_place(overlay: Size, view: Size) -> (r: Place)
    ensures
        r == volume_place_spec(overlay, view),
{
    let (ow, oh): (u64, u64) = (overlay.width as u64, overlay.height as u64);
    let (vw, vh): (u64, u64) = (view.width as u64, view.height as u64);
    let right: u64 = larger_of(less(vw, 16), ow);
    let bottom: u64 = smaller_of(16 + oh, vh);
    Place { left: 2 * (right - ow), top: 32, right: 2 * right, bottom: 2 * bottom }
}

/// Where a panel goes, in half pixels: in the middle of the view.
pub open spec fn idle_place_spec(overlay: Size, view: Size) -> Place {
    let left = larger(view.width - overlay.width, 0);
    let top = larger(view.height - overlay.height, 0);
    Place {
        left: left as u64,
        top: top as u64,
        right: smaller(left + 2 * overlay.width, 2 * view.width) as u64,
        bottom: smaller(top + 2 * overlay.height, 2 * view.height) as u64,
    }
}

/// Where a panel goes.
pub fn idle_place(overlay: Size, view: Size) -> (r: Place)
    ensures
        r == idle_place_spec(overlay, view),
{
    let (ow, oh): (u64, u64) = (overlay.width as u64, overlay.height as u64);
    let (vw, vh): (u64, u64) = (view.width as u64, view.height as u64);
    let left: u64 = less(vw, ow);
    let top: u64 = less(vh, oh);
    let right: u64 = smaller_of(left + 2 * ow, 2 * vw);
    let bottom: u64 = smaller_of(top + 2 * oh, 2 * vh);
    Place { left, top, right, bottom }
}

/// Whether the texture of an overlay can be used for another one of this size.
pub fn overlay_is_reusable(existing: Option<Size>, overlay: Size) -> (r: bool)
    ensures
        r == (existing == Some(overlay)),
{
    match existing {
        Some(size) => size.width == overlay.width && size.height == overlay.height,
        None => false,
    }
}

/// Subtitles that fit keep their size, stand in the middle to half a pixel, and
/// leave the margin below them free.
pub proof fn subtitles_keep_the_margin(overlay: Size, view: Size)
    requires
        overlay.width <= view.width,
        overlay.height + subtitle_margin(view) <= view.height,
    ensures
        ({
            let p = subtitle_place_spec(overlay, view);
            &&& p.right - p.left == 2 * overlay.width
            &&& p.bottom - p.top == 2 * overlay.height
            &&& p.bottom + 2 * subtitle_margin(view) == 2 * view.height
            &&& 0 <= (2 * view.width - p.right) - p.left <= 2
        }),
{
}

/// A panel that fits keeps its size and stands exactly in the middle.
pub proof fn panel_stands_in_the_middle(overlay: Size, view: Size)
    requires
        overlay.width <= view.width,
        overlay.height <= view.height,
    ensures
        ({
            let p = idle_place_spec(overlay, view);
            &&& p.right - p.left == 2 * overlay.width
            &&& p.bottom - p.top == 2 * overlay.height
            &&& p.left + p.right == 2 * view.width
            &&& p.top + p.bottom == 2 * view.height
        }),
{
}

/// Subtitles that keep their margin and a timeline of at most that height less
/// ten rows do not overlap.
pub proof fn subtitles_stay_above_the_timeline(overlay: Size, timeline_height: u32, view: Size)
    requires
        overlay.height + subtitle_margin(view) <= view.height,
        timeline_height + 10 <= subtitle_margin(view),
    ensures
        subtitle_place_spec(overlay, view).bottom <= timeline_place_spec(timeline_height, view).top,
{
}

/// The margin below subtitles is an eighteenth of the view, and at least 24 rows.
pub proof fn subtitle_margin_is_an_eighteenth(view: Size)
    ensures
        subtitle_margin(view) >= 24,
        view.height >= 432 ==> subtitle_margin(view) == view.height / 18,
        view.height < 432 ==> subtitle_margin(view) == 24,
{
}

/// The timeline takes the whole width and ends ten rows above the lower edge.
pub proof fn timeline_lies_at_the_lower_edge(height: u32, view: Size)
    requires
        height + 10 <= view.height,
    ensures
        ({
            let p = timeline_place_spec(height, view);
            &&& p.left == 0
            &&& p.right == 2 * view.width
            &&& p.bottom == 2 * (view.height - 10)
            &&& p.bottom - p.top == 2 * height
        }),
{
}

/// The volume stands at the upper right, sixteen pixels from both edges.
pub proof fn volume_stands_at_the_upper_right(overlay: Size, view: Size)
    requires
        overlay.width + 16 <= view.width,
        overlay.height + 16 <= view.height,
    ensures
        ({
            let p = volume_place_spec(overlay, view);
            &&& p.right == 2 * (view.width - 16)
            &&& p.right - p.left == 2 * overlay.width
            &&& p.top == 32
            &&& p.bottom - p.top == 2 * overlay.height
        }),
{
}

} // verus!
