//! How large the window is made for a picture, and where it is put.
use vstd::prelude::*;
use crate::overlay::Size;
use crate::session_model::PresentResult;
use crate::window::{Point, Rect};

verus! {

/// Where the window goes; without a place it stays where it is.
#[derive(Clone, Copy, Debug, PartialEq, Eq, Structural)]
pub struct WindowPlacement {
    pub origin: Option<Point>,
    pub width: i32,
    pub height: i32,
}

/// The smaller of two numbers.
pub open spec fn least(a: int, b: int) -> int {
    if a <= b {
        a
    } else {
        b
    }
}

/// The larger of two numbers.
pub open spec fn most(a: int, b: int) -> int {
    if a >= b {
        a
    } else {
        b
    }
}

/// Whether a picture has to be scaled down to fit into an area.
pub open spec fn exceeds(content: Size, area: Size) -> bool {
    content.width > area.width || content.height > area.height
}

/// The size at which a picture is shown in an area: its own, or where that is too
/// large, `scaled`.
pub fn fit_within(content: Size, area: Size, scaled: Size) -> (r: Size)
    ensures
        r == (if exceeds(content, area) {
            scaled
        } else {
            content
        }),
{
    if content.width > area.width || content.height > area.height {
        scaled
    } else {
        content
    }
}

/// The width of a picture that fills a height, given the width that it wants
/// there: at least one pixel, and no more than there is room for.
pub open spec fn filled_width(wanted: u32, max: Size) -> int {
    least(most(wanted as int, 1), max.width as int)
}

/// The width of a picture that fills a height.
pub fn fill_width(wanted: u32, max: Size) -> (r: u32)
    requires
        max.width > 0,
    ensures
        r == filled_width(wanted, max),
        1 <= r <= max.width,
{
    let at_least: u32 = if wanted >= 1 {
        wanted
    } else {
        1
    };
    if at_least <= max.width {
        at_least
    } else {
        max.width
    }
}

/// The size of a picture that fills a height, unless it is then too wide; then it
/// fills the width, and its height is `scaled_height`, within the same bounds.
pub fn fill_height(wanted: u32, scaled_height: u32, max: Size) -> (r: Size)
    requires
        max.width > 0,
        max.height > 0,
    ensures
        r.width == filled_width(wanted, max),
        r.height == (if filled_width(wanted, max) < wanted {
            least(most(scaled_height as int, 1), max.height as int)
        } else {
            max.height as int
        }),
{
    let width: u32 = fill_width(wanted, max);
    if width >= wanted {
        return Size { width, height: max.height };
    }
    let tall: u32 = if scaled_height >= 1 {
        scaled_height
    } else {
        1
    };
    let height: u32 = if tall <= max.height {
        tall
    } else {
        max.height
    };
    Size { width, height }
}

/// A picture that fills a height stays within its bounds, whatever it wants.
pub proof fn filled_stays_within(wanted: u32, scaled_height: u32, max: Size)
    requires
        max.width > 0,
        max.height > 0,
    ensures
        1 <= filled_width(wanted, max) <= max.width,
        1 <= least(most(scaled_height as int, 1), max.height as int) <= max.height,
        wanted <= max.width && wanted >= 1 ==> filled_width(wanted, max) == wanted,
{
}

/// Where a window for a new picture goes: no larger than the work area, and in
/// the middle of it if asked.
pub fn place_for_content(work: Rect, window: Size, center: bool) -> (r: WindowPlacement)
    requires
        work.measurable(),
        window.width <= i32::MAX,
        window.height <= i32::MAX,
    ensures
        r.width == least(window.width as int, work.extent().0),
        r.height == least(window.height as int, work.extent().1),
        r.origin == (if center {
            Some(
                Point {
                    x: (work.left + (work.extent().0 - r.width) / 2) as i32,
                    y: (work.top + (work.extent().1 - r.height) / 2) as i32,
                },
            )
        } else {
            None
        }),
{
    let area = work.size();
    let width: u32 = if window.width <= area.width {
        window.width
    } else {
        area.width
    };
    let height: u32 = if window.height <= area.height {
        window.height
    } else {
        area.height
    };
    let origin = if center {
        Some(
            Point {
                x: (work.left as i64 + ((area.width - width) / 2) as i64) as i32,
                y: (work.top as i64 + ((area.height - height) / 2) as i64) as i32,
            },
        )
    } else {
        None
    };
    WindowPlacement { origin, width: width as i32, height: height as i32 }
}

/// A coordinate kept at or above `low`, and then at or below `high`.
pub open spec fn kept(v: int, low: int, high: int) -> int {
    least(most(v, low), high)
}

fn keep(v: i32, low: i32, high: i32) -> (r: i32)
    ensures
        r == kept(v as int, low as int, high as int),
{
    let raised: i32 = if v >= low {
        v
    } else {
        low
    };
    if raised <= high {
        raised
    } else {
        high
    }
}

/// Half of a number, rounded towards zero.
pub open spec fn half(n: int) -> int {
    if n >= 0 {
        n / 2
    } else {
        -((-n) / 2)
    }
}

fn halve(n: i32) -> (r: i32)
    ensures
        r == half(n as int),
{
    let wide: i64 = n as i64;
    if n >= 0 {
        n / 2
    } else {
        (-((-wide) / 2)) as i32
    }
}

/// Where a window of another size goes: its centre stays above the same column,
/// as far as the work area allows.
pub open spec fn recentred(old: Rect, work: Rect, width: int) -> int {
    kept(half(old.left + old.right) - half(width), work.left as int, work.right - width)
}

/// Whether a coordinate fits its type.
pub open spec fn fits(n: int) -> bool {
    i32::MIN <= n <= i32::MAX
}

/// Whether the coordinates for that can be computed.
pub open spec fn can_recentre(old: Rect, work: Rect, width: int) -> bool {
    &&& fits(old.left + old.right)
    &&& fits(half(old.left + old.right) - half(width))
    &&& fits(work.right - width)
}

fn recentre(old_window: Rect, work: Rect, width: i32) -> (r: i32)
    requires
        can_recentre(old_window, work, width as int),
    ensures
        r == recentred(old_window, work, width as int),
{
    let center: i32 = halve(old_window.left + old_window.right);
    keep(center - halve(width), work.left, work.right - width)
}

/// Where a window that fills the height of the work area goes: at its top.
pub fn place_filling(old_window: Rect, work: Rect, width: i32, height: i32) -> (r: WindowPlacement)
    requires
        can_recentre(old_window, work, width as int),
    ensures
        r == (WindowPlacement {
            origin: Some(Point { x: recentred(old_window, work, width as int) as i32, y: work.top }),
            width,
            height,
        }),
{
    let x: i32 = recentre(old_window, work, width);
    WindowPlacement { origin: Some(Point { x, y: work.top }), width, height }
}

/// Where a window of a chosen size goes: its top edge stays, as far as the work
/// area allows.
pub fn place_resized(old_window: Rect, work: Rect, width: i32, height: i32) -> (r: WindowPlacement)
    requires
        can_recentre(old_window, work, width as int),
        fits(work.bottom - height),
    ensures
        r == (WindowPlacement {
            origin: Some(
                Point {
                    x: recentred(old_window, work, width as int) as i32,
                    y: kept(old_window.top as int, work.top as int, work.bottom - height) as i32,
                },
            ),
            width,
            height,
        }),
{
    let x: i32 = recentre(old_window, work, width);
    let y: i32 = keep(old_window.top, work.top, work.bottom - height);
    WindowPlacement { origin: Some(Point { x, y }), width, height }
}

/// A window that fits into the work area is put inside it.
pub proof fn resized_window_stays_inside(old: Rect, work: Rect, width: int)
    requires
        0 <= width <= work.right - work.left,
    ensures
        work.left <= recentred(old, work, width),
        recentred(old, work, width) + width <= work.right,
{
}

/// The cursor in the client area, if it is inside.
pub fn cursor_inside(cursor: Point, client: Size) -> (r: Option<Point>)
    ensures
        r == (if 0 <= cursor.x < client.width && 0 <= cursor.y < client.height {
            Some(cursor)
        } else {
            None
        }),
{
    if cursor.x < 0 || cursor.y < 0 || cursor.x as u32 >= client.width || cursor.y as u32
        >= client.height {
        None
    } else {
        Some(cursor)
    }
}

/// What the status of a present call means; `None` is an error of another kind.
pub open spec fn present_meaning(status: i32) -> Option<PresentResult> {
    if status == 0x087A_0001 {
        Some(PresentResult::Occluded)
    } else if status >= 0 {
        Some(PresentResult::Shown)
    } else if status == -0x7785_FFFB || status == -0x7785_FFF9 {
        Some(PresentResult::DeviceLost)
    } else {
        None
    }
}

/// What the status of a present call means.
pub fn classify_present(status: i32) -> (r: Option<PresentResult>)
    ensures
        r == present_meaning(status),
{
    if status == 0x087A_0001 {
        Some(PresentResult::Occluded)
    } else if status >= 0 {
        Some(PresentResult::Shown)
    } else if status == -0x7785_FFFB || status == -0x7785_FFF9 {
        Some(PresentResult::DeviceLost)
    } else {
        None
    }
}

/// The style bits of a window with a frame.
pub const STYLE_OVERLAPPED: u32 = 0x00CF_0000;

/// The style bit of a window without one.
pub const STYLE_POPUP: u32 = 0x8000_0000;

/// The style of a window that loses its frame.
pub open spec fn frameless(style: u32) -> u32 {
    (style & !STYLE_OVERLAPPED) | STYLE_POPUP
}

/// Whether the window has lost its frame, and the style it had before.
#[derive(Clone, Copy, Debug, PartialEq, Eq, Structural)]
pub struct FrameState {
    pub is_borderless: bool,
    pub saved_style: u32,
}

/// What to do with the window.
#[derive(Clone, Copy, Debug, PartialEq, Eq, Structural)]
pub enum FrameStep {
    /// Set this style and put the window where it was.
    Restore(u32),
    /// Remember where the window is, set this style and fill the screen.
    FillScreen(u32),
}

impl FrameState {
    /// A window with a frame.
    pub fn new() -> (r: Self)
        ensures
            r == (FrameState { is_borderless: false, saved_style: STYLE_OVERLAPPED }),
    {
        FrameState { is_borderless: false, saved_style: STYLE_OVERLAPPED }
    }

    /// After the switch to the whole screen or back.
    pub open spec fn toggled(self, style: u32) -> (Self, FrameStep) {
        if self.is_borderless {
            (FrameState { is_borderless: false, ..self }, FrameStep::Restore(self.saved_style))
        } else {
            (
                FrameState { is_borderless: true, saved_style: style },
                FrameStep::FillScreen(frameless(style)),
            )
        }
    }

    /// Switches to the whole screen or back; `style` is the style at hand.
    pub fn toggle_borderless_fullscreen(&mut self, style: u32) -> (r: FrameStep)
        ensures
            (*final(self), r) == old(self).toggled(style),
    {
        if self.is_borderless {
            self.is_borderless = false;
            FrameStep::Restore(self.saved_style)
        } else {
            self.is_borderless = true;
            self.saved_style = style;
            FrameStep::FillScreen((style & !STYLE_OVERLAPPED) | STYLE_POPUP)
        }
    }
}

/// Switching to the whole screen and back restores the style.
pub proof fn whole_screen_and_back_restores_the_style(f: FrameState, style: u32, then: u32)
    requires
        !f.is_borderless,
    ensures
        ({
            let (full, _) = f.toggled(style);
            full.toggled(then).1 == FrameStep::Restore(style) && !full.toggled(then).0.is_borderless
        }),
{
}

/// Without a frame no bit of a frame is left.
pub proof fn frameless_has_no_frame(style: u32)
    ensures
        frameless(style) & STYLE_OVERLAPPED == 0,
        frameless(style) & STYLE_POPUP == STYLE_POPUP,
{
    assert(((style & !0x00CF_0000u32) | 0x8000_0000u32) & 0x00CF_0000u32 == 0) by (bit_vector);
    assert(((style & !0x00CF_0000u32) | 0x8000_0000u32) & 0x8000_0000u32 == 0x8000_0000u32)
        by (bit_vector);
}

/// A window keeps its centre where the work area allows it, and is moved no further
/// than to its edge where it does not.
pub proof fn window_keeps_its_centre(old: Rect, work: Rect, width: int)
    requires
        0 <= width <= work.right - work.left,
    ensures
        ({
            let x = recentred(old, work, width);
            let centre = half(old.left + old.right) - half(width);
            &&& (work.left <= centre && centre + width <= work.right ==> x == centre)
            &&& (centre < work.left ==> x == work.left)
            &&& (centre + width > work.right ==> x + width == work.right)
        }),
        width % 2 == 0 && (old.left + old.right) % 2 == 0 && old.left + old.right >= 0 ==> 2 * half(
            old.left + old.right,
        ) == old.left + old.right && 2 * half(width) == width,
{
}

/// What the device says about a picture: shown, hidden, or that the device is lost;
/// any other error is one.
pub proof fn device_says_how_showing_went(status: i32)
    ensures
        present_meaning(0) == Some(PresentResult::Shown),
        present_meaning(0x087A_0001) == Some(PresentResult::Occluded),
        status >= 0 ==> present_meaning(status) is Some && present_meaning(status) != Some(
            PresentResult::DeviceLost,
        ),
        status < 0 ==> present_meaning(status) is None || present_meaning(status) == Some(
            PresentResult::DeviceLost,
        ),
        present_meaning((-0x7785_FFFB) as i32) == Some(PresentResult::DeviceLost),
        present_meaning((-0x7785_FFF9) as i32) == Some(PresentResult::DeviceLost),
{
}

} // verus!
