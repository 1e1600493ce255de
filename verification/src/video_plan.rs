//! How a decoded picture is put on the screen: what can be reused, where it
//! goes, and which corner shows where.
use vstd::prelude::*;
use crate::decode_math::{display_size, SurfaceColor};
use crate::overlay::Size;
use crate::window::Rect;

verus! {

/// What a video processor was made for.
#[derive(Clone, Copy, Debug, PartialEq, Eq, Structural)]
pub struct ProcessorKey {
    pub input: Size,
    pub output: Size,
    /// Tells one back buffer from another.
    pub backbuffer: u64,
}

/// A decoded picture, as far as its place on the screen depends on it.
#[derive(Clone, Copy, Debug, PartialEq, Eq, Structural)]
pub struct SurfaceInfo {
    pub size: Size,
    pub sar_num: u32,
    pub sar_den: u32,
    pub color: SurfaceColor,
    /// Whether its colours have to be mapped by a shader.
    pub needs_tone_map: bool,
}

/// How a picture is drawn by the video processor.
#[derive(Clone, Copy, Debug, PartialEq, Eq, Structural)]
pub struct VideoPlan {
    /// Whether the processor at hand can be used.
    pub reuse: bool,
    pub key: ProcessorKey,
    /// The sizes that a processor is made for, where it cannot be reused.
    pub content_input: Size,
    pub content_output: Size,
    pub rotation_quarter_turns: u8,
    /// Where the picture goes without zoom.
    pub base: Rect,
    pub color_space_bits: u32,
}

/// At least one.
pub open spec fn one_or_more(n: int) -> int {
    if n >= 1 {
        n
    } else {
        1
    }
}

/// How a picture fits into an output with its shape kept: as high as the output
/// and this wide, or as wide as the output and this high.
#[derive(Clone, Copy, Debug, PartialEq, Eq, Structural)]
pub enum FittedSide {
    Width(i32),
    Height(i32),
}

impl FittedSide {
    /// The size of the fitted picture.
    pub open spec fn size_in(self, output: Size) -> (int, int) {
        match self {
            FittedSide::Width(w) => (w as int, output.height as int),
            FittedSide::Height(h) => (output.width as int, h as int),
        }
    }

    /// Whether the side has a length.
    pub open spec fn wf(self) -> bool {
        match self {
            FittedSide::Width(w) => w >= 0,
            FittedSide::Height(h) => h >= 0,
        }
    }
}

/// Where a span of a length begins that stands in the middle of a side, not before
/// its start.
pub open spec fn middle_start(side: int, length: int) -> int {
    if length <= side {
        (side - length) / 2
    } else {
        0
    }
}

/// The rectangle for a picture: in the middle, and at least one pixel each way.
/// Without area to show or to show on it is all of the output.
pub open spec fn fit_rect(source: Size, output: Size, side: FittedSide) -> Rect {
    if source.width == 0 || source.height == 0 || output.width == 0 || output.height == 0 {
        whole(output)
    } else {
        let (w, h) = side.size_in(output);
        let left = middle_start(output.width as int, w);
        let top = middle_start(output.height as int, h);
        Rect {
            left: left as i32,
            top: top as i32,
            right: (left + one_or_more(w)) as i32,
            bottom: (top + one_or_more(h)) as i32,
        }
    }
}

fn middle(side: i32, length: i32) -> (r: i32)
    requires
        0 <= side,
        0 <= length,
    ensures
        r == middle_start(side as int, length as int),
        0 <= r,
        r + length <= side || r == 0,
        r == 0 || r < side,
{
    if length <= side {
        (side - length) / 2
    } else {
        0
    }
}

/// The rectangle for a picture that was fitted into an output.
pub fn aspect_fit_rect(source: Size, output: Size, side: FittedSide) -> (r: Rect)
    requires
        output.width <= i32::MAX,
        output.height <= i32::MAX,
        side.wf(),
    ensures
        r == fit_rect(source, output, side),
{
    let width: i32 = output.width as i32;
    let height: i32 = output.height as i32;
    if source.width == 0 || source.height == 0 || width == 0 || height == 0 {
        return Rect { left: 0, top: 0, right: width, bottom: height };
    }
    let (w, h): (i32, i32) = match side {
        FittedSide::Width(w) => (w, height),
        FittedSide::Height(h) => (width, h),
    };
    let left: i32 = middle(width, w);
    let top: i32 = middle(height, h);
    Rect {
        left,
        top,
        right: left + if w >= 1 {
            w
        } else {
            1
        },
        bottom: top + if h >= 1 {
            h
        } else {
            1
        },
    }
}

/// A fitted picture touches two opposite edges of the output.
pub proof fn fitted_picture_touches_edges(source: Size, output: Size, side: FittedSide)
    requires
        output.width <= i32::MAX,
        output.height <= i32::MAX,
        side.wf(),
    ensures
        ({
            let r = fit_rect(source, output, side);
            (r.left == 0 && r.right == output.width) || (r.top == 0 && r.bottom == output.height)
        }),
{
}

/// The bits that tell the video processor how colours are coded.
pub open spec fn color_bits(color: SurfaceColor) -> u32 {
    (if color.bt709 {
        4u32
    } else {
        0u32
    } + if color.full_range {
        32u32
    } else {
        16u32
    }) as u32
}

/// The bits that tell the video processor how colours are coded.
pub fn color_space_bits(color: SurfaceColor) -> (r: u32)
    ensures
        r == color_bits(color),
{
    let matrix: u32 = if color.bt709 {
        4
    } else {
        0
    };
    let range: u32 = if color.full_range {
        32
    } else {
        16
    };
    matrix + range
}

/// Why a picture is not drawn.
#[derive(Clone, Copy, Debug, PartialEq, Eq, Structural)]
pub enum RenderError {
    /// Its colours have to be mapped, which the video processor does not do.
    NeedsToneMap,
    /// Its pixels cannot be read plane by plane.
    NotPlanar,
}

impl RenderError {
    /// The words for the error.
    pub fn message(&self) -> (r: &'static str)
        ensures
            r@ == (match *self {
                RenderError::NeedsToneMap => "HDR surface routed to the SDR video-processor path"@,
                RenderError::NotPlanar => "HDR tone mapping needs an NV12 or P010 decoded frame"@,
            }),
    {
        match self {
            RenderError::NeedsToneMap => "HDR surface routed to the SDR video-processor path",
            RenderError::NotPlanar => "HDR tone mapping needs an NV12 or P010 decoded frame",
        }
    }
}

/// The size of a picture as it appears: an odd number of quarter turns swaps
/// width and height.
pub open spec fn turned_size(surface: SurfaceInfo, turns: u8) -> Size {
    let w = (surface.size.width * surface.sar_num / (surface.sar_den as int)) as u32;
    let h = surface.size.height;
    if turns % 2 == 1 {
        Size { width: h, height: w }
    } else {
        Size { width: w, height: h }
    }
}

/// The size of a picture as it appears.
pub fn presented_size(surface: SurfaceInfo, rotation_quarter_turns: u8) -> (r: Size)
    requires
        surface.sar_den > 0,
        surface.size.width * surface.sar_num <= u32::MAX,
    ensures
        r == turned_size(surface, rotation_quarter_turns),
{
    let (w, h) = display_size(
        surface.size.width,
        surface.size.height,
        surface.sar_num,
        surface.sar_den,
    );
    if rotation_quarter_turns % 2 == 1 {
        Size { width: h, height: w }
    } else {
        Size { width: w, height: h }
    }
}

/// Plans how the video processor draws a picture. `side` says how the picture, as
/// `presented_size` gives it, fits into the output.
pub fn render_video_surface(
    surface: SurfaceInfo,
    output: Size,
    backbuffer: u64,
    rotation_quarter_turns: u8,
    side: FittedSide,
    cached: Option<ProcessorKey>,
) -> (r: Result<VideoPlan, RenderError>)
    requires
        surface.sar_den > 0,
        surface.size.width * surface.sar_num <= u32::MAX,
        output.width <= i32::MAX,
        output.height <= i32::MAX,
        side.wf(),
    ensures
        match r {
            Ok(plan) => {
                &&& !surface.needs_tone_map
                &&& plan.key == (ProcessorKey { input: surface.size, output, backbuffer })
                &&& plan.reuse == (cached == Some(plan.key))
                &&& plan.content_input == at_least_a_pixel(surface.size)
                &&& plan.content_output == at_least_a_pixel(output)
                &&& plan.rotation_quarter_turns == rotation_quarter_turns % 4
                &&& plan.base == fit_rect(
                    turned_size(surface, rotation_quarter_turns),
                    output,
                    side,
                )
                &&& plan.color_space_bits == color_bits(surface.color)
            },
            Err(e) => surface.needs_tone_map && e == RenderError::NeedsToneMap,
        },
{
    if surface.needs_tone_map {
        return Err(RenderError::NeedsToneMap);
    }
    let key = ProcessorKey { input: surface.size, output, backbuffer };
    let reuse = match cached {
        Some(c) => c == key,
        None => false,
    };
    let shown = presented_size(surface, rotation_quarter_turns);
    let base = aspect_fit_rect(shown, output, side);
    Ok(
        VideoPlan {
            reuse,
            key,
            content_input: grown(surface.size),
            content_output: grown(output),
            rotation_quarter_turns: rotation_quarter_turns % 4,
            base,
            color_space_bits: color_space_bits(surface.color),
        },
    )
}

/// Which corner of the picture a corner of its place shows, both counted
/// clockwise from the top left, when the picture is turned clockwise.
pub open spec fn shown_corner(corner: int, turns: u8) -> int {
    (corner + 4 - (turns % 4)) % 4
}

/// Which corner of the picture a corner of its place shows.
pub fn source_corner(corner: u8, rotation_quarter_turns: u8) -> (r: u8)
    requires
        corner < 4,
    ensures
        r == shown_corner(corner as int, rotation_quarter_turns),
        r < 4,
{
    (corner + 4 - rotation_quarter_turns % 4) % 4
}

/// Every corner of the picture is shown once.
pub proof fn corners_are_permuted(a: int, b: int, turns: u8)
    requires
        0 <= a < 4,
        0 <= b < 4,
        shown_corner(a, turns) == shown_corner(b, turns),
    ensures
        a == b,
{
}

/// After a quarter turn the top right shows what the top left showed.
pub proof fn quarter_turn_moves_corners(corner: int, turns: u8)
    requires
        0 <= corner < 4,
        turns < 3,
    ensures
        shown_corner((corner + 1) % 4, (turns + 1) as u8) == shown_corner(corner, turns),
{
}

/// How the pixels of a decoded picture are stored.
#[derive(Clone, Copy, Debug, PartialEq, Eq, Structural)]
pub enum SurfaceFormat {
    Nv12,
    P010,
    Other,
}

/// How a plane of a picture is read.
#[derive(Clone, Copy, Debug, PartialEq, Eq, Structural)]
pub enum PlaneFormat {
    R8,
    R8G8,
    R16,
    R16G16,
}

/// How the brightness and the colour of a picture are read.
pub fn plane_srv_formats(format: SurfaceFormat) -> (r: Result<
    (PlaneFormat, PlaneFormat),
    RenderError,
>)
    ensures
        r == (match format {
            SurfaceFormat::P010 => Ok::<(PlaneFormat, PlaneFormat), RenderError>(
                (PlaneFormat::R16, PlaneFormat::R16G16),
            ),
            SurfaceFormat::Nv12 => Ok::<(PlaneFormat, PlaneFormat), RenderError>(
                (PlaneFormat::R8, PlaneFormat::R8G8),
            ),
            SurfaceFormat::Other => Err::<(PlaneFormat, PlaneFormat), RenderError>(
                RenderError::NotPlanar,
            ),
        }),
{
    match format {
        SurfaceFormat::P010 => Ok((PlaneFormat::R16, PlaneFormat::R16G16)),
        SurfaceFormat::Nv12 => Ok((PlaneFormat::R8, PlaneFormat::R8G8)),
        SurfaceFormat::Other => Err(RenderError::NotPlanar),
    }
}

/// How the brightness of a picture is coded.
#[derive(Clone, Copy, Debug, PartialEq, Eq, Structural)]
pub enum HdrTransfer {
    Pq,
    Hlg,
}

/// The code values between which a picture is coded. A brightness code stands
/// for its distance from `luma_zero`, in units of `luma_span`; a colour code for
/// its distance from `chroma_zero`, in units of `chroma_span`.
#[derive(Clone, Copy, Debug, PartialEq, Eq, Structural)]
pub struct ToneMapLevels {
    /// The largest code.
    pub max_code: u32,
    pub luma_zero: u32,
    pub luma_span: u32,
    pub chroma_zero: u32,
    pub chroma_span: u32,
    /// What a code is multiplied by where it is stored in a wider word.
    pub code_step: u32,
    /// The largest word.
    pub max_word: u32,
    /// Tells the shader how brightness is coded.
    pub transfer: u32,
}

/// The code values of a picture: those of studios leave room at both ends, the
/// full range does not. Ten-bit codes are stored in the upper bits of a word.
pub fn tone_map_levels(transfer: HdrTransfer, full_range: bool, ten_bit: bool) -> (r: ToneMapLevels)
    ensures
        r.max_code == (if ten_bit {
            1023u32
        } else {
            255
        }),
        (r.luma_zero, r.luma_span) == (if full_range {
            (0u32, r.max_code)
        } else if ten_bit {
            (64, 876)
        } else {
            (16, 219)
        }),
        r.chroma_zero == (if ten_bit {
            512u32
        } else {
            128
        }),
        r.chroma_span == (if full_range {
            r.max_code
        } else if ten_bit {
            896
        } else {
            224
        }),
        (r.code_step, r.max_word) == (if ten_bit {
            (64u32, 65535u32)
        } else {
            (1, 255)
        }),
        r.transfer == (match transfer {
            HdrTransfer::Pq => 0u32,
            HdrTransfer::Hlg => 1,
        }),
{
    let max_code: u32 = if ten_bit {
        1023
    } else {
        255
    };
    let (luma_zero, luma_span): (u32, u32) = if full_range {
        (0, max_code)
    } else if ten_bit {
        (64, 876)
    } else {
        (16, 219)
    };
    let chroma_zero: u32 = if ten_bit {
        512
    } else {
        128
    };
    let chroma_span: u32 = if full_range {
        max_code
    } else if ten_bit {
        896
    } else {
        224
    };
    let (code_step, max_word): (u32, u32) = if ten_bit {
        (64, 65535)
    } else {
        (1, 255)
    };
    let transfer: u32 = match transfer {
        HdrTransfer::Pq => 0,
        HdrTransfer::Hlg => 1,
    };
    ToneMapLevels {
        max_code,
        luma_zero,
        luma_span,
        chroma_zero,
        chroma_span,
        code_step,
        max_word,
        transfer,
    }
}

/// Why a picture with a large range of brightness is not shown.
#[derive(Clone, Copy, Debug, PartialEq, Eq, Structural)]
pub enum HdrError {
    /// No colour space is known to be right for the picture.
    ColorSpaceUnverified,
    /// The driver cannot be told the colour space.
    VideoContext1Unavailable,
    /// The driver does not offer the conversion.
    FormatConversionUnsupported,
}

/// How a trial picture is drawn.
#[derive(Clone, Copy, Debug, PartialEq, Eq, Structural)]
pub struct HdrTrial {
    /// What the video processor is made for.
    pub input: Size,
    pub output: Size,
    pub stream_color_space: i32,
    pub output_color_space: i32,
    pub source: Rect,
    pub target: Rect,
}

/// At least one pixel each way.
pub open spec fn at_least_a_pixel(size: Size) -> Size {
    Size {
        width: one_or_more(size.width as int) as u32,
        height: one_or_more(size.height as int) as u32,
    }
}

/// The whole of a picture.
pub open spec fn whole(size: Size) -> Rect {
    Rect { left: 0, top: 0, right: size.width as i32, bottom: size.height as i32 }
}

/// Plans the trial of an HDR conversion: the whole picture on the whole target,
/// in the colour space that was forced, or else in the one that is right for it.
/// The colour space of the output comes first, then that of the picture, then the
/// driver.
pub fn hdr10_validation_blt(
    size: Size,
    output: Size,
    output_color_space: Result<i32, HdrError>,
    forced: Option<i32>,
    resolved: Result<i32, HdrError>,
    context_available: bool,
) -> (r: Result<HdrTrial, HdrError>)
    requires
        size.width <= i32::MAX,
        size.height <= i32::MAX,
        output.width <= i32::MAX,
        output.height <= i32::MAX,
    ensures
        ({
            let stream = match forced {
                Some(space) => Ok::<i32, HdrError>(space),
                None => resolved,
            };
            match (output_color_space, stream) {
                (Err(e), _) => r == Err::<HdrTrial, HdrError>(e),
                (Ok(_), Err(e)) => r == Err::<HdrTrial, HdrError>(e),
                (Ok(shown), Ok(read)) => if !context_available {
                    r == Err::<HdrTrial, HdrError>(HdrError::VideoContext1Unavailable)
                } else {
                    r == Ok::<HdrTrial, HdrError>(
                        HdrTrial {
                            input: at_least_a_pixel(size),
                            output: at_least_a_pixel(output),
                            stream_color_space: read,
                            output_color_space: shown,
                            source: whole(size),
                            target: whole(output),
                        },
                    )
                },
            }
        }),
{
    let shown: i32 = match output_color_space {
        Ok(space) => space,
        Err(e) => return Err(e),
    };
    let read: i32 = match forced {
        Some(space) => space,
        None => match resolved {
            Ok(space) => space,
            Err(e) => return Err(e),
        },
    };
    if !context_available {
        return Err(HdrError::VideoContext1Unavailable);
    }
    Ok(
        HdrTrial {
            input: grown(size),
            output: grown(output),
            stream_color_space: read,
            output_color_space: shown,
            source: Rect { left: 0, top: 0, right: size.width as i32, bottom: size.height as i32 },
            target: Rect {
                left: 0,
                top: 0,
                right: output.width as i32,
                bottom: output.height as i32,
            },
        },
    )
}

fn grown(size: Size) -> (r: Size)
    ensures
        r == at_least_a_pixel(size),
{
    Size {
        width: if size.width >= 1 {
            size.width
        } else {
            1
        },
        height: if size.height >= 1 {
            size.height
        } else {
            1
        },
    }
}

/// Whether the trial of an HDR conversion goes on: it is refused where the
/// processor does not offer it, unless a colour space was forced.
pub fn hdr_trial_goes_on(conversion_supported: bool, forced: bool) -> (r: Result<(), HdrError>)
    ensures
        match r {
            Ok(()) => conversion_supported || forced,
            Err(e) => !conversion_supported && !forced && e
                == HdrError::FormatConversionUnsupported,
        },
{
    if !conversion_supported && !forced {
        return Err(HdrError::FormatConversionUnsupported);
    }
    Ok(())
}

/// A picture on its side has its width and height swapped; pixels that are not square
/// stretch its width.
pub proof fn picture_appears_turned_and_stretched(surface: SurfaceInfo, turns: u8)
    requires
        surface.sar_den > 0,
        surface.sar_num == surface.sar_den,
        surface.size.width * surface.sar_num <= u32::MAX,
    ensures
        turns % 2 == 0 ==> turned_size(surface, turns) == surface.size,
        turns % 2 == 1 ==> turned_size(surface, turns) == (Size {
            width: surface.size.height,
            height: surface.size.width,
        }),
{
    let n = surface.sar_num as int;
    assert(surface.size.width * n / n == surface.size.width) by (nonlinear_arith)
        requires
            n > 0,
    ;
}

/// A fitted picture stands in the middle: what is left over is the same on both sides,
/// to a pixel.
pub proof fn fitted_picture_stands_in_the_middle(source: Size, output: Size, side: FittedSide)
    requires
        source.width > 0,
        source.height > 0,
        0 < output.width <= i32::MAX,
        0 < output.height <= i32::MAX,
        match side {
            FittedSide::Width(w) => 1 <= w <= output.width,
            FittedSide::Height(h) => 1 <= h <= output.height,
        },
    ensures
        ({
            let r = fit_rect(source, output, side);
            &&& 0 <= r.left <= r.right <= output.width
            &&& 0 <= r.top <= r.bottom <= output.height
            &&& 0 <= (output.width - r.right) - r.left <= 1
            &&& 0 <= (output.height - r.bottom) - r.top <= 1
            &&& (side matches FittedSide::Width(w) ==> r.right - r.left == w && r.bottom - r.top
                == output.height)
            &&& (side matches FittedSide::Height(h) ==> r.bottom - r.top == h && r.right - r.left
                == output.width)
        }),
{
}

/// Turned by one quarter clockwise, the top left of the place shows the bottom left of
/// the picture; unturned each corner shows itself.
pub proof fn clockwise_turn_brings_the_lower_left_up(corner: int)
    requires
        0 <= corner < 4,
    ensures
        shown_corner(corner, 0) == corner,
        shown_corner(0, 1) == 3,
        shown_corner(0, 2) == 2,
        shown_corner(0, 3) == 1,
        shown_corner(corner, 4) == corner,
{
}

/// The video processor is told of the colours by one bit for high definition and one
/// of two for the range.
pub proof fn colours_are_told_by_bits(color: SurfaceColor)
    ensures
        color.bt709 && color.full_range ==> color_bits(color) == 36,
        color.bt709 && !color.full_range ==> color_bits(color) == 20,
        !color.bt709 && color.full_range ==> color_bits(color) == 32,
        !color.bt709 && !color.full_range ==> color_bits(color) == 16,
{
}

} // verus!
