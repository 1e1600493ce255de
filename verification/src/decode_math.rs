//! Arithmetic on what a decoder reports: time stamps, aspect ratios, rotation,
//! colour and plane sizes.
use vstd::prelude::*;
use crate::time::Duration;

verus! {

/// The time stamp that stands for none.
pub const NO_TIMESTAMP: i64 = -9_223_372_036_854_775_808;

/// A fraction of a second that time stamps count in.
#[derive(Clone, Copy, Debug, PartialEq, Eq, Structural)]
pub struct TimeBase {
    pub num: i32,
    pub den: i32,
}

/// The magnitude of a number.
pub open spec fn magnitude(n: int) -> int {
    if n < 0 {
        -n
    } else {
        n
    }
}

/// Whole microseconds of a time stamp, rounded towards zero; none for a missing
/// time stamp, an unusable time base or a time before zero.
pub open spec fn pts_micros(value: i64, base: TimeBase) -> int {
    let product = value * base.num * 1_000_000;
    if value == NO_TIMESTAMP || base.num == 0 || base.den == 0 || product == 0 {
        0
    } else if (product > 0) != (base.den > 0) {
        0
    } else {
        magnitude(product) / magnitude(base.den as int)
    }
}

/// Nanoseconds of a time stamp.
pub open spec fn pts_nanos(value: i64, base: TimeBase) -> int {
    let micros = pts_micros(value, base);
    if micros > u64::MAX {
        u64::MAX * 1_000
    } else {
        micros * 1_000
    }
}

/// The position of a time stamp.
pub fn frame_pts(value: i64, base: TimeBase) -> (r: Duration)
    ensures
        r@ == pts_nanos(value, base),
{
    if value == NO_TIMESTAMP || base.den == 0 || base.num == 0 || value == 0 {
        proof {
            if value == 0 {
                assert(value * base.num * 1_000_000 == 0) by (nonlinear_arith)
                    requires
                        value == 0,
                ;
            }
        }
        return Duration::zero();
    }
    let forward = (value > 0) == (base.num > 0);
    proof {
        sign_of_product(value as int, base.num as int);
    }
    if forward != (base.den > 0) {
        return Duration::zero();
    }
    let v: u128 = if value > 0 {
        value as u128
    } else {
        (-value) as u128
    };
    let n: u128 = if base.num > 0 {
        base.num as u128
    } else {
        (-(base.num as i64)) as u128
    };
    let d: u128 = if base.den > 0 {
        base.den as u128
    } else {
        (-(base.den as i64)) as u128
    };
    assert(v * n <= 0x8000_0000_0000_0000 * 0x8000_0000) by (nonlinear_arith)
        requires
            v <= 0x8000_0000_0000_0000,
            n <= 0x8000_0000,
    ;
    proof {
        magnitude_of_product(value as int, base.num as int, v as int, n as int);
    }
    let micros: u128 = v * n * 1_000_000 / d;
    if micros > u64::MAX as u128 {
        Duration::from_micros(u64::MAX)
    } else {
        Duration::from_micros(micros as u64)
    }
}

proof fn sign_of_product(v: int, n: int)
    requires
        v != 0,
        n != 0,
    ensures
        v * n * 1_000_000 != 0,
        (v * n * 1_000_000 > 0) == ((v > 0) == (n > 0)),
{
    assert(v * n * 1_000_000 != 0 && (v * n * 1_000_000 > 0) == ((v > 0) == (n > 0)))
        by (nonlinear_arith)
        requires
            v != 0,
            n != 0,
    ;
}

proof fn magnitude_of_product(v: int, n: int, mv: int, mn: int)
    requires
        mv == magnitude(v),
        mn == magnitude(n),
    ensures
        magnitude(v * n * 1_000_000) == mv * mn * 1_000_000,
{
    assert(magnitude(v * n) == mv * mn) by (nonlinear_arith)
        requires
            mv == magnitude(v),
            mn == magnitude(n),
    ;
}

/// The time stamp of a decoded frame: the best effort of the decoder, or else
/// what the frame carries.
pub fn decoded_frame_pts(best_effort: i64, pts: i64, base: TimeBase) -> (r: Duration)
    ensures
        r@ == pts_nanos(
            if best_effort != NO_TIMESTAMP {
                best_effort
            } else {
                pts
            },
            base,
        ),
{
    if best_effort != NO_TIMESTAMP {
        return frame_pts(best_effort, base);
    }
    frame_pts(pts, base)
}

/// Microseconds to seek to in a file whose clock may not start at zero.
pub open spec fn seek_target_micros(target: Duration, start_micros: i64) -> int {
    let wanted = if target@ / 1_000 > i64::MAX {
        i64::MAX as int
    } else {
        target@ / 1_000
    };
    if start_micros == NO_TIMESTAMP {
        wanted
    } else if start_micros + wanted > i64::MAX {
        i64::MAX as int
    } else {
        start_micros + wanted
    }
}

/// Microseconds to seek to in a file whose clock may not start at zero.
pub fn absolute_seek_micros(target: Duration, start_micros: i64) -> (r: i64)
    ensures
        r == seek_target_micros(target, start_micros),
{
    let micros: u128 = target.nanos / 1_000;
    let wanted: i64 = if micros > 0x7fff_ffff_ffff_ffff {
        0x7fff_ffff_ffff_ffff
    } else {
        micros as i64
    };
    if start_micros == NO_TIMESTAMP {
        wanted
    } else if start_micros > 0 && wanted > 0x7fff_ffff_ffff_ffff - start_micros {
        0x7fff_ffff_ffff_ffff
    } else {
        start_micros + wanted
    }
}

/// The width of a pixel relative to its height; square where it is not given.
pub fn sample_aspect(num: i32, den: i32) -> (r: (u32, u32))
    ensures
        r == (if num > 0 && den > 0 {
            (num as u32, den as u32)
        } else {
            (1u32, 1u32)
        }),
{
    if num > 0 && den > 0 {
        (num as u32, den as u32)
    } else {
        (1, 1)
    }
}

/// The size of a picture as it is shown: its width is stretched by the width of
/// a pixel relative to its height.
pub fn display_size(width: u32, height: u32, sar_num: u32, sar_den: u32) -> (r: (u32, u32))
    requires
        sar_den > 0,
        width * sar_num <= u32::MAX,
    ensures
        r == ((width * sar_num / (sar_den as int)) as u32, height),
        r.0 == width * sar_num / (sar_den as int),
{
    assert(width * sar_num / (sar_den as int) <= width * sar_num) by (nonlinear_arith)
        requires
            width * sar_num >= 0,
            sar_den > 0,
    ;
    (width * sar_num / sar_den, height)
}

/// How a picture's colours are coded.
#[derive(Clone, Copy, Debug, PartialEq, Eq, Structural)]
pub enum ColorSpaceTag {
    Bt709,
    Rgb,
    Bt470bg,
    Smpte170m,
    Smpte240m,
    Other,
}

/// How colours are to be read.
#[derive(Clone, Copy, Debug, PartialEq, Eq, Structural)]
pub struct SurfaceColor {
    pub bt709: bool,
    pub full_range: bool,
}

/// How the colours of a frame are to be read. What is not tagged goes by its
/// height: up to 576 lines are standard definition. Converted RGB has the
/// limited range.
pub open spec fn color_of(space: ColorSpaceTag, jpeg_range: bool, height: i32) -> SurfaceColor {
    SurfaceColor {
        bt709: match space {
            ColorSpaceTag::Bt709 => true,
            ColorSpaceTag::Other => height > 576,
            _ => false,
        },
        full_range: jpeg_range && space != ColorSpaceTag::Rgb,
    }
}

/// How the colours of a frame are to be read.
pub fn frame_surface_color(space: ColorSpaceTag, jpeg_range: bool, height: i32) -> (r: SurfaceColor)
    ensures
        r == color_of(space, jpeg_range, height),
{
    let bt709 = match space {
        ColorSpaceTag::Bt709 => true,
        ColorSpaceTag::Rgb
        | ColorSpaceTag::Bt470bg
        | ColorSpaceTag::Smpte170m
        | ColorSpaceTag::Smpte240m => false,
        ColorSpaceTag::Other => height > 576,
    };
    let rgb = match space {
        ColorSpaceTag::Rgb => true,
        _ => false,
    };
    SurfaceColor { bt709, full_range: jpeg_range && !rgb }
}

/// Clockwise quarter turns of a display matrix that begins with `a` and `b`: the
/// quarter turn that is nearest to its angle; of two that are equally near the
/// one further from no turn.
pub open spec fn matrix_quarter_turns(a: i32, b: i32) -> u8 {
    if magnitude(b as int) < magnitude(a as int) {
        if a > 0 {
            0
        } else {
            2
        }
    } else if magnitude(b as int) > magnitude(a as int) {
        if b > 0 {
            1
        } else {
            3
        }
    } else if a < 0 {
        2
    } else if b > 0 {
        1
    } else if b < 0 {
        3
    } else {
        0
    }
}

/// Clockwise quarter turns of a display matrix.
pub fn rotation_quarter_turns(a: i32, b: i32) -> (r: u8)
    ensures
        r == matrix_quarter_turns(a, b),
        r < 4,
{
    let ma: i64 = if a < 0 {
        -(a as i64)
    } else {
        a as i64
    };
    let mb: i64 = if b < 0 {
        -(b as i64)
    } else {
        b as i64
    };
    if mb < ma {
        if a > 0 {
            0
        } else {
            2
        }
    } else if mb > ma {
        if b > 0 {
            1
        } else {
            3
        }
    } else if a < 0 {
        2
    } else if b > 0 {
        1
    } else if b < 0 {
        3
    } else {
        0
    }
}

/// An entry of what a stream carries beside its packets.
#[derive(Clone, Copy, Debug, PartialEq, Eq, Structural)]
pub struct StreamEntry {
    pub is_display_matrix: bool,
    /// Whether the entry is long enough for a matrix.
    pub is_whole: bool,
    /// The first two numbers of the matrix.
    pub a: i32,
    pub b: i32,
}

/// Whether an entry is the first display matrix.
pub open spec fn is_first_matrix(entries: Seq<StreamEntry>, i: int) -> bool {
    &&& 0 <= i < entries.len()
    &&& entries[i].is_display_matrix
    &&& forall|k: int| 0 <= k < i ==> !(#[trigger] entries[k]).is_display_matrix
}

/// How far a stream wants its pictures turned, clockwise in quarter turns: as its
/// first display matrix says, if it is whole.
pub fn stream_rotation_quarter_turns(entries: &Vec<StreamEntry>) -> (r: u8)
    ensures
        forall|i: int| #[trigger]
            is_first_matrix(entries@, i) ==> r == (if entries@[i].is_whole {
                matrix_quarter_turns(entries@[i].a, entries@[i].b)
            } else {
                0
            }),
        (forall|i: int| 0 <= i < entries@.len() ==> !(#[trigger] entries@[i]).is_display_matrix)
            ==> r == 0,
{
    let mut i: usize = 0;
    while i < entries.len()
        invariant
            i <= entries@.len(),
            forall|k: int| 0 <= k < i ==> !(#[trigger] entries@[k]).is_display_matrix,
        decreases entries@.len() - i,
    {
        let e = entries[i];
        if e.is_display_matrix {
            proof {
                assert(entries@[i as int].is_display_matrix);
                assert forall|k: int| #[trigger] is_first_matrix(entries@, k) implies k == i by {
                    if k > i {
                        assert(!entries@[i as int].is_display_matrix);
                    }
                }
            }
            return if e.is_whole {
                rotation_quarter_turns(e.a, e.b)
            } else {
                0
            };
        }
        i = i + 1;
    }
    0
}

/// Why a frame cannot be converted.
#[derive(Clone, Copy, Debug, PartialEq, Eq, Structural)]
pub enum ConvertError {
    InvalidDimensions,
    OddDimensions,
}

impl ConvertError {
    /// The words for the error.
    pub fn message(&self) -> (r: &'static str)
        ensures
            r@ == (match *self {
                ConvertError::InvalidDimensions =>
                    "software decode produced invalid frame dimensions"@,
                ConvertError::OddDimensions =>
                    "software fallback currently supports only even-sized frames"@,
            }),
    {
        match self {
            ConvertError::InvalidDimensions => "software decode produced invalid frame dimensions",
            ConvertError::OddDimensions =>
                "software fallback currently supports only even-sized frames",
        }
    }
}

/// The planes of an NV12 picture in one buffer.
#[derive(Clone, Copy, Debug, PartialEq, Eq, Structural)]
pub struct Nv12Layout {
    pub stride: u64,
    pub y_len: u64,
    pub uv_len: u64,
}

/// The planes of an NV12 picture: the brightness of every pixel, then the colour
/// of every two by two.
pub fn nv12_layout(width: i32, height: i32) -> (r: Result<Nv12Layout, ConvertError>)
    ensures
        match r {
            Ok(l) => {
                &&& width > 0 && height > 0 && width % 2 == 0 && height % 2 == 0
                &&& l.stride == width
                &&& l.y_len == width * height
                &&& 2 * l.uv_len == l.y_len
            },
            Err(ConvertError::InvalidDimensions) => width <= 0 || height <= 0,
            Err(ConvertError::OddDimensions) => width > 0 && height > 0 && (width % 2 != 0
                || height % 2 != 0),
        },
{
    if width <= 0 || height <= 0 {
        return Err(ConvertError::InvalidDimensions);
    }
    if width % 2 != 0 || height % 2 != 0 {
        return Err(ConvertError::OddDimensions);
    }
    let stride: u64 = width as u64;
    assert(stride * (height as u64) <= 0x7fff_ffff * 0x7fff_ffff) by (nonlinear_arith)
        requires
            stride <= 0x7fff_ffff,
            height as u64 <= 0x7fff_ffff,
    ;
    assert(stride * (height as u64 / 2) <= 0x7fff_ffff * 0x7fff_ffff) by (nonlinear_arith)
        requires
            stride <= 0x7fff_ffff,
            height as u64 / 2 <= 0x7fff_ffff,
    ;
    assert(2 * (stride * (height as u64 / 2)) == stride * (height as u64)) by (nonlinear_arith)
        requires
            height as u64 % 2 == 0,
    ;
    Ok(
        Nv12Layout {
            stride,
            y_len: stride * height as u64,
            uv_len: stride * (height as u64 / 2),
        },
    )
}

/// Later time stamps never stand for earlier positions.
pub proof fn pts_is_monotone(earlier: i64, later: i64, base: TimeBase)
    requires
        NO_TIMESTAMP < earlier <= later,
        base.num > 0,
        base.den > 0,
    ensures
        pts_nanos(earlier, base) <= pts_nanos(later, base),
{
    let (a, b) = (earlier as int, later as int);
    let n = base.num as int;
    let d = base.den as int;
    assert(a * n * 1_000_000 <= b * n * 1_000_000) by (nonlinear_arith)
        requires
            a <= b,
            n > 0,
    ;
    let x = a * n * 1_000_000;
    let y = b * n * 1_000_000;
    if x > 0 {
        assert(x / d <= y / d) by (nonlinear_arith)
            requires
                x <= y,
                d > 0,
        ;
    } else if y > 0 {
        assert(y / d >= 0) by (nonlinear_arith)
            requires
                y > 0,
                d > 0,
        ;
    }
}

/// The time of a stamp is as many units of its time base: to the microsecond, and none
/// for a missing stamp or one before zero.
pub proof fn stamp_counts_units_of_its_base(value: i64, base: TimeBase)
    requires
        base.num > 0,
        base.den > 0,
        value >= 0,
    ensures
        ({
            let micros = pts_micros(value, base);
            micros * base.den <= value * base.num * 1_000_000 < (micros + 1) * base.den
        }),
        base.num == 1 && base.den == 1_000 && value <= 1_000_000_000_000 ==> pts_nanos(value, base)
            == value * 1_000_000,
        base.num == 1 && base.den == 1_000_000 && value <= 1_000_000_000_000_000 ==> pts_nanos(
            value,
            base,
        ) == value * 1_000,
{
    let n = value * base.num * 1_000_000;
    let d = base.den as int;
    assert(n >= 0) by (nonlinear_arith)
        requires
            n == value * base.num * 1_000_000,
            value >= 0,
            base.num > 0,
    ;
    vstd::arithmetic::div_mod::lemma_fundamental_div_mod(n, d);
    assert((n / d) * d <= n < (n / d + 1) * d) by (nonlinear_arith)
        requires
            n == d * (n / d) + n % d,
            0 <= n % d < d,
    ;
    if n == 0 {
        assert(0int / d == 0) by (nonlinear_arith)
            requires
                d > 0,
        ;
    }
    if base.num == 1 {
        assert(n == value * 1_000_000) by (nonlinear_arith)
            requires
                n == value * base.num * 1_000_000,
                base.num == 1,
        ;
        let q = n / d;
        if d == 1_000 {
            assert(q == value * 1_000) by (nonlinear_arith)
                requires
                    q * d <= n < (q + 1) * d,
                    n == value * 1_000_000,
                    d == 1_000,
            ;
        }
        if d == 1_000_000 {
            assert(q == value) by (nonlinear_arith)
                requires
                    q * d <= n < (q + 1) * d,
                    n == value * 1_000_000,
                    d == 1_000_000,
            ;
        }
        assert(pts_micros(value, base) == q);
        if d == 1_000 && value <= 1_000_000_000_000 {
            assert(0 <= q <= 1_000_000_000_000_000);
            assert(pts_nanos(value, base) == q * 1_000);
        }
    }
}

/// A missing stamp, a time base without meaning and a time before zero give no time.
pub proof fn useless_stamp_gives_no_time(value: i64, base: TimeBase)
    requires
        value == NO_TIMESTAMP || base.num == 0 || base.den == 0 || (value < 0 && base.num > 0
            && base.den > 0),
    ensures
        pts_nanos(value, base) == 0,
{
    if value < 0 && base.num > 0 && base.den > 0 {
        assert(value * base.num * 1_000_000 < 0) by (nonlinear_arith)
            requires
                value < 0,
                base.num > 0,
        ;
    }
}

/// A seek counts from the start of the file's own clock, if that is known, in whole
/// microseconds.
pub proof fn seek_counts_from_the_start_of_the_file(target: Duration, start_micros: i64)
    requires
        target@ / 1_000 <= 1_000_000_000_000_000,
        start_micros == NO_TIMESTAMP || -1_000_000_000_000_000 <= start_micros
            <= 1_000_000_000_000_000,
    ensures
        start_micros == NO_TIMESTAMP ==> seek_target_micros(target, start_micros) == target@ / 1_000,
        start_micros != NO_TIMESTAMP ==> seek_target_micros(target, start_micros) - start_micros
            == target@ / 1_000,
{
}

/// A display matrix that turns by whole quarters gives just those, clockwise; one that
/// is the opposite of another gives two quarter turns more.
pub proof fn matrix_gives_its_quarter_turns(a: i32, b: i32)
    requires
        a > i32::MIN,
        b > i32::MIN,
        magnitude(a as int) != magnitude(b as int),
    ensures
        a > 0 && b == 0 ==> matrix_quarter_turns(a, b) == 0,
        a == 0 && b > 0 ==> matrix_quarter_turns(a, b) == 1,
        a < 0 && b == 0 ==> matrix_quarter_turns(a, b) == 2,
        a == 0 && b < 0 ==> matrix_quarter_turns(a, b) == 3,
        matrix_quarter_turns((-a) as i32, (-b) as i32) == (matrix_quarter_turns(a, b) + 2) % 4,
{
}

/// Tagged colours are read as tagged; others as those of high definition above 576
/// lines. The full range counts unless the picture was made from RGB.
pub proof fn colours_go_by_tag_or_height(space: ColorSpaceTag, jpeg_range: bool, height: i32)
    ensures
        space == ColorSpaceTag::Bt709 ==> color_of(space, jpeg_range, height).bt709,
        space == ColorSpaceTag::Other ==> color_of(space, jpeg_range, height).bt709 == (height
            > 576),
        space == ColorSpaceTag::Bt470bg || space == ColorSpaceTag::Smpte170m || space
            == ColorSpaceTag::Smpte240m || space == ColorSpaceTag::Rgb ==> !color_of(
            space,
            jpeg_range,
            height,
        ).bt709,
        space != ColorSpaceTag::Rgb ==> color_of(space, jpeg_range, height).full_range
            == jpeg_range,
        space == ColorSpaceTag::Rgb ==> !color_of(space, jpeg_range, height).full_range,
{
}

} // verus!
