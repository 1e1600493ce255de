//! Screenshots as bitmap files.
use vstd::prelude::*;
use crate::decimal::{digits, push_decimal};
use crate::text::owned;

verus! {

/// A captured picture: four bytes for each pixel, row by row from the top.
#[derive(Debug)]
pub struct BgraFrameCapture {
    pub width: u32,
    pub height: u32,
    pub pixels: Vec<u8>,
}

/// Why a picture cannot be written or packed.
#[derive(Clone, Copy, Debug, PartialEq, Eq, Structural)]
pub enum CaptureError {
    EmptyTexture,
    RowPitchTooSmall,
    DimensionsOverflow,
    SizeMismatch,
    FileSizeOverflow,
}

impl CaptureError {
    /// The words for the error.
    pub fn message(&self) -> (r: &'static str)
        ensures
            r@ == (match *self {
                CaptureError::EmptyTexture => "cannot capture an empty D3D11 texture"@,
                CaptureError::RowPitchTooSmall =>
                    "mapped RowPitch smaller than one packed row of pixels"@,
                CaptureError::DimensionsOverflow => "screenshot dimensions overflowed BMP size"@,
                CaptureError::SizeMismatch =>
                    "screenshot pixel buffer size did not match dimensions"@,
                CaptureError::FileSizeOverflow => "screenshot BMP file size overflowed"@,
            }),
    {
        match self {
            CaptureError::EmptyTexture => "cannot capture an empty D3D11 texture",
            CaptureError::RowPitchTooSmall =>
                "mapped RowPitch smaller than one packed row of pixels",
            CaptureError::DimensionsOverflow => "screenshot dimensions overflowed BMP size",
            CaptureError::SizeMismatch => "screenshot pixel buffer size did not match dimensions",
            CaptureError::FileSizeOverflow => "screenshot BMP file size overflowed",
        }
    }
}

/// The four bytes of a number, lowest first.
pub open spec fn le32(n: int) -> Seq<u8> {
    seq![
        (n % 0x100) as u8,
        (n / 0x100 % 0x100) as u8,
        (n / 0x1_0000 % 0x100) as u8,
        (n / 0x100_0000 % 0x100) as u8,
    ]
}

/// The two bytes of a number, lowest first.
pub open spec fn le16(n: int) -> Seq<u8> {
    seq![(n % 0x100) as u8, (n / 0x100 % 0x100) as u8]
}

/// The number in four bytes, lowest first.
pub open spec fn read32(b: Seq<u8>, at: int) -> int {
    b[at] + 0x100 * b[at + 1] + 0x1_0000 * b[at + 2] + 0x100_0000 * b[at + 3]
}

/// A height that counts from the top: its negative, in 32 bits.
pub open spec fn top_down(height: u32) -> int {
    if height == 0 {
        0
    } else {
        0x1_0000_0000 - height
    }
}

/// The header of a file: 14 bytes on the file, then 40 on the picture.
pub open spec fn bmp_header(width: u32, height: u32, pixel_bytes: int) -> Seq<u8> {
    seq![0x42u8, 0x4Du8] + le32(54 + pixel_bytes) + le16(0) + le16(0) + le32(54) + le32(40) + le32(
        width as int,
    ) + le32(top_down(height)) + le16(1) + le16(32) + le32(0) + le32(pixel_bytes) + le32(0) + le32(
        0,
    ) + le32(0) + le32(0)
}

fn push32(out: &mut Vec<u8>, n: u32)
    ensures
        final(out)@ == old(out)@ + le32(n as int),
{
    out.push((n % 0x100) as u8);
    out.push((n / 0x100 % 0x100) as u8);
    out.push((n / 0x1_0000 % 0x100) as u8);
    out.push((n / 0x100_0000 % 0x100) as u8);
    proof {
        assert(out@ =~= old(out)@ + le32(n as int));
    }
}

fn push16(out: &mut Vec<u8>, n: u16)
    ensures
        final(out)@ == old(out)@ + le16(n as int),
{
    out.push((n % 0x100) as u8);
    out.push((n / 0x100 % 0x100) as u8);
    proof {
        assert(out@ =~= old(out)@ + le16(n as int));
    }
}

/// Writes a picture as a bitmap file.
pub fn encode_bgra_bmp(capture: &BgraFrameCapture) -> (r: Result<Vec<u8>, CaptureError>)
    requires
        !(capture.width == 0 && capture.height == 0x8000_0000),
    ensures
        ({
            let pixel_bytes = capture.width * capture.height * 4;
            if pixel_bytes > u32::MAX {
                r == Err::<Vec<u8>, CaptureError>(CaptureError::DimensionsOverflow)
            } else if capture.pixels@.len() != pixel_bytes {
                r == Err::<Vec<u8>, CaptureError>(CaptureError::SizeMismatch)
            } else if 54 + pixel_bytes > u32::MAX {
                r == Err::<Vec<u8>, CaptureError>(CaptureError::FileSizeOverflow)
            } else {
                r matches Ok(bytes) && bytes@ == bmp_header(
                    capture.width,
                    capture.height,
                    pixel_bytes,
                ) + capture.pixels@
            }
        }),
{
    let width: u32 = capture.width;
    let height: u32 = capture.height;
    assert(width * height <= 0xffff_ffff * 0xffff_ffff) by (nonlinear_arith)
        requires
            width <= 0xffff_ffff,
            height <= 0xffff_ffff,
    ;
    let pixels: u64 = width as u64 * height as u64;
    if pixels > 0x3fff_ffff {
        return Err(CaptureError::DimensionsOverflow);
    }
    let pixel_bytes: u32 = (pixels * 4) as u32;
    if capture.pixels.len() as u64 != pixel_bytes as u64 {
        return Err(CaptureError::SizeMismatch);
    }
    if pixel_bytes > 0xffff_ffff - 54 {
        return Err(CaptureError::FileSizeOverflow);
    }
    let top: u32 = 0u32.wrapping_sub(height);
    let mut out: Vec<u8> = Vec::new();
    out.push(0x42);
    out.push(0x4D);
    proof {
        assert(out@ =~= seq![0x42u8, 0x4Du8]);
    }
    push32(&mut out, 54 + pixel_bytes);
    push16(&mut out, 0);
    push16(&mut out, 0);
    push32(&mut out, 54);
    push32(&mut out, 40);
    push32(&mut out, width);
    push32(&mut out, top);
    push16(&mut out, 1);
    push16(&mut out, 32);
    push32(&mut out, 0);
    push32(&mut out, pixel_bytes);
    push32(&mut out, 0);
    push32(&mut out, 0);
    push32(&mut out, 0);
    push32(&mut out, 0);
    out.extend_from_slice(capture.pixels.as_slice());
    proof {
        assert(out@ =~= bmp_header(width, height, pixel_bytes as int) + capture.pixels@);
    }
    Ok(out)
}

/// A row of the mapped texture, without what follows its pixels.
pub open spec fn packed(mapped: Seq<u8>, row_pitch: int, row_bytes: int, rows: int) -> Seq<u8>
    decreases rows,
{
    if rows <= 0 {
        Seq::empty()
    } else {
        packed(mapped, row_pitch, row_bytes, rows - 1) + mapped.subrange(
            (rows - 1) * row_pitch,
            (rows - 1) * row_pitch + row_bytes,
        )
    }
}

/// Packs the rows of a mapped texture, which may stand apart, into a picture.
pub fn pack_rows(mapped: &Vec<u8>, row_pitch: u32, width: u32, height: u32) -> (r: Result<
    BgraFrameCapture,
    CaptureError,
>)
    requires
        row_pitch >= width * 4 ==> mapped@.len() >= height * row_pitch,
    ensures
        if width == 0 || height == 0 {
            r == Err::<BgraFrameCapture, CaptureError>(CaptureError::EmptyTexture)
        } else if row_pitch < width * 4 {
            r == Err::<BgraFrameCapture, CaptureError>(CaptureError::RowPitchTooSmall)
        } else {
            r matches Ok(c) && c.width == width && c.height == height && c.pixels@ == packed(
                mapped@,
                row_pitch as int,
                width * 4,
                height as int,
            )
        },
{
    if width == 0 || height == 0 {
        return Err(CaptureError::EmptyTexture);
    }
    let row_bytes: u64 = width as u64 * 4;
    if (row_pitch as u64) < row_bytes {
        return Err(CaptureError::RowPitchTooSmall);
    }
    let len: usize = mapped.len();
    let mut pixels: Vec<u8> = Vec::new();
    let mut row: u32 = 0;
    proof {
        assert(pixels@ =~= packed(mapped@, row_pitch as int, row_bytes as int, 0));
    }
    while row < height
        invariant
            row <= height,
            row_bytes == width * 4,
            row_bytes <= row_pitch,
            len == mapped@.len(),
            height * row_pitch <= len,
            pixels@ == packed(mapped@, row_pitch as int, row_bytes as int, row as int),
        decreases height - row,
    {
        let ghost before = pixels@;
        let ghost base = row * row_pitch;
        proof {
            assert(row * row_pitch + row_pitch <= height * row_pitch) by (nonlinear_arith)
                requires
                    row + 1 <= height,
                    row_pitch >= 0,
            ;
            assert(row * row_pitch >= 0) by (nonlinear_arith)
                requires
                    row >= 0,
                    row_pitch >= 0,
            ;
        }
        let start: usize = row as usize * row_pitch as usize;
        let mut x: usize = 0;
        proof {
            assert(mapped@.subrange(base, base) =~= Seq::<u8>::empty());
            assert(before + mapped@.subrange(base, base) =~= before);
        }
        while x < row_bytes as usize
            invariant
                x <= row_bytes <= row_pitch,
                start == base,
                base + row_pitch <= len,
                len == mapped@.len(),
                pixels@ == before + mapped@.subrange(base, base + x),
            decreases row_bytes - x,
        {
            pixels.push(mapped[start + x]);
            proof {
                assert(mapped@.subrange(base, base + x + 1) =~= mapped@.subrange(
                    base,
                    base + x,
                ).push(mapped@[base + x]));
                assert(pixels@ =~= before + mapped@.subrange(base, base + x + 1));
            }
            x = x + 1;
        }
        row = row + 1;
    }
    Ok(BgraFrameCapture { width, height, pixels })
}

/// The header is 54 bytes long, and says where the pixels are, how many bytes
/// the file has and how wide the picture is.
pub proof fn header_describes_the_file(width: u32, height: u32, pixel_bytes: int)
    requires
        0 <= pixel_bytes,
        54 + pixel_bytes <= u32::MAX,
    ensures
        bmp_header(width, height, pixel_bytes).len() == 54,
        read32(bmp_header(width, height, pixel_bytes), 2) == 54 + pixel_bytes,
        read32(bmp_header(width, height, pixel_bytes), 10) == 54,
        read32(bmp_header(width, height, pixel_bytes), 18) == width,
        read32(bmp_header(width, height, pixel_bytes), 22) == top_down(height),
        read32(bmp_header(width, height, pixel_bytes), 34) == pixel_bytes,
{
    let h = bmp_header(width, height, pixel_bytes);
    bytes_of(54 + pixel_bytes);
    bytes_of(54);
    bytes_of(width as int);
    bytes_of(top_down(height));
    bytes_of(pixel_bytes);
    assert(h.subrange(2, 6) =~= le32(54 + pixel_bytes));
    assert(h.subrange(10, 14) =~= le32(54));
    assert(h.subrange(18, 22) =~= le32(width as int));
    assert(h.subrange(22, 26) =~= le32(top_down(height)));
    assert(h.subrange(34, 38) =~= le32(pixel_bytes));
    read_part(h, 2, 54 + pixel_bytes);
    read_part(h, 10, 54);
    read_part(h, 18, width as int);
    read_part(h, 22, top_down(height));
    read_part(h, 34, pixel_bytes);
}

proof fn read_part(h: Seq<u8>, at: int, n: int)
    requires
        0 <= at,
        at + 4 <= h.len(),
        h.subrange(at, at + 4) == le32(n),
        0 <= n <= u32::MAX,
    ensures
        read32(h, at) == n,
{
    let p = h.subrange(at, at + 4);
    assert(p[0] == h[at] && p[1] == h[at + 1] && p[2] == h[at + 2] && p[3] == h[at + 3]);
    bytes_of(n);
}

proof fn bytes_of(n: int)
    requires
        0 <= n <= u32::MAX,
    ensures
        le32(n)[0] + 0x100 * le32(n)[1] + 0x1_0000 * le32(n)[2] + 0x100_0000 * le32(n)[3] == n,
{
}

/// The file name of a screenshot taken so many milliseconds after the epoch.
pub fn screenshot_file_name(stamp_ms: u64) -> (r: String)
    ensures
        r@ == "fastplay-screenshot-"@ + digits(stamp_ms as nat) + ".bmp"@,
{
    let mut out = owned("fastplay-screenshot-");
    push_decimal(&mut out, stamp_ms);
    out.append(".bmp");
    out
}

/// The pixels of a picture follow each other row by row, each row as it stands in
/// the mapped texture and without what follows it there.
pub proof fn rows_follow_each_other(
    mapped: Seq<u8>,
    row_pitch: int,
    row_bytes: int,
    rows: int,
    row: int,
    k: int,
)
    requires
        0 <= row < rows,
        0 <= k < row_bytes <= row_pitch,
        (rows - 1) * row_pitch + row_bytes <= mapped.len(),
    ensures
        packed(mapped, row_pitch, row_bytes, rows).len() == rows * row_bytes,
        row * row_bytes + k < rows * row_bytes,
        packed(mapped, row_pitch, row_bytes, rows)[row * row_bytes + k] == mapped[row * row_pitch
            + k],
    decreases rows,
{
    let before = packed(mapped, row_pitch, row_bytes, rows - 1);
    let last = mapped.subrange((rows - 1) * row_pitch, (rows - 1) * row_pitch + row_bytes);
    assert(0 <= (rows - 1) * row_pitch) by (nonlinear_arith)
        requires
            rows >= 1,
            row_pitch >= 0,
    ;
    assert((rows - 1) * row_bytes + row_bytes == rows * row_bytes) by (nonlinear_arith);
    if rows > 1 {
        assert((rows - 2) * row_pitch + row_bytes <= (rows - 1) * row_pitch) by (nonlinear_arith)
            requires
                row_bytes <= row_pitch,
        ;
        let r = if row < rows - 1 {
            row
        } else {
            0
        };
        rows_follow_each_other(mapped, row_pitch, row_bytes, rows - 1, r, k);
    } else {
        assert(before.len() == 0);
        assert((rows - 1) * row_bytes == 0) by (nonlinear_arith)
            requires
                rows == 1,
        ;
    }
    assert(before.len() == (rows - 1) * row_bytes);
    if row == rows - 1 {
        assert((before + last)[row * row_bytes + k] == last[k]);
    }
}

/// A header begins with the letters B and M, and says that the picture has one
/// plane of 32 bits, is not packed, and counts its rows from the top.
pub proof fn header_names_the_layout(width: u32, height: u32, pixel_bytes: int)
    requires
        0 <= pixel_bytes,
        54 + pixel_bytes <= u32::MAX,
    ensures
        ({
            let h = bmp_header(width, height, pixel_bytes);
            &&& h[0] == 66 && h[1] == 77
            &&& h[14] == 40 && h[15] == 0 && h[16] == 0 && h[17] == 0
            &&& h[26] == 1 && h[27] == 0
            &&& h[28] == 32 && h[29] == 0
            &&& h[30] == 0 && h[31] == 0 && h[32] == 0 && h[33] == 0
            &&& height > 0 ==> top_down(height) + height == 0x1_0000_0000
            &&& top_down(0) == 0
        }),
{
}

} // verus!
