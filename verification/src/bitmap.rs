//! Pictures that are drawn over the video: blending, filling, and turning drawn
//! text into translucent pixels.
use vstd::prelude::*;

verus! {

/// A pixel: blue, green, red and how much of it covers what is behind.
#[derive(Clone, Copy, Debug, PartialEq, Eq, Structural)]
pub struct Pixel {
    pub b: u8,
    pub g: u8,
    pub r: u8,
    pub a: u8,
}

/// The coverage of two layers.
pub open spec fn covered(sa: int, da: int) -> int {
    sa + da - sa * da / 255
}

/// One colour of two layers.
pub open spec fn mixed(src: int, dest: int, sa: int, da: int) -> int {
    (src * sa + dest * da * (255 - sa) / 255) / covered(sa, da)
}

/// A pixel over another one.
pub open spec fn blended(dest: Pixel, src: Pixel) -> Pixel {
    let (sa, da) = (src.a as int, dest.a as int);
    if sa == 0 {
        dest
    } else if sa == 255 || da == 0 {
        src
    } else {
        Pixel {
            b: mixed(src.b as int, dest.b as int, sa, da) as u8,
            g: mixed(src.g as int, dest.g as int, sa, da) as u8,
            r: mixed(src.r as int, dest.r as int, sa, da) as u8,
            a: covered(sa, da) as u8,
        }
    }
}

/// Two layers cover at least as much as either, and at most all; a mixed colour
/// is a colour.
pub proof fn blend_stays_in_range(src: int, dest: int, sa: int, da: int)
    requires
        0 <= src <= 255,
        0 <= dest <= 255,
        0 < sa < 255,
        0 < da <= 255,
    ensures
        sa <= covered(sa, da) <= 255,
        da <= covered(sa, da),
        0 <= mixed(src, dest, sa, da) <= 255,
{
    let p = sa * da;
    assert(0 <= p <= sa * 255 && p <= 255 * da) by (nonlinear_arith)
        requires
            p == sa * da,
            0 < sa < 255,
            0 < da <= 255,
    ;
    assert((255 - sa) * (255 - da) == 255 * 255 - 255 * sa - 255 * da + p && (255 - sa) * (255
        - da) >= 0) by (nonlinear_arith)
        requires
            p == sa * da,
            0 < sa < 255,
            0 < da <= 255,
    ;
    let c = covered(sa, da);
    assert(255 * c >= 255 * sa + 255 * da - p);
    let k = dest * da * (255 - sa);
    assert(0 <= k <= 255 * (255 * da - p)) by (nonlinear_arith)
        requires
            k == dest * da * (255 - sa),
            p == sa * da,
            0 <= dest <= 255,
            0 < sa < 255,
            0 < da <= 255,
    ;
    assert(0 <= src * sa <= 255 * sa) by (nonlinear_arith)
        requires
            0 <= src <= 255,
            sa > 0,
    ;
    let n = src * sa + k / 255;
    assert(n <= 255 * sa + 255 * da - p);
    assert(0 <= n <= 255 * c);
    assert(0 <= n / c <= 255) by (nonlinear_arith)
        requires
            0 <= n <= 255 * c,
            c > 0,
    ;
}

fn mix(src: u8, dest: u8, sa: u8, da: u8) -> (r: u8)
    requires
        0 < sa < 255,
        0 < da,
    ensures
        r == mixed(src as int, dest as int, sa as int, da as int),
{
    proof {
        blend_stays_in_range(src as int, dest as int, sa as int, da as int);
    }
    assert(sa * da <= 255 * 255 && src * sa <= 255 * 255 && dest * da <= 255 * 255 && dest * da * (
    255 - sa) <= 255 * 255 * 255) by (nonlinear_arith)
        requires
            src <= 255,
            dest <= 255,
            sa <= 255,
            da <= 255,
    ;
    let out_a: u32 = sa as u32 + da as u32 - sa as u32 * da as u32 / 255;
    let sum: u32 = src as u32 * sa as u32 + dest as u32 * da as u32 * (255 - sa as u32) / 255;
    (sum / out_a) as u8
}

/// Puts a pixel over another one.
pub fn blend_pixel(dest: Pixel, src: Pixel) -> (r: Pixel)
    ensures
        r == blended(dest, src),
{
    if src.a == 0 {
        return dest;
    }
    if src.a == 255 || dest.a == 0 {
        return src;
    }
    proof {
        blend_stays_in_range(src.b as int, dest.b as int, src.a as int, dest.a as int);
    }
    assert(src.a * dest.a <= 255 * 255) by (nonlinear_arith)
        requires
            src.a <= 255,
            dest.a <= 255,
    ;
    let out_a: u32 = src.a as u32 + dest.a as u32 - src.a as u32 * dest.a as u32 / 255;
    Pixel {
        b: mix(src.b, dest.b, src.a, dest.a),
        g: mix(src.g, dest.g, src.a, dest.a),
        r: mix(src.r, dest.r, src.a, dest.a),
        a: out_a as u8,
    }
}

/// A picture, row by row from the top.
#[derive(Debug)]
pub struct Bitmap {
    pub width: u32,
    pub height: u32,
    pub pixels: Vec<Pixel>,
}

/// The smaller of two numbers.
pub open spec fn lesser(a: u32, b: u32) -> int {
    if a <= b {
        a as int
    } else {
        b as int
    }
}

fn lesser_of(a: u32, b: u32) -> (r: u32)
    ensures
        r == lesser(a, b),
{
    if a <= b {
        a
    } else {
        b
    }
}

impl Bitmap {
    /// There is a pixel for every place.
    pub open spec fn wf(self) -> bool {
        self.pixels@.len() == self.width * self.height
    }

    /// The pixel in a column and a row.
    pub open spec fn at(self, x: int, y: int) -> Pixel {
        self.pixels@[y * self.width + x]
    }

    /// Fills a rectangle with a colour, as far as it lies in the picture.
    pub fn fill_rect(&mut self, left: u32, top: u32, right: u32, bottom: u32, color: Pixel)
        requires
            old(self).wf(),
        ensures
            final(self).wf(),
            final(self).width == old(self).width,
            final(self).height == old(self).height,
            forall|x: int, y: int|
                0 <= x < old(self).width && 0 <= y < old(self).height ==> #[trigger] final(self).at(
                    x,
                    y,
                ) == (if left <= x < right && top <= y < bottom {
                    color
                } else {
                    old(self).at(x, y)
                }),
    {
        let width: u32 = self.width;
        let height: u32 = self.height;
        let x0: u32 = lesser_of(left, width);
        let x1: u32 = lesser_of(right, width);
        let y1: u32 = lesser_of(bottom, height);
        let len: usize = self.pixels.len();
        let mut y: u32 = lesser_of(top, height);
        let ghost start = *self;
        while y < y1
            invariant
                self.width == width,
                self.height == height,
                start == *old(self),
                start.width == width,
                start.height == height,
                self.wf(),
                start.wf(),
                len == width * height,
                x0 == lesser(left, width),
                x1 == lesser(right, width),
                y1 == lesser(bottom, height),
                lesser(top, height) <= y,
                y <= y1 || y == lesser(top, height),
                forall|x: int, v: int|
                    0 <= x < width && 0 <= v < height ==> #[trigger] self.at(x, v) == (if left <= x
                        < right && top <= v < bottom && v < y {
                        color
                    } else {
                        start.at(x, v)
                    }),
            decreases y1 - y,
        {
            let mut x: u32 = x0;
            while x < x1
                invariant
                    self.width == width,
                    self.height == height,
                    start.width == width,
                    start.height == height,
                    self.wf(),
                    start.wf(),
                    len == width * height,
                    y < y1 <= height,
                    top <= y,
                    y < bottom,
                    x0 == lesser(left, width),
                    x1 == lesser(right, width),
                    x0 <= x,
                    x <= x1 || x == x0,
                    forall|u: int, v: int|
                        0 <= u < width && 0 <= v < height ==> #[trigger] self.at(u, v) == (if left
                            <= u < right && top <= v < bottom && (v < y || (v == y && u < x)) {
                            color
                        } else {
                            start.at(u, v)
                        }),
                decreases x1 - x,
            {
                proof {
                    place_in_range(width as int, height as int, x as int, y as int);
                }
                let at: usize = y as usize * width as usize + x as usize;
                let ghost before = *self;
                self.pixels.set(at, color);
                proof {
                    assert forall|u: int, v: int| 0 <= u < width && 0 <= v < height implies
                        #[trigger] self.at(u, v) == (if left <= u < right && top <= v < bottom && (v
                        < y || (v == y && u < x + 1)) {
                        color
                    } else {
                        start.at(u, v)
                    }) by {
                        place_in_range(width as int, height as int, u, v);
                        if u == x && v == y {
                        } else {
                            places_differ(width as int, u, v, x as int, y as int);
                            assert(self.at(u, v) == before.at(u, v));
                        }
                    }
                }
                x = x + 1;
            }
            y = y + 1;
        }
    }
}

proof fn place_in_range(width: int, height: int, x: int, y: int)
    requires
        0 <= x < width,
        0 <= y < height,
    ensures
        0 <= y * width + x < width * height,
        0 <= y * width <= width * height,
{
    assert(0 <= y * width && y * width + width <= width * height) by (nonlinear_arith)
        requires
            0 <= y < height,
            width > 0,
    ;
}

proof fn places_differ(width: int, u: int, v: int, x: int, y: int)
    requires
        0 <= u < width,
        0 <= x < width,
        u != x || v != y,
    ensures
        v * width + u != y * width + x,
{
    if v < y {
        assert(v * width + width <= y * width) by (nonlinear_arith)
            requires
                v + 1 <= y,
                width > 0,
        ;
    } else if v > y {
        assert(y * width + width <= v * width) by (nonlinear_arith)
            requires
                y + 1 <= v,
                width > 0,
        ;
    }
}

/// How drawn text becomes pixels.
#[derive(Clone, Copy, Debug, PartialEq, Eq, Structural)]
pub enum TextStyle {
    /// White text on a shaded ground.
    Subtitle,
    /// Faint white text on nothing.
    Idle,
    /// Light text on a dark panel.
    Panel,
    /// White text on a ground that is drawn already.
    Volume,
}

/// The brightest colour of a pixel.
pub open spec fn intensity(p: Pixel) -> u8 {
    let m = if p.b >= p.g {
        p.b
    } else {
        p.g
    };
    if m >= p.r {
        m
    } else {
        p.r
    }
}

fn intensity_of(p: Pixel) -> (r: u8)
    ensures
        r == intensity(p),
{
    let m: u8 = if p.b >= p.g {
        p.b
    } else {
        p.g
    };
    if m >= p.r {
        m
    } else {
        p.r
    }
}

/// A white pixel.
pub open spec fn white(a: u8) -> Pixel {
    Pixel { b: 255, g: 255, r: 255, a }
}

/// At least a bound.
pub open spec fn at_least(n: u8, bound: u8) -> u8 {
    if n >= bound {
        n
    } else {
        bound
    }
}

/// What a drawn pixel becomes.
pub open spec fn text_pixel(style: TextStyle, p: Pixel) -> Pixel {
    let i = intensity(p);
    match style {
        TextStyle::Subtitle => if i > 0 {
            white(at_least(i, 180))
        } else {
            Pixel { b: 0, g: 0, r: 0, a: 96 }
        },
        TextStyle::Idle => if i > 0 && p.a == 0 {
            white(at_least(i / 2, 40))
        } else {
            p
        },
        TextStyle::Panel => if i > 4 {
            Pixel {
                b: 235,
                g: 235,
                r: 240,
                a: if i <= 230 {
                    i
                } else {
                    230
                },
            }
        } else {
            Pixel { b: 22, g: 20, r: 18, a: 218 }
        },
        TextStyle::Volume => if i > 0 && p.a == 0 {
            white(at_least(i, 190))
        } else {
            p
        },
    }
}

fn raise(n: u8, bound: u8) -> (r: u8)
    ensures
        r == at_least(n, bound),
{
    if n >= bound {
        n
    } else {
        bound
    }
}

fn text_pixel_of(style: TextStyle, p: Pixel) -> (r: Pixel)
    ensures
        r == text_pixel(style, p),
{
    let i: u8 = intensity_of(p);
    match style {
        TextStyle::Subtitle => if i > 0 {
            Pixel { b: 255, g: 255, r: 255, a: raise(i, 180) }
        } else {
            Pixel { b: 0, g: 0, r: 0, a: 96 }
        },
        TextStyle::Idle => if i > 0 && p.a == 0 {
            Pixel { b: 255, g: 255, r: 255, a: raise(i / 2, 40) }
        } else {
            p
        },
        TextStyle::Panel => if i > 4 {
            let a: u8 = if i <= 230 {
                i
            } else {
                230
            };
            Pixel { b: 235, g: 235, r: 240, a }
        } else {
            Pixel { b: 22, g: 20, r: 18, a: 218 }
        },
        TextStyle::Volume => if i > 0 && p.a == 0 {
            Pixel { b: 255, g: 255, r: 255, a: raise(i, 190) }
        } else {
            p
        },
    }
}

/// Turns drawn text into translucent pixels.
pub fn finish_text(drawn: &Vec<Pixel>, style: TextStyle) -> (r: Vec<Pixel>)
    ensures
        r@ == drawn@.map_values(|p: Pixel| text_pixel(style, p)),
{
    let ghost want = drawn@.map_values(|p: Pixel| text_pixel(style, p));
    let mut out: Vec<Pixel> = Vec::new();
    let mut i: usize = 0;
    while i < drawn.len()
        invariant
            i <= drawn@.len(),
            want == drawn@.map_values(|p: Pixel| text_pixel(style, p)),
            out@ == want.take(i as int),
        decreases drawn@.len() - i,
    {
        out.push(text_pixel_of(style, drawn[i]));
        proof {
            assert(want.take(i + 1) =~= want.take(i as int).push(want[i as int]));
        }
        i = i + 1;
    }
    proof {
        assert(want.take(want.len() as int) =~= want);
    }
    out
}

/// A pixel of the timeline under a drawn label: text turns it white and covers
/// at least as much as before.
pub open spec fn labelled(under: Pixel, label: Pixel) -> Pixel {
    let i = intensity(label);
    if i == 0 {
        under
    } else {
        white(at_least(under.a, at_least(i, 170)))
    }
}

/// Puts a drawn label of the same size over a picture.
pub fn draw_label(under: &Vec<Pixel>, label: &Vec<Pixel>) -> (r: Vec<Pixel>)
    requires
        under@.len() == label@.len(),
    ensures
        r@.len() == under@.len(),
        forall|k: int| 0 <= k < under@.len() ==> #[trigger] r@[k] == labelled(under@[k], label@[k]),
{
    let mut out: Vec<Pixel> = Vec::new();
    let mut i: usize = 0;
    while i < under.len()
        invariant
            i <= under@.len(),
            under@.len() == label@.len(),
            out@.len() == i,
            forall|k: int| 0 <= k < i ==> #[trigger] out@[k] == labelled(under@[k], label@[k]),
        decreases under@.len() - i,
    {
        let light: u8 = intensity_of(label[i]);
        let p: Pixel = under[i];
        if light == 0 {
            out.push(p);
        } else {
            out.push(Pixel { b: 255, g: 255, r: 255, a: raise(p.a, raise(light, 170)) });
        }
        i = i + 1;
    }
    out
}

/// A pixel of a chosen row: its ground is brightened, its text is left.
pub open spec fn highlighted(p: Pixel) -> Pixel {
    if p.b < 40 && p.g < 40 {
        Pixel { b: 46, g: 52, r: 70, a: 230 }
    } else {
        p
    }
}

/// Brightens the ground of the places from `from` to `to`.
pub fn highlight_places(pixels: &Vec<Pixel>, from: usize, to: usize) -> (r: Vec<Pixel>)
    ensures
        r@.len() == pixels@.len(),
        forall|k: int|
            0 <= k < pixels@.len() ==> #[trigger] r@[k] == (if from <= k < to {
                highlighted(pixels@[k])
            } else {
                pixels@[k]
            }),
{
    let mut out: Vec<Pixel> = Vec::new();
    let mut i: usize = 0;
    while i < pixels.len()
        invariant
            i <= pixels@.len(),
            out@.len() == i,
            forall|k: int|
                0 <= k < i ==> #[trigger] out@[k] == (if from <= k < to {
                    highlighted(pixels@[k])
                } else {
                    pixels@[k]
                }),
        decreases pixels@.len() - i,
    {
        let p: Pixel = pixels[i];
        if from <= i && i < to && p.b < 40 && p.g < 40 {
            out.push(Pixel { b: 46, g: 52, r: 70, a: 230 });
        } else {
            out.push(p);
        }
        i = i + 1;
    }
    out
}

/// Text of a panel stays text when its row is highlighted, and ground becomes
/// brighter ground.
pub proof fn highlight_keeps_panel_text(p: Pixel)
    ensures
        intensity(p) > 4 ==> highlighted(text_pixel(TextStyle::Panel, p)) == text_pixel(
            TextStyle::Panel,
            p,
        ),
        intensity(p) <= 4 ==> highlighted(text_pixel(TextStyle::Panel, p)) == (Pixel {
            b: 46,
            g: 52,
            r: 70,
            a: 230,
        }),
{
}

/// A pixel that covers nothing leaves what is under it, one that covers all
/// replaces it, and so does one over nothing; any other is mixed with it, and
/// covers more than either.
pub proof fn blending_goes_by_coverage(dest: Pixel, src: Pixel)
    ensures
        src.a == 0 ==> blended(dest, src) == dest,
        src.a == 255 ==> blended(dest, src) == src,
        dest.a == 0 && src.a > 0 ==> blended(dest, src) == src,
        0 < src.a < 255 && dest.a > 0 ==> {
            let (s, d) = (src.a as int, dest.a as int);
            let a = s + d - s * d / 255;
            &&& blended(dest, src).a == a as u8
            &&& blended(dest, src).b == ((src.b * s + dest.b * d * (255 - s) / 255) / a) as u8
            &&& blended(dest, src).g == ((src.g * s + dest.g * d * (255 - s) / 255) / a) as u8
            &&& blended(dest, src).r == ((src.r * s + dest.r * d * (255 - s) / 255) / a) as u8
        },
{
}

/// A pixel is as bright as the brightest of its colours.
pub proof fn brightest_colour_counts(p: Pixel)
    ensures
        p.b <= intensity(p),
        p.g <= intensity(p),
        p.r <= intensity(p),
        intensity(p) == p.b || intensity(p) == p.g || intensity(p) == p.r,
{
}

/// Text is drawn white: that of a subtitle covers at least 180 parts and the
/// ground around it is a shade of 96, and a label on the timeline covers at least
/// 170 parts and leaves what it does not touch.
pub proof fn text_is_drawn_white(p: Pixel, under: Pixel)
    ensures
        p.b > 0 || p.g > 0 || p.r > 0 ==> {
            let s = text_pixel(TextStyle::Subtitle, p);
            let l = labelled(under, p);
            &&& s.b == 255 && s.g == 255 && s.r == 255 && s.a >= 180 && s.a >= p.b && s.a >= p.g
                && s.a >= p.r
            &&& l.b == 255 && l.g == 255 && l.r == 255 && l.a >= 170 && l.a >= under.a
        },
        p.b == 0 && p.g == 0 && p.r == 0 ==> {
            &&& text_pixel(TextStyle::Subtitle, p) == (Pixel { b: 0, g: 0, r: 0, a: 96 })
            &&& labelled(under, p) == under
        },
{
}

} // verus!
