//! Pixel-format encoding of accumulation-buffer cells.
//!
//! A cell's linear light level is clamped into the unit interval, optionally
//! gamma-compressed, scaled to the format's integer sample range, rounded to
//! nearest and clamped there (saturation).  The gamma transfer curve is the
//! square root (exponent-two gamma); this choice is observable in all
//! gamma-compressed output.  Five byte-level formats are supported: 8-bit
//! gamma raw, 10- and 12-bit linear little-endian raw, and 8-bit gamma or
//! 16-bit linear grayscale PNG.  Subsampled readout decimates: it keeps the
//! top-left cell of each block; this choice is observable in output.

use vstd::arithmetic::div_mod::{
    lemma_div_is_ordered, lemma_div_pos_is_pos, lemma_fundamental_div_mod,
    lemma_fundamental_div_mod_converse_div, lemma_fundamental_div_mod_converse_mod,
};
use vstd::prelude::*;

use crate::fixed::{
    fx_clamp_unit, fx_sqrt, lemma_isqrt_bounds, spec_clamp_unit, spec_fx_sqrt, spec_isqrt,
    FX_HALF, FX_ONE,
};

verus! {

/// Canvas image window coordinates.
///
/// Defines a rectangular region on the canvas to export the image from; the
/// origin is the upper left corner.  A window is a plain value, owned by no
/// canvas.
#[derive(Clone, Copy, Debug, PartialEq, Eq, Hash, Structural)]
pub struct Window {
    /// Window origin X coordinate
    pub x: u32,
    /// Window origin Y coordinate
    pub y: u32,
    /// Width in X direction
    pub w: u32,
    /// Height in Y direction
    pub h: u32,
}

/// Exportable canvas image formats.
#[derive(Clone, Copy, Debug, PartialEq, Eq, Hash, Structural)]
pub enum ImageFormat {
    /// 8-bit gamma-compressed grayscale RAW
    RawGamma8Bpp,
    /// 10-bit linear light grayscale little-endian RAW
    RawLinear10BppLE,
    /// 12-bit linear light grayscale little-endian RAW
    RawLinear12BppLE,
    /// 8-bit gamma-compressed grayscale PNG
    PngGamma8Bpp,
    /// 16-bit linear light grayscale PNG
    PngLinear16Bpp,
}

/// Image export encoder error type.
#[derive(Clone, Copy, Debug, PartialEq, Eq, Hash, Structural)]
pub enum EncoderError {
    /// The requested image cannot be represented in the requested format
    /// (the PNG container has no encoding for an empty image).
    NotImplemented,
    /// Requested image window is out of bounds.
    BrokenWindow,
    /// Requested image subsampling factors are zero or do not evenly divide
    /// the canvas dimensions.
    InvalidSubsamplingRate,
}

impl Window {
    /// Creates a new window with given dimensions located at the origin.
    pub fn new(width: u32, height: u32) -> (r: Window)
        ensures
            r == (Window { x: 0, y: 0, w: width, h: height }),
    {
        Window { x: 0, y: 0, w: width, h: height }
    }

    /// Moves the window origin to the given origin coordinates.
    pub fn at(&self, x: u32, y: u32) -> (r: Window)
        ensures
            r == (Window { x, y, w: self.w, h: self.h }),
    {
        Window { x, y, w: self.w, h: self.h }
    }

    /// Creates a window from origin coordinates and dimensions.
    pub fn from_origin_size(origin: (u32, u32), size: (u32, u32)) -> (r: Window)
        ensures
            r == (Window { x: origin.0, y: origin.1, w: size.0, h: size.1 }),
    {
        Window { x: origin.0, y: origin.1, w: size.0, h: size.1 }
    }
}

/// Whether the window rectangle lies entirely inside a canvas rectangle.
pub open spec fn spec_window_inside(win: Window, width: u32, height: u32) -> bool {
    win.x + win.w <= width && win.y + win.h <= height
}

/// Checks whether the window rectangle is inside the canvas rectangle.
pub fn window_inside(win: &Window, width: u32, height: u32) -> (r: bool)
    ensures
        r == spec_window_inside(*win, width, height),
{
    (win.x as u64) + (win.w as u64) <= (width as u64) && (win.y as u64) + (win.h as u64) <= (
    height as u64)
}

/// Whether subsampling factors are accepted for a canvas: both positive,
/// both dividing their canvas dimension evenly, and the reduced image
/// nonempty.
pub open spec fn spec_factors_valid(factors: (u32, u32), width: u32, height: u32) -> bool {
    &&& factors.0 >= 1
    &&& factors.1 >= 1
    &&& (width as int) % (factors.0 as int) == 0
    &&& (height as int) % (factors.1 as int) == 0
    &&& (width as int) / (factors.0 as int) >= 1
    &&& (height as int) / (factors.1 as int) >= 1
}

/// Checks subsampling factors against the canvas dimensions.
pub fn factors_valid(factors: (u32, u32), width: u32, height: u32) -> (r: bool)
    ensures
        r == spec_factors_valid(factors, width, height),
{
    factors.0 >= 1 && factors.1 >= 1 && width % factors.0 == 0 && height % factors.1 == 0
        && width / factors.0 >= 1 && height / factors.1 >= 1
}

/// Whether a format wraps its samples in the PNG container.
pub open spec fn spec_format_is_png(fmt: ImageFormat) -> bool {
    fmt == ImageFormat::PngGamma8Bpp || fmt == ImageFormat::PngLinear16Bpp
}

/// The linear light level representing an integer background pixel value:
/// `level / PIXEL_MAX` rounded to the nearest fixed-point unit value.
pub open spec fn spec_bg_linear(level: int) -> int {
    (2 * level * (FX_ONE as int) + 65535) / 131070
}

/// Converts a background pixel level to its linear cell value.
pub fn bg_linear(level: u16) -> (r: i64)
    ensures
        r == spec_bg_linear(level as int),
        0 <= r <= FX_ONE,
{
    let num: u64 = 2 * (level as u64) * 1048576 + 65535;
    let q: u64 = num / 131070;
    proof {
        lemma_div_is_ordered(num as int, 2int * 65535 * 1048576 + 65535, 131070);
        lemma_div_pos_is_pos(num as int, 131070);
    }
    q as i64
}

/// Linear quantization: the unit-clamped cell value scaled to `[0, max]`
/// and rounded to nearest.
pub open spec fn spec_quant_linear(v: int, max: int) -> int {
    (spec_clamp_unit(v) * max + (FX_HALF as int)) / (FX_ONE as int)
}

/// Gamma quantization to 8 bits: the square root of the unit-clamped cell
/// value scaled to `[0, 255]` and rounded to nearest.
pub open spec fn spec_quant_gamma8(v: int) -> int {
    (spec_fx_sqrt(spec_clamp_unit(v)) * 255 + (FX_HALF as int)) / (FX_ONE as int)
}

/// The linear quantization stays within the sample range.
pub proof fn lemma_quant_linear_range(v: int, max: int)
    requires
        0 <= max,
    ensures
        0 <= spec_quant_linear(v, max) <= max,
{
    let s = FX_ONE as int;
    let c = spec_clamp_unit(v);
    assert(c * max >= 0) by (nonlinear_arith)
        requires
            c >= 0,
            max >= 0,
    ;
    assert(c * max <= s * max) by (nonlinear_arith)
        requires
            0 <= c <= s,
            max >= 0,
    ;
    lemma_div_pos_is_pos(c * max + (FX_HALF as int), s);
    lemma_div_is_ordered(c * max + (FX_HALF as int), s * max + (FX_HALF as int), s);
    assert(s * max + (FX_HALF as int) == max * s + (FX_HALF as int)) by (nonlinear_arith);
    lemma_fundamental_div_mod_converse_div(s * max + (FX_HALF as int), s, max, FX_HALF as int);
}

/// The fixed-point square root of a unit-interval value stays in the unit
/// interval.
pub proof fn lemma_fx_sqrt_range(v: int)
    requires
        0 <= v <= FX_ONE,
    ensures
        0 <= spec_fx_sqrt(v) <= FX_ONE,
{
    let s = FX_ONE as int;
    let x = (v * s) as nat;
    assert(v * s <= s * s) by (nonlinear_arith)
        requires
            0 <= v <= s,
    ;
    lemma_isqrt_bounds(x);
    let r = spec_isqrt(x);
    assert(r <= s) by (nonlinear_arith)
        requires
            r * r <= x,
            x <= s * s,
            r >= 0,
            s >= 0,
    ;
}

/// The gamma quantization stays within the 8-bit sample range.
pub proof fn lemma_quant_gamma8_range(v: int)
    ensures
        0 <= spec_quant_gamma8(v) <= 255,
{
    let s = FX_ONE as int;
    let g = spec_fx_sqrt(spec_clamp_unit(v));
    lemma_fx_sqrt_range(spec_clamp_unit(v));
    lemma_div_pos_is_pos(g * 255 + (FX_HALF as int), s);
    lemma_div_is_ordered(g * 255 + (FX_HALF as int), s * 255 + (FX_HALF as int), s);
    assert(s * 255 + (FX_HALF as int) == 255 * s + (FX_HALF as int)) by (nonlinear_arith);
    lemma_fundamental_div_mod_converse_div(s * 255 + (FX_HALF as int), s, 255, FX_HALF as int);
}

/// Law: 16-bit linear quantization inverts the background conversion
/// exactly, for every background pixel level.
pub proof fn lemma_bg_roundtrip16(level: int)
    requires
        0 <= level <= 65535,
    ensures
        spec_quant_linear(spec_bg_linear(level), 65535) == level,
{
    let s = FX_ONE as int;
    let d = 131070int;
    let v = spec_bg_linear(level);
    lemma_fundamental_div_mod(2 * level * s + 65535, d);
    let rem = (2 * level * s + 65535) % d;
    assert(2 * level * s + 65535 == d * v + rem);
    assert(0 <= rem < d);
    assert(0 <= v <= s) by (nonlinear_arith)
        requires
            2 * level * s + 65535 == d * v + rem,
            0 <= rem < d,
            0 <= level <= 65535,
            s == 1048576,
            d == 131070,
    ;
    assert(spec_clamp_unit(v) == v);
    let num = v * 65535 + (FX_HALF as int);
    assert(2 * num == 2 * level * s + s + 65535 - rem) by (nonlinear_arith)
        requires
            2 * level * s + 65535 == d * v + rem,
            num == v * 65535 + 524288,
            s == 1048576,
            d == 131070,
    ;
    assert(num - level * s >= 1) by (nonlinear_arith)
        requires
            2 * num == 2 * level * s + s + 65535 - rem,
            rem < d,
            s == 1048576,
            d == 131070,
    ;
    assert(num - level * s < s) by (nonlinear_arith)
        requires
            2 * num == 2 * level * s + s + 65535 - rem,
            rem >= 0,
            s == 1048576,
    ;
    lemma_fundamental_div_mod_converse_div(num, s, level, num - level * s);
}

/// Quantizes a cell value linearly into `[0, max]`.
pub fn quant_linear(v: i64, max: u16) -> (r: u16)
    ensures
        r == spec_quant_linear(v as int, max as int),
        r <= max,
{
    let c: i64 = fx_clamp_unit(v);
    proof {
        assert((c as int) * (max as int) <= 1048576int * 65535int) by (nonlinear_arith)
            requires
                0 <= c <= 1048576i64,
                0 <= max <= 65535u16,
        ;
        lemma_quant_linear_range(v as int, max as int);
    }
    let num: u64 = (c as u64) * (max as u64) + 524288;
    let q: u64 = num / 1048576;
    q as u16
}

/// Quantizes a cell value through the gamma curve into `[0, 255]`.
pub fn quant_gamma8(v: i64) -> (r: u8)
    ensures
        r == spec_quant_gamma8(v as int),
        r <= 255,
{
    let c: i64 = fx_clamp_unit(v);
    let g: i64 = fx_sqrt(c);
    proof {
        lemma_quant_gamma8_range(v as int);
    }
    let num: u64 = (g as u64) * 255 + 524288;
    let q: u64 = num / 1048576;
    q as u8
}

/// 8-bit gamma-compressed sample bytes of a cell sequence, one byte per
/// cell, row-major.
pub open spec fn spec_gamma8_samples(cells: Seq<i64>) -> Seq<u8> {
    Seq::new(cells.len(), |i: int| spec_quant_gamma8(cells[i] as int) as u8)
}

/// Little-endian linear sample bytes of a cell sequence, two bytes per
/// cell, the sample value in the low bits.
pub open spec fn spec_linear_le_samples(cells: Seq<i64>, max: int) -> Seq<u8> {
    Seq::new(
        2 * cells.len(),
        |j: int|
            if j % 2 == 0 {
                (spec_quant_linear(cells[j / 2] as int, max) % 256) as u8
            } else {
                (spec_quant_linear(cells[j / 2] as int, max) / 256) as u8
            },
    )
}

/// Big-endian 16-bit linear sample bytes of a cell sequence, two bytes per
/// cell, as the PNG sample stream requires.
pub open spec fn spec_linear_be16_samples(cells: Seq<i64>) -> Seq<u8> {
    Seq::new(
        2 * cells.len(),
        |j: int|
            if j % 2 == 0 {
                (spec_quant_linear(cells[j / 2] as int, 65535) / 256) as u8
            } else {
                (spec_quant_linear(cells[j / 2] as int, 65535) % 256) as u8
            },
    )
}

/// Builds the 8-bit gamma sample bytes of a cell vector.
fn gamma8_samples(cells: &Vec<i64>) -> (out: Vec<u8>)
    ensures
        out@ == spec_gamma8_samples(cells@),
{
    let mut out: Vec<u8> = Vec::new();
    let mut k: usize = 0;
    while k < cells.len()
        invariant
            k <= cells@.len(),
            out@.len() == k,
            forall|i: int| 0 <= i < k ==> out@[i] == spec_quant_gamma8(cells@[i] as int) as u8,
        decreases cells@.len() - k,
    {
        let b: u8 = quant_gamma8(cells[k]);
        out.push(b);
        k += 1;
    }
    proof {
        assert(out@ =~= spec_gamma8_samples(cells@));
    }
    out
}

/// Builds little-endian linear sample bytes of a cell vector.
fn linear_le_samples(cells: &Vec<i64>, max: u16) -> (out: Vec<u8>)
    ensures
        out@ == spec_linear_le_samples(cells@, max as int),
{
    let mut out: Vec<u8> = Vec::new();
    let mut k: usize = 0;
    while k < cells.len()
        invariant
            k <= cells@.len(),
            out@.len() == 2 * k,
            forall|j: int|
                0 <= j < 2 * k ==> out@[j] == (if j % 2 == 0 {
                    (spec_quant_linear(cells@[j / 2] as int, max as int) % 256) as u8
                } else {
                    (spec_quant_linear(cells@[j / 2] as int, max as int) / 256) as u8
                }),
        decreases cells@.len() - k,
    {
        let q: u16 = quant_linear(cells[k], max);
        out.push((q % 256) as u8);
        out.push((q / 256) as u8);
        k += 1;
    }
    proof {
        assert(out@ =~= spec_linear_le_samples(cells@, max as int));
    }
    out
}

/// Builds big-endian 16-bit linear sample bytes of a cell vector.
fn linear_be16_samples(cells: &Vec<i64>) -> (out: Vec<u8>)
    ensures
        out@ == spec_linear_be16_samples(cells@),
{
    let mut out: Vec<u8> = Vec::new();
    let mut k: usize = 0;
    while k < cells.len()
        invariant
            k <= cells@.len(),
            out@.len() == 2 * k,
            forall|j: int|
                0 <= j < 2 * k ==> out@[j] == (if j % 2 == 0 {
                    (spec_quant_linear(cells@[j / 2] as int, 65535) / 256) as u8
                } else {
                    (spec_quant_linear(cells@[j / 2] as int, 65535) % 256) as u8
                }),
        decreases cells@.len() - k,
    {
        let q: u16 = quant_linear(cells[k], 65535);
        out.push((q / 256) as u8);
        out.push((q % 256) as u8);
        k += 1;
    }
    proof {
        assert(out@ =~= spec_linear_be16_samples(cells@));
    }
    out
}

/// The PNG container bytes produced for a grayscale image of the given
/// dimensions, bit depth and sample bytes.
pub uninterp spec fn png_gray_bytes(
    width: int,
    height: int,
    sixteen_bit: bool,
    samples: Seq<u8>,
) -> Seq<u8>;

/// Relies on `png::Encoder` (grayscale color type, 8- or 16-bit depth,
/// nonzero dimensions): writes the PNG container around the given sample
/// bytes into an in-memory buffer; the output depends on the arguments
/// alone.
#[verifier::external_body]
fn png_encode_gray(width: u32, height: u32, sixteen_bit: bool, samples: &Vec<u8>) -> (r: Vec<u8>)
    requires
        width >= 1,
        height >= 1,
        samples@.len() == (if sixteen_bit {
            2int
        } else {
            1int
        }) * (width as int) * (height as int),
    ensures
        r@ == png_gray_bytes(width as int, height as int, sixteen_bit, samples@),
{
    let mut out: Vec<u8> = Vec::new();
    let mut enc = png::Encoder::new(&mut out, width, height);
    enc.set_color(png::ColorType::Grayscale);
    enc.set_depth(if sixteen_bit { png::BitDepth::Sixteen } else { png::BitDepth::Eight });
    let mut writer = enc.write_header().unwrap();
    writer.write_image_data(samples).unwrap();
    writer.finish().unwrap();
    out
}

/// Encoded bytes of a cell region of the given dimensions in a format.
///
/// For the PNG formats this is meaningful only for nonzero dimensions; the
/// export operations report those requests as errors.
pub open spec fn spec_encoded_bytes(
    cells: Seq<i64>,
    width: int,
    height: int,
    fmt: ImageFormat,
) -> Seq<u8> {
    match fmt {
        ImageFormat::RawGamma8Bpp => spec_gamma8_samples(cells),
        ImageFormat::RawLinear10BppLE => spec_linear_le_samples(cells, 1023),
        ImageFormat::RawLinear12BppLE => spec_linear_le_samples(cells, 4095),
        ImageFormat::PngGamma8Bpp => png_gray_bytes(
            width,
            height,
            false,
            spec_gamma8_samples(cells),
        ),
        ImageFormat::PngLinear16Bpp => png_gray_bytes(
            width,
            height,
            true,
            spec_linear_be16_samples(cells),
        ),
    }
}

/// Encodes a cell region of the given dimensions into image bytes.
///
/// Fails only for a PNG format on an empty region, which the PNG container
/// cannot represent.
pub fn encode_region(cells: &Vec<i64>, width: u32, height: u32, fmt: ImageFormat) -> (r: Result<
    Vec<u8>,
    EncoderError,
>)
    requires
        cells@.len() == (width as int) * (height as int),
    ensures
        (spec_format_is_png(fmt) && (width == 0 || height == 0)) <==> r is Err,
        r matches Err(e) ==> e == EncoderError::NotImplemented,
        r matches Ok(b) ==> b@ == spec_encoded_bytes(cells@, width as int, height as int, fmt),
{
    match fmt {
        ImageFormat::RawGamma8Bpp => Ok(gamma8_samples(cells)),
        ImageFormat::RawLinear10BppLE => Ok(linear_le_samples(cells, 1023)),
        ImageFormat::RawLinear12BppLE => Ok(linear_le_samples(cells, 4095)),
        ImageFormat::PngGamma8Bpp => {
            if width == 0 || height == 0 {
                Err(EncoderError::NotImplemented)
            } else {
                let samples: Vec<u8> = gamma8_samples(cells);
                proof {
                    assert((1int * (width as int)) * (height as int) == (width as int) * (
                    height as int)) by (nonlinear_arith);
                }
                Ok(png_encode_gray(width, height, false, &samples))
            }
        },
        ImageFormat::PngLinear16Bpp => {
            if width == 0 || height == 0 {
                Err(EncoderError::NotImplemented)
            } else {
                let samples: Vec<u8> = linear_be16_samples(cells);
                proof {
                    assert((2int * (width as int)) * (height as int) == 2 * ((width as int) * (
                    height as int))) by (nonlinear_arith);
                }
                Ok(png_encode_gray(width, height, true, &samples))
            }
        },
    }
}

/// The cells of a window region of a row-major cell sequence, row-major.
pub open spec fn spec_window_cells(cells: Seq<i64>, width: int, win: Window) -> Seq<i64> {
    Seq::new(
        ((win.w as int) * (win.h as int)) as nat,
        |i: int|
            cells[(win.y as int + i / (win.w as int)) * width + win.x as int + i % (
            win.w as int)],
    )
}

/// The cells of a decimated readout: the top-left cell of each
/// `fx` by `fy` block, row-major over the reduced grid.
pub open spec fn spec_sub_cells(
    cells: Seq<i64>,
    width: int,
    fx: int,
    fy: int,
    sw: int,
    sh: int,
) -> Seq<i64> {
    Seq::new(
        (sw * sh) as nat,
        |i: int| cells[((i / sw) * fy) * width + (i % sw) * fx],
    )
}

/// A row-major index from in-range row and column is in range.
proof fn lemma_row_major_index(width: int, height: int, row: int, col: int)
    requires
        0 <= col < width,
        0 <= row < height,
    ensures
        0 <= row * width + col < width * height,
{
    assert(0 <= row * width + col < width * height) by (nonlinear_arith)
        requires
            0 <= col < width,
            0 <= row < height,
    ;
}

/// Copies the cells of an in-bounds window into a fresh row-major vector.
pub fn select_window(cells: &Vec<i64>, width: u32, height: u32, win: &Window) -> (out: Vec<i64>)
    requires
        cells@.len() == (width as int) * (height as int),
        spec_window_inside(*win, width, height),
    ensures
        out@ == spec_window_cells(cells@, width as int, *win),
{
    let n: usize = cells.len();
    let mut out: Vec<i64> = Vec::new();
    let mut row: u32 = 0;
    while row < win.h
        invariant
            n == cells@.len(),
            cells@.len() == (width as int) * (height as int),
            spec_window_inside(*win, width, height),
            row <= win.h,
            out@.len() == (row as int) * (win.w as int),
            forall|i: int|
                0 <= i < out@.len() ==> out@[i] == cells@[(win.y as int + i / (win.w as int))
                    * (width as int) + win.x as int + i % (win.w as int)],
        decreases win.h - row,
    {
        let mut col: u32 = 0;
        while col < win.w
            invariant
                n == cells@.len(),
                cells@.len() == (width as int) * (height as int),
                spec_window_inside(*win, width, height),
                row < win.h,
                col <= win.w,
                out@.len() == (row as int) * (win.w as int) + col as int,
                forall|i: int|
                    0 <= i < out@.len() ==> out@[i] == cells@[(win.y as int + i / (win.w as int))
                        * (width as int) + win.x as int + i % (win.w as int)],
            decreases win.w - col,
        {
            let cy: u32 = win.y + row;
            let cx: u32 = win.x + col;
            proof {
                lemma_row_major_index(width as int, height as int, cy as int, cx as int);
                let p = (row as int) * (win.w as int) + col as int;
                lemma_fundamental_div_mod_converse_div(
                    p,
                    win.w as int,
                    row as int,
                    col as int,
                );
                lemma_fundamental_div_mod_converse_mod(
                    p,
                    win.w as int,
                    row as int,
                    col as int,
                );
            }
            let idx: u64 = (cy as u64) * (width as u64) + (cx as u64);
            out.push(cells[idx as usize]);
            col += 1;
        }
        proof {
            assert(((row as int) + 1) * (win.w as int) == (row as int) * (win.w as int) + (
            win.w as int)) by (nonlinear_arith);
        }
        row += 1;
    }
    proof {
        assert((win.h as int) * (win.w as int) == (win.w as int) * (win.h as int))
            by (nonlinear_arith);
    }
    proof {
        assert(out@ =~= spec_window_cells(cells@, width as int, *win));
    }
    out
}

/// Copies a decimated readout of the whole canvas into a fresh vector.
pub fn select_subsampled(cells: &Vec<i64>, width: u32, height: u32, fx: u32, fy: u32) -> (out:
    Vec<i64>)
    requires
        cells@.len() == (width as int) * (height as int),
        spec_factors_valid((fx, fy), width, height),
    ensures
        out@ == spec_sub_cells(
            cells@,
            width as int,
            fx as int,
            fy as int,
            (width as int) / (fx as int),
            (height as int) / (fy as int),
        ),
{
    let sw: u32 = width / fx;
    let sh: u32 = height / fy;
    proof {
        lemma_fundamental_div_mod(width as int, fx as int);
        lemma_fundamental_div_mod(height as int, fy as int);
    }
    let n: usize = cells.len();
    let mut out: Vec<i64> = Vec::new();
    let mut row: u32 = 0;
    while row < sh
        invariant
            n == cells@.len(),
            cells@.len() == (width as int) * (height as int),
            sw == (width as int) / (fx as int),
            sh == (height as int) / (fy as int),
            fx >= 1,
            fy >= 1,
            (width as int) == (fx as int) * (sw as int),
            (height as int) == (fy as int) * (sh as int),
            row <= sh,
            out@.len() == (row as int) * (sw as int),
            forall|i: int|
                0 <= i < out@.len() ==> out@[i] == cells@[((i / (sw as int)) * (fy as int))
                    * (width as int) + (i % (sw as int)) * (fx as int)],
        decreases sh - row,
    {
        let mut col: u32 = 0;
        while col < sw
            invariant
                n == cells@.len(),
                cells@.len() == (width as int) * (height as int),
                fx >= 1,
                fy >= 1,
                (width as int) == (fx as int) * (sw as int),
                (height as int) == (fy as int) * (sh as int),
                row < sh,
                col <= sw,
                out@.len() == (row as int) * (sw as int) + col as int,
                forall|i: int|
                    0 <= i < out@.len() ==> out@[i] == cells@[((i / (sw as int)) * (fy as int))
                        * (width as int) + (i % (sw as int)) * (fx as int)],
            decreases sw - col,
        {
            proof {
                assert((row as int) * (fy as int) < height as int && (col as int) * (fx as int)
                    < width as int) by (nonlinear_arith)
                    requires
                        row < sh,
                        col < sw,
                        fx >= 1,
                        fy >= 1,
                        (width as int) == (fx as int) * (sw as int),
                        (height as int) == (fy as int) * (sh as int),
                ;
            }
            let cy: u64 = (row as u64) * (fy as u64);
            let cx: u64 = (col as u64) * (fx as u64);
            proof {
                lemma_row_major_index(width as int, height as int, cy as int, cx as int);
                let p = (row as int) * (sw as int) + col as int;
                lemma_fundamental_div_mod_converse_div(p, sw as int, row as int, col as int);
                lemma_fundamental_div_mod_converse_mod(p, sw as int, row as int, col as int);
            }
            let idx: u64 = cy * (width as u64) + cx;
            out.push(cells[idx as usize]);
            col += 1;
        }
        proof {
            assert(((row as int) + 1) * (sw as int) == (row as int) * (sw as int) + (sw as int))
                by (nonlinear_arith);
        }
        row += 1;
    }
    proof {
        assert((sh as int) * (sw as int) == (sw as int) * (sh as int)) by (nonlinear_arith);
    }
    proof {
        assert(out@ =~= spec_sub_cells(
            cells@,
            width as int,
            fx as int,
            fy as int,
            sw as int,
            sh as int,
        ));
    }
    out
}

/// Law: selecting the full-canvas window yields the whole cell sequence
/// unchanged, so a full-window export encodes exactly the bytes of the
/// plain whole-canvas export in every format.
pub proof fn lemma_full_window_cells(cells: Seq<i64>, width: u32, height: u32)
    requires
        cells.len() == (width as int) * (height as int),
    ensures
        spec_window_cells(cells, width as int, Window { x: 0, y: 0, w: width, h: height })
            == cells,
{
    let win = Window { x: 0, y: 0, w: width, h: height };
    let sel = spec_window_cells(cells, width as int, win);
    assert forall|i: int| 0 <= i < sel.len() implies sel[i] == cells[i] by {
        if width > 0 {
            lemma_fundamental_div_mod(i, width as int);
            assert((i / (width as int)) * (width as int) + i % (width as int) == i)
                by (nonlinear_arith)
                requires
                    i == (width as int) * (i / (width as int)) + i % (width as int),
            ;
        }
    }
    assert(sel =~= cells);
}

/// Law: each encoding carries one sample per cell: one byte per cell in
/// 8-bit raw form, two bytes per cell in the 16-bit-packed forms.
pub proof fn lemma_encoded_lengths(cells: Seq<i64>)
    ensures
        spec_gamma8_samples(cells).len() == cells.len(),
        spec_linear_le_samples(cells, 1023).len() == 2 * cells.len(),
        spec_linear_le_samples(cells, 4095).len() == 2 * cells.len(),
        spec_linear_be16_samples(cells).len() == 2 * cells.len(),
{
}

/// Law: the decimated readout has exactly the reduced grid's cell count.
pub proof fn lemma_subsampled_cell_count(
    cells: Seq<i64>,
    width: int,
    fx: int,
    fy: int,
    sw: int,
    sh: int,
)
    requires
        sw >= 0,
        sh >= 0,
    ensures
        spec_sub_cells(cells, width, fx, fy, sw, sh).len() == sw * sh,
{
}

} // verus!
