//! The light spots drawing canvas: the facade composing the spot registry,
//! the accumulation buffer and the encoder behind one stateful object.
//!
//! A canvas owns its dimensions (fixed at construction), a background pixel
//! level, a global brightness factor, the view transform, the registered
//! spots and the per-pixel linear light accumulation buffer.  `clear` resets
//! the buffer to the background level; `draw` adds the spots' contributions
//! on top of the current buffer contents (callers clear first when they want
//! a fresh rendering).  Zero-sized dimensions form a valid, degenerate empty
//! canvas.

use vstd::prelude::*;

use crate::encode::{
    bg_linear, encode_region, factors_valid, lemma_full_window_cells, select_subsampled,
    select_window, spec_bg_linear, spec_encoded_bytes, spec_factors_valid, spec_format_is_png,
    spec_gamma8_samples, spec_quant_gamma8, spec_quant_linear, spec_sub_cells,
    spec_window_cells, spec_window_inside, window_inside, EncoderError, ImageFormat, Window,
    lemma_bg_roundtrip16,
};
use crate::fixed::{fx_mul, sat_add, FX_ONE};
use crate::geometry::{spec_transform_identity, Point, SpotShape, Transform, Vector};
use crate::render::{
    render_into, spec_render_acc, spec_spot_effective_intensity, spec_spot_world, SpotRec,
};

verus! {

/// Light spot descriptor: a stable opaque handle returned by `add_spot`,
/// valid only against the canvas that created it.
pub type SpotId = usize;

/// Opaque light spots drawing canvas object.
///
/// Generates the synthesized image containing multiple light spots.
pub struct Canvas {
    /// Canvas width in pixels
    pub width: u32,
    /// Canvas height in pixels
    pub height: u32,
    /// Background light level
    pub background: u16,
    /// Light spot draw list
    pub spots: Vec<SpotRec>,
    /// View transform matrix
    pub view: Transform,
    /// Global spot brightness factor
    pub brightness: i64,
    /// Accumulation buffer: linear light level of each pixel, row-major
    pub cells: Vec<i64>,
}

impl Canvas {
    /// Well-formedness: the accumulation buffer holds exactly one cell per
    /// canvas pixel.
    pub open spec fn wf(&self) -> bool {
        self.cells@.len() == (self.width as int) * (self.height as int)
    }

    /// Creates a new clear canvas to render light spots on.
    ///
    /// The buffer starts at the default background level zero; brightness
    /// is neutral and the view transform is the identity.
    pub fn new(width: u32, height: u32) -> (r: Canvas)
        requires
            (width as int) * (height as int) <= usize::MAX,
        ensures
            r.wf(),
            r.width == width,
            r.height == height,
            r.background == 0,
            r.brightness == FX_ONE,
            r.view == spec_transform_identity(),
            r.spots@.len() == 0,
            forall|i: int| 0 <= i < r.cells@.len() ==> r.cells@[i] == 0,
    {
        let count: usize = (width as usize) * (height as usize);
        let mut cells: Vec<i64> = Vec::new();
        let mut i: usize = 0;
        while i < count
            invariant
                i <= count,
                cells@.len() == i,
                forall|j: int| 0 <= j < i ==> cells@[j] == 0,
            decreases count - i,
        {
            cells.push(0);
            i += 1;
        }
        Canvas {
            width,
            height,
            background: 0,
            spots: Vec::new(),
            view: Transform::default(),
            brightness: FX_ONE,
            cells,
        }
    }

    /// Returns the canvas dimensions as `(width, height)`.
    pub fn dimensions(&self) -> (r: (u32, u32))
        ensures
            r == (self.width, self.height),
    {
        (self.width, self.height)
    }

    /// Creates a new light spot on the canvas and returns its handle.
    ///
    /// The spot starts with a zero offset and a neutral illumination
    /// factor.
    pub fn add_spot(&mut self, position: Point, shape: SpotShape, intensity: i64) -> (id: SpotId)
        ensures
            id == old(self).spots@.len(),
            final(self).spots@ == old(self).spots@.push(
                (SpotRec { position, offset: (0i64, 0i64), intensity, illumination: FX_ONE, shape }),
            ),
            final(self).width == old(self).width,
            final(self).height == old(self).height,
            final(self).background == old(self).background,
            final(self).view == old(self).view,
            final(self).brightness == old(self).brightness,
            final(self).cells@ == old(self).cells@,
    {
        let rec = SpotRec { position, offset: (0i64, 0i64), intensity, illumination: FX_ONE, shape };
        let id: usize = self.spots.len();
        self.spots.push(rec);
        id
    }

    /// Calculates the resolved position of the light spot: its immutable
    /// intrinsic position shifted by the current offset vector.
    ///
    /// The view transform plays no part in this query; it applies only
    /// when spots are rendered.  Unknown handles yield no value.
    pub fn spot_position(&self, spot: SpotId) -> (r: Option<Point>)
        ensures
            (spot as int) < self.spots@.len() <==> r is Some,
            r matches Some(p) ==> (p.0 as int, p.1 as int) == spec_spot_world(
                self.spots@[spot as int],
            ),
    {
        if spot < self.spots.len() {
            let s: SpotRec = self.spots[spot];
            let wx: i64 = sat_add(s.position.0, s.offset.0);
            let wy: i64 = sat_add(s.position.1, s.offset.1);
            Some((wx, wy))
        } else {
            None
        }
    }

    /// Calculates the effective peak intensity of the light spot: its
    /// intrinsic intensity times its illumination factor times the global
    /// brightness.  Unknown handles yield no value.
    pub fn spot_intensity(&self, spot: SpotId) -> (r: Option<i64>)
        ensures
            (spot as int) < self.spots@.len() <==> r is Some,
            r matches Some(v) ==> v == spec_spot_effective_intensity(
                self.spots@[spot as int],
                self.brightness as int,
            ),
    {
        if spot < self.spots.len() {
            let s: SpotRec = self.spots[spot];
            Some(fx_mul(fx_mul(s.intensity, s.illumination), self.brightness))
        } else {
            None
        }
    }

    /// Sets the light spot position offset vector.
    ///
    /// The offset is absolute: a later call replaces the vector instead of
    /// accumulating with it.  An unknown handle is a silent no-op.
    pub fn set_spot_offset(&mut self, spot: SpotId, offset: Vector)
        ensures
            (spot as int) < old(self).spots@.len() ==> final(self).spots@ == old(
                self,
            ).spots@.update(
                spot as int,
                (SpotRec { offset, ..old(self).spots@[spot as int] }),
            ),
            (spot as int) >= old(self).spots@.len() ==> final(self).spots@ == old(self).spots@,
            final(self).width == old(self).width,
            final(self).height == old(self).height,
            final(self).background == old(self).background,
            final(self).view == old(self).view,
            final(self).brightness == old(self).brightness,
            final(self).cells@ == old(self).cells@,
    {
        if spot < self.spots.len() {
            let mut rec: SpotRec = self.spots[spot];
            rec.offset = offset;
            self.spots.set(spot, rec);
        }
    }

    /// Sets the light spot illumination factor.
    ///
    /// An unknown handle is a silent no-op.
    pub fn set_spot_illumination(&mut self, spot: SpotId, illumination: i64)
        ensures
            (spot as int) < old(self).spots@.len() ==> final(self).spots@ == old(
                self,
            ).spots@.update(
                spot as int,
                (SpotRec { illumination, ..old(self).spots@[spot as int] }),
            ),
            (spot as int) >= old(self).spots@.len() ==> final(self).spots@ == old(self).spots@,
            final(self).width == old(self).width,
            final(self).height == old(self).height,
            final(self).background == old(self).background,
            final(self).view == old(self).view,
            final(self).brightness == old(self).brightness,
            final(self).cells@ == old(self).cells@,
    {
        if spot < self.spots.len() {
            let mut rec: SpotRec = self.spots[spot];
            rec.illumination = illumination;
            self.spots.set(spot, rec);
        }
    }

    /// Sets the background light level (dark pixel value).
    pub fn set_background(&mut self, level: u16)
        ensures
            final(self).background == level,
            final(self).width == old(self).width,
            final(self).height == old(self).height,
            final(self).spots@ == old(self).spots@,
            final(self).view == old(self).view,
            final(self).brightness == old(self).brightness,
            final(self).cells@ == old(self).cells@,
    {
        self.background = level;
    }

    /// Sets the world coordinates to canvas coordinates transformation.
    pub fn set_view_transform(&mut self, transform: &Transform)
        ensures
            final(self).view == *transform,
            final(self).width == old(self).width,
            final(self).height == old(self).height,
            final(self).background == old(self).background,
            final(self).spots@ == old(self).spots@,
            final(self).brightness == old(self).brightness,
            final(self).cells@ == old(self).cells@,
    {
        self.view = *transform;
    }

    /// Sets the global brightness level (light spot intensity adjustment).
    pub fn set_brightness(&mut self, brightness: i64)
        ensures
            final(self).brightness == brightness,
            final(self).width == old(self).width,
            final(self).height == old(self).height,
            final(self).background == old(self).background,
            final(self).spots@ == old(self).spots@,
            final(self).view == old(self).view,
            final(self).cells@ == old(self).cells@,
    {
        self.brightness = brightness;
    }

    /// Clears the accumulation buffer: every cell is reset to the linear
    /// light level of the background pixel value.
    pub fn clear(&mut self)
        requires
            old(self).wf(),
        ensures
            final(self).wf(),
            final(self).width == old(self).width,
            final(self).height == old(self).height,
            final(self).background == old(self).background,
            final(self).spots@ == old(self).spots@,
            final(self).view == old(self).view,
            final(self).brightness == old(self).brightness,
            final(self).cells@.len() == old(self).cells@.len(),
            forall|i: int|
                0 <= i < final(self).cells@.len() ==> final(self).cells@[i] == spec_bg_linear(
                    old(self).background as int,
                ),
    {
        let bg: i64 = bg_linear(self.background);
        let n: usize = self.cells.len();
        let mut i: usize = 0;
        while i < n
            invariant
                i <= n,
                n == self.cells@.len(),
                self.cells@.len() == old(self).cells@.len(),
                self.width == old(self).width,
                self.height == old(self).height,
                self.background == old(self).background,
                self.spots@ == old(self).spots@,
                self.view == old(self).view,
                self.brightness == old(self).brightness,
                bg == spec_bg_linear(old(self).background as int),
                forall|j: int| 0 <= j < i ==> self.cells@[j] == bg,
            decreases n - i,
        {
            self.cells.set(i, bg);
            i += 1;
        }
    }

    /// Draws the light spots onto the canvas image.
    ///
    /// Adds every registered spot's footprint contribution, in registry
    /// insertion order, on top of the current buffer contents; nothing is
    /// cleared first.
    pub fn draw(&mut self)
        requires
            old(self).wf(),
        ensures
            final(self).wf(),
            final(self).width == old(self).width,
            final(self).height == old(self).height,
            final(self).background == old(self).background,
            final(self).spots@ == old(self).spots@,
            final(self).view == old(self).view,
            final(self).brightness == old(self).brightness,
            final(self).cells@.len() == old(self).cells@.len(),
            forall|i: int|
                0 <= i < old(self).cells@.len() ==> final(self).cells@[i] == spec_render_acc(
                    old(self).spots@,
                    old(self).view,
                    old(self).brightness as int,
                    i % (old(self).width as int),
                    i / (old(self).width as int),
                    old(self).cells@[i] as int,
                ),
    {
        let width: u32 = self.width;
        let height: u32 = self.height;
        let brightness: i64 = self.brightness;
        let view: Transform = self.view;
        render_into(&mut self.cells, width, height, &self.spots, &view, brightness);
    }

    /// Exports the whole canvas contents in the requested image format.
    ///
    /// Fails only for a PNG format on a canvas with a zero dimension,
    /// which the PNG container cannot represent.
    pub fn export_image(&self, format: ImageFormat) -> (r: Result<Vec<u8>, EncoderError>)
        requires
            self.wf(),
        ensures
            (spec_format_is_png(format) && (self.width == 0 || self.height == 0)) <==> r is Err,
            r matches Err(e) ==> e == EncoderError::NotImplemented,
            r matches Ok(b) ==> b@ == spec_encoded_bytes(
                self.cells@,
                self.width as int,
                self.height as int,
                format,
            ),
    {
        encode_region(&self.cells, self.width, self.height, format)
    }

    /// Exports the contents of a canvas window in the requested image
    /// format.
    ///
    /// A window that does not lie entirely within the canvas rectangle is
    /// rejected; no partial or clipped windowed export happens.
    pub fn export_window_image(&self, window: Window, format: ImageFormat) -> (r: Result<
        Vec<u8>,
        EncoderError,
    >)
        requires
            self.wf(),
        ensures
            r is Err <==> (!spec_window_inside(window, self.width, self.height) || (
            spec_format_is_png(format) && (window.w == 0 || window.h == 0))),
            !spec_window_inside(window, self.width, self.height) <==> r == Err::<
                Vec<u8>,
                EncoderError,
            >(EncoderError::BrokenWindow),
            (spec_window_inside(window, self.width, self.height) && spec_format_is_png(format)
                && (window.w == 0 || window.h == 0)) <==> r == Err::<Vec<u8>, EncoderError>(
                EncoderError::NotImplemented,
            ),
            r matches Ok(b) ==> spec_window_inside(window, self.width, self.height) && b@
                == spec_encoded_bytes(
                spec_window_cells(self.cells@, self.width as int, window),
                window.w as int,
                window.h as int,
                format,
            ),
    {
        if !window_inside(&window, self.width, self.height) {
            return Err(EncoderError::BrokenWindow);
        }
        let region: Vec<i64> = select_window(&self.cells, self.width, self.height, &window);
        encode_region(&region, window.w, window.h, format)
    }

    /// Exports the subsampled whole-canvas image in the requested image
    /// format.
    ///
    /// The readout decimates by the integer factors `(x, y)`: factors must
    /// be positive, divide the canvas dimensions evenly and leave a
    /// nonempty reduced image.  Subsampling applies only to whole-canvas
    /// export.
    pub fn export_subsampled_image(&self, factors: (u32, u32), format: ImageFormat) -> (r: Result<
        Vec<u8>,
        EncoderError,
    >)
        requires
            self.wf(),
        ensures
            !spec_factors_valid(factors, self.width, self.height) <==> r is Err,
            r matches Err(e) ==> e == EncoderError::InvalidSubsamplingRate,
            r matches Ok(b) ==> b@ == spec_encoded_bytes(
                spec_sub_cells(
                    self.cells@,
                    self.width as int,
                    factors.0 as int,
                    factors.1 as int,
                    (self.width as int) / (factors.0 as int),
                    (self.height as int) / (factors.1 as int),
                ),
                (self.width as int) / (factors.0 as int),
                (self.height as int) / (factors.1 as int),
                format,
            ),
    {
        if !factors_valid(factors, self.width, self.height) {
            return Err(EncoderError::InvalidSubsamplingRate);
        }
        let sw: u32 = self.width / factors.0;
        let sh: u32 = self.height / factors.1;
        let region: Vec<i64> = select_subsampled(
            &self.cells,
            self.width,
            self.height,
            factors.0,
            factors.1,
        );
        encode_region(&region, sw, sh, format)
    }
}

/// Law: the reported position of a spot carrying offset `v` is its
/// intrinsic position shifted by exactly `v`, whenever the shifted
/// coordinates stay in the coordinate range; the view transform plays no
/// part in the query.
pub proof fn lemma_offset_shifts_position(s: SpotRec, v: Vector)
    requires
        i64::MIN <= s.position.0 + v.0 <= i64::MAX,
        i64::MIN <= s.position.1 + v.1 <= i64::MAX,
    ensures
        spec_spot_world((SpotRec { offset: v, ..s })) == (
            s.position.0 + v.0,
            s.position.1 + v.1,
        ),
{
}

/// Law: setting a spot's offset is absolute, not additive: two successive
/// sets leave exactly the registry state of the second set alone.
pub proof fn lemma_offset_not_additive(spots: Seq<SpotRec>, spot: int, v1: Vector, v2: Vector)
    requires
        0 <= spot < spots.len(),
    ensures
        ({
            let once = spots.update(spot, (SpotRec { offset: v1, ..spots[spot] }));
            once.update(spot, (SpotRec { offset: v2, ..once[spot] })) == spots.update(
                spot,
                (SpotRec { offset: v2, ..spots[spot] }),
            )
        }),
{
    let once = spots.update(spot, (SpotRec { offset: v1, ..spots[spot] }));
    assert(once.update(spot, (SpotRec { offset: v2, ..once[spot] })) =~= spots.update(
        spot,
        (SpotRec { offset: v2, ..spots[spot] }),
    ));
}

/// Law: a draw with no registered spots leaves every cell at its current
/// light level.
pub proof fn lemma_draw_no_spots(view: Transform, brightness: int, x: int, y: int, init: int)
    ensures
        spec_render_acc(Seq::<SpotRec>::empty(), view, brightness, x, y, init) == init,
{
}

/// Law: when every cell of a canvas with no spots holds the background
/// level (the state after `clear` and a spot-free `draw`), a redraw keeps
/// every cell there, every 8-bit gamma sample is the quantized background,
/// and 16-bit linear quantization reproduces the background pixel value
/// exactly.
pub proof fn lemma_cleared_canvas_encodes_background(c: Canvas)
    requires
        c.wf(),
        c.spots@.len() == 0,
        forall|i: int|
            0 <= i < c.cells@.len() ==> c.cells@[i] == spec_bg_linear(c.background as int),
    ensures
        forall|i: int|
            0 <= i < c.cells@.len() ==> spec_render_acc(
                c.spots@,
                c.view,
                c.brightness as int,
                i % (c.width as int),
                i / (c.width as int),
                c.cells@[i] as int,
            ) == spec_bg_linear(c.background as int),
        forall|i: int|
            0 <= i < c.cells@.len() ==> spec_gamma8_samples(c.cells@)[i] == (spec_quant_gamma8(
                spec_bg_linear(c.background as int),
            ) as u8),
        forall|i: int|
            0 <= i < c.cells@.len() ==> spec_quant_linear(c.cells@[i] as int, 65535)
                == c.background as int,
{
    assert(c.spots@ =~= Seq::<SpotRec>::empty());
    lemma_bg_roundtrip16(c.background as int);
}

/// Law: exporting through a window equal to the full canvas rectangle
/// encodes byte-for-byte the same sequence as the plain whole-canvas
/// export, in every format.
pub proof fn lemma_full_window_export(c: Canvas, fmt: ImageFormat)
    requires
        c.wf(),
    ensures
        spec_encoded_bytes(
            spec_window_cells(
                c.cells@,
                c.width as int,
                (Window { x: 0, y: 0, w: c.width, h: c.height }),
            ),
            c.width as int,
            c.height as int,
            fmt,
        ) == spec_encoded_bytes(c.cells@, c.width as int, c.height as int, fmt),
{
    lemma_full_window_cells(c.cells@, c.width, c.height);
}

} // verus!
