//! Image, region, request and save-option models.

use vstd::prelude::*;

use crate::error::{CaptureError, CaptureResult};
use crate::text::{decimal, push_decimal};
use vstd::slice::slice_subrange;

verus! {

/// Describes the dimensions of a captured image in pixels.
#[derive(Debug, Clone, Copy, PartialEq, Eq, Structural)]
pub struct Resolution {
    /// Width in pixels.
    pub width: u32,
    /// Height in pixels.
    pub height: u32,
}

impl Resolution {
    /// Returns the number of pixels represented by this resolution.
    pub fn pixel_count(self) -> (n: usize)
        requires
            self.width * self.height <= usize::MAX,
        ensures
            n == self.width * self.height,
    {
        self.width as usize * self.height as usize
    }
}

/// Describes the pixel memory layout of a captured frame.
#[derive(Debug, Clone, Copy, PartialEq, Eq, Structural)]
pub enum PixelFormat {
    /// Packed 8-bit per channel red/green/blue/alpha layout.
    Rgba8,
}

/// The number of bytes one pixel of `format` occupies.
pub open spec fn pixel_size(format: PixelFormat) -> nat {
    match format {
        PixelFormat::Rgba8 => 4,
    }
}

impl PixelFormat {
    /// Returns the number of bytes required for one pixel of this format.
    pub fn bytes_per_pixel(self) -> (n: usize)
        ensures
            n == pixel_size(self),
            n == 4,
    {
        match self {
            PixelFormat::Rgba8 => 4,
        }
    }
}

/// Describes the encoded format for an output artifact.
#[derive(Debug, Clone, Copy, PartialEq, Eq, Structural)]
pub enum ImageFormat {
    /// Portable Network Graphics.
    Png,
}

/// The canonical file extension of an encoded format.
pub open spec fn extension_of(format: ImageFormat) -> Seq<char> {
    match format {
        ImageFormat::Png => "png"@,
    }
}

impl ImageFormat {
    /// Returns the canonical file extension for this image format.
    pub fn file_extension(self) -> (ext: &'static str)
        ensures
            ext@ == extension_of(self),
    {
        match self {
            ImageFormat::Png => "png",
        }
    }
}

/// Defines how to handle an existing output file path.
#[derive(Debug, Clone, Copy, PartialEq, Eq, Structural)]
pub enum SaveConflictStrategy {
    /// Replace an existing file at the destination path.
    Overwrite,
    /// Pick a new filename when the destination path already exists.
    Rename,
    /// Return an error when the destination path already exists.
    Error,
}

impl Default for SaveConflictStrategy {
    fn default() -> (s: Self)
        ensures
            s == SaveConflictStrategy::Rename,
    {
        SaveConflictStrategy::Rename
    }
}

/// Defines a rectangular region in pixels.
#[derive(Debug, Clone, Copy, PartialEq, Eq, Structural)]
pub struct CaptureRegion {
    /// Left coordinate in pixels.
    pub x: u32,
    /// Top coordinate in pixels.
    pub y: u32,
    /// Width in pixels.
    pub width: u32,
    /// Height in pixels.
    pub height: u32,
}

/// The region lies inside the resolution in exact arithmetic.
pub open spec fn region_in_bounds(region: CaptureRegion, resolution: Resolution) -> bool {
    &&& region.x + region.width <= resolution.width
    &&& region.y + region.height <= resolution.height
}

/// The message of the error returned for a zero-sized region.
pub open spec fn zero_region_message() -> Seq<char> {
    "capture region width and height must be greater than zero"@
}

impl CaptureRegion {
    /// Creates a validated capture region.
    pub fn new(x: u32, y: u32, width: u32, height: u32) -> (r: CaptureResult<Self>)
        ensures
            r is Ok <==> width > 0 && height > 0,
            r matches Ok(region) ==> region == (CaptureRegion { x, y, width, height }),
            r matches Err(e) ==> e matches CaptureError::InvalidRequest { message }
                && message@ == zero_region_message(),
    {
        if width == 0 || height == 0 {
            return Err(CaptureError::InvalidRequest {
                message: String::from_str("capture region width and height must be greater than zero"),
            });
        }
        Ok(CaptureRegion { x, y, width, height })
    }

    /// Returns `true` when the region is fully inside the provided resolution.
    pub fn fits_within(self, resolution: Resolution) -> (b: bool)
        ensures
            b == region_in_bounds(self, resolution),
    {
        let x2 = self.x as u64 + self.width as u64;
        let y2 = self.y as u64 + self.height as u64;
        x2 <= resolution.width as u64 && y2 <= resolution.height as u64
    }
}

/// Describes what kind of screen content should be captured.
#[derive(Debug, Clone, Copy, PartialEq, Eq, Structural)]
pub enum CaptureArea {
    /// Capture the full virtual screen.
    Fullscreen,
    /// Capture a specific rectangular region.
    Region(CaptureRegion),
    /// Ask the platform interaction layer to let the user select a region.
    InteractiveRegion,
}

impl Default for CaptureArea {
    fn default() -> (a: Self)
        ensures
            a == CaptureArea::Fullscreen,
    {
        CaptureArea::Fullscreen
    }
}

/// Represents a backend-agnostic capture request.
#[derive(Debug, Clone, Copy, PartialEq, Eq, Structural)]
pub struct CaptureRequest {
    /// The requested capture area.
    pub area: CaptureArea,
}

impl Default for CaptureRequest {
    fn default() -> (r: Self)
        ensures
            r.area == CaptureArea::Fullscreen,
    {
        CaptureRequest { area: CaptureArea::Fullscreen }
    }
}

impl CaptureRequest {
    /// Creates a request for a full-screen capture.
    pub fn fullscreen() -> (r: Self)
        ensures
            r.area == CaptureArea::Fullscreen,
    {
        CaptureRequest { area: CaptureArea::Fullscreen }
    }

    /// Creates a request for a specific rectangular region.
    pub fn region(region: CaptureRegion) -> (r: Self)
        ensures
            r.area == CaptureArea::Region(region),
    {
        CaptureRequest { area: CaptureArea::Region(region) }
    }

    /// Creates a request that asks the platform to let the user select a region.
    pub fn interactive_region() -> (r: Self)
        ensures
            r.area == CaptureArea::InteractiveRegion,
    {
        CaptureRequest { area: CaptureArea::InteractiveRegion }
    }
}

/// Defines how a captured image should be persisted.
#[derive(Debug, Clone, PartialEq, Eq)]
pub struct SaveOptions {
    /// The destination image format.
    pub format: ImageFormat,
    /// The destination filesystem path.
    pub output_path: String,
    /// The strategy used when the destination file already exists.
    pub conflict_strategy: SaveConflictStrategy,
}

impl SaveOptions {
    /// Creates save options for a specific path and format, renaming on conflict.
    pub fn new(format: ImageFormat, output_path: &str) -> (o: Self)
        ensures
            o.format == format,
            o.output_path@ == output_path@,
            o.conflict_strategy == SaveConflictStrategy::Rename,
    {
        SaveOptions {
            format,
            output_path: String::from_str(output_path),
            conflict_strategy: SaveConflictStrategy::default(),
        }
    }

    /// Creates save options for a specific path, format, and conflict strategy.
    pub fn with_conflict_strategy(
        format: ImageFormat,
        output_path: &str,
        conflict_strategy: SaveConflictStrategy,
    ) -> (o: Self)
        ensures
            o.format == format,
            o.output_path@ == output_path@,
            o.conflict_strategy == conflict_strategy,
    {
        SaveOptions { format, output_path: String::from_str(output_path), conflict_strategy }
    }
}

/// Represents a full frame of captured pixels and associated metadata.
#[derive(Debug, Clone, PartialEq, Eq)]
pub struct CapturedImage {
    /// The image dimensions.
    pub resolution: Resolution,
    /// The pixel layout of `pixels`.
    pub pixel_format: PixelFormat,
    /// Raw image pixels, row by row.
    pub pixels: Vec<u8>,
}

/// The number of bytes a frame of the given size and format occupies.
pub open spec fn frame_len(resolution: Resolution, format: PixelFormat) -> int {
    resolution.width * resolution.height * pixel_size(format)
}

impl CapturedImage {
    /// The pixel buffer holds exactly one value per channel of every pixel.
    pub open spec fn wf(&self) -> bool {
        self.pixels@.len() == frame_len(self.resolution, self.pixel_format)
    }

    /// Creates a captured image after validating the pixel buffer length.
    pub fn new(resolution: Resolution, pixel_format: PixelFormat, pixels: Vec<u8>) -> (r:
        CaptureResult<Self>)
        requires
            frame_len(resolution, pixel_format) <= usize::MAX,
        ensures
            r is Ok <==> pixels@.len() == frame_len(resolution, pixel_format),
            r matches Ok(img) ==> img.resolution == resolution && img.pixel_format == pixel_format
                && img.pixels@ == pixels@ && img.wf(),
            r matches Err(e) ==> e matches CaptureError::InvalidImageBuffer { expected, actual }
                && expected == frame_len(resolution, pixel_format) && actual == pixels@.len(),
    {
        proof {
            assert(resolution.width * resolution.height <= usize::MAX) by (nonlinear_arith)
                requires
                    resolution.width * resolution.height * 4 <= usize::MAX,
            ;
        }
        let expected = resolution.pixel_count() * pixel_format.bytes_per_pixel();
        if pixels.len() != expected {
            return Err(CaptureError::InvalidImageBuffer { expected, actual: pixels.len() });
        }
        Ok(CapturedImage { resolution, pixel_format, pixels })
    }
}


/// Byte offset in an image `image_width` pixels wide at which row `r` of the
/// cropped region starts.
pub open spec fn crop_row_start(image_width: u32, region: CaptureRegion, r: int) -> int {
    (region.y + r) * (image_width * 4) + region.x * 4
}

/// The bytes that cropping copies: for each of the first `n` region rows, the
/// `region.width * 4` bytes that start at that row's offset, in row order.
pub open spec fn cropped_rows(pixels: Seq<u8>, image_width: u32, region: CaptureRegion, n: nat) -> Seq<u8>
    decreases n,
{
    if n == 0 {
        Seq::empty()
    } else {
        let start = crop_row_start(image_width, region, n - 1);
        cropped_rows(pixels, image_width, region, (n - 1) as nat) + pixels.subrange(
            start,
            start + region.width * 4,
        )
    }
}

/// Cropping `image` to `region` neither overflows nor reads past the buffer:
/// whenever the region lies inside the image, the row stride and the
/// cropped frame fit in a `usize` and the last copied row ends inside the
/// pixel buffer.
pub open spec fn crop_safe(image: CapturedImage, region: CaptureRegion) -> bool {
    region_in_bounds(region, image.resolution) ==> {
        &&& image.resolution.width * 4 <= usize::MAX
        &&& region.width * region.height * 4 <= usize::MAX
        &&& region.height > 0 ==> crop_row_start(image.resolution.width, region, region.height - 1)
            + region.width * 4 <= image.pixels@.len()
    }
}

/// The message of the error returned when a crop region exceeds the image.
pub open spec fn crop_error_message(region: CaptureRegion, resolution: Resolution) -> Seq<char> {
    "capture region ("@ + decimal(region.x as nat) + ", "@ + decimal(region.y as nat) + ", "@
        + decimal(region.width as nat) + ", "@ + decimal(region.height as nat)
        + ") is outside image bounds "@ + decimal(resolution.width as nat) + "x"@ + decimal(
        resolution.height as nat,
    )
}

/// The copied rows of a crop hold `n * width * 4` bytes.
pub proof fn lemma_cropped_rows_len(pixels: Seq<u8>, image_width: u32, region: CaptureRegion, n: nat)
    requires
        n == 0 || crop_row_start(image_width, region, n - 1) + region.width * 4 <= pixels.len(),
    ensures
        cropped_rows(pixels, image_width, region, n).len() == n * region.width * 4,
    decreases n,
{
    if n > 0 {
        let m = (n - 1) as nat;
        if m > 0 {
            lemma_crop_row_start_monotonic(image_width, region, m - 1, m as int);
        }
        lemma_cropped_rows_len(pixels, image_width, region, m);
        assert(m * region.width * 4 + region.width * 4 == n * region.width * 4) by (nonlinear_arith)
            requires
                m + 1 == n,
        ;
    }
}

/// Later rows of a crop start later in the source buffer.
pub proof fn lemma_crop_row_start_monotonic(image_width: u32, region: CaptureRegion, r1: int, r2: int)
    requires
        0 <= r1 <= r2,
    ensures
        crop_row_start(image_width, region, r1) <= crop_row_start(image_width, region, r2),
{
    assert((region.y + r1) * (image_width * 4) <= (region.y + r2) * (image_width * 4))
        by (nonlinear_arith)
        requires
            0 <= r1 <= r2,
            image_width >= 0,
            region.y >= 0,
    ;
}

/// Builds the message of the error returned when a crop region exceeds the image.
fn crop_error_text(region: CaptureRegion, resolution: Resolution) -> (s: String)
    ensures
        s@ == crop_error_message(region, resolution),
{
    let mut s = String::from_str("capture region (");
    push_decimal(&mut s, region.x as u64);
    s.append(", ");
    push_decimal(&mut s, region.y as u64);
    s.append(", ");
    push_decimal(&mut s, region.width as u64);
    s.append(", ");
    push_decimal(&mut s, region.height as u64);
    s.append(") is outside image bounds ");
    push_decimal(&mut s, resolution.width as u64);
    s.append("x");
    push_decimal(&mut s, resolution.height as u64);
    s
}


/// Row `j` of a crop sits at offset `j * width * 4` of the copied bytes.
pub proof fn lemma_cropped_rows_index(
    pixels: Seq<u8>,
    image_width: u32,
    region: CaptureRegion,
    n: nat,
    j: int,
    k: int,
)
    requires
        n > 0,
        crop_row_start(image_width, region, n - 1) + region.width * 4 <= pixels.len(),
        0 <= j < n,
        0 <= k < region.width * 4,
    ensures
        j * region.width * 4 + k < cropped_rows(pixels, image_width, region, n).len(),
        cropped_rows(pixels, image_width, region, n)[j * region.width * 4 + k]
            == pixels[crop_row_start(image_width, region, j) + k],
    decreases n,
{
    let m = (n - 1) as nat;
    if m > 0 {
        lemma_crop_row_start_monotonic(image_width, region, m - 1, m as int);
    }
    lemma_cropped_rows_len(pixels, image_width, region, m);
    lemma_cropped_rows_len(pixels, image_width, region, n);
    lemma_crop_row_start_monotonic(image_width, region, j, m as int);
    assert(crop_row_start(image_width, region, j) >= 0) by (nonlinear_arith)
        requires
            j >= 0,
            region.y >= 0,
            image_width >= 0,
            region.x >= 0,
    ;
    if j < m {
        lemma_cropped_rows_index(pixels, image_width, region, m, j, k);
        assert(j * region.width * 4 + k < m * region.width * 4) by (nonlinear_arith)
            requires
                j < m,
                k < region.width * 4,
        ;
    } else {
        assert(j * region.width * 4 == m * region.width * 4);
        assert(j * region.width * 4 + k < n * region.width * 4) by (nonlinear_arith)
            requires
                j + 1 == n,
                k < region.width * 4,
        ;
    }
}

/// Cropping keeps pixels where they were: channel `c` of pixel `(i, j)` of a
/// crop of a well-formed image to an in-bounds region is channel `c` of
/// pixel `(region.x + i, region.y + j)` of the source.
pub proof fn lemma_crop_pixel(image: CapturedImage, region: CaptureRegion, i: int, j: int, c: int)
    requires
        image.wf(),
        region_in_bounds(region, image.resolution),
        0 <= i < region.width,
        0 <= j < region.height,
        0 <= c < 4,
    ensures
        ({
            let out = cropped_rows(image.pixels@, image.resolution.width, region, region.height as nat);
            &&& (j * region.width + i) * 4 + c < out.len()
            &&& out[(j * region.width + i) * 4 + c] == image.pixels@[((region.y + j)
                * image.resolution.width + region.x + i) * 4 + c]
        }),
{
    lemma_in_bounds_last_row(image, region);
    lemma_cropped_rows_index(
        image.pixels@,
        image.resolution.width,
        region,
        region.height as nat,
        j,
        i * 4 + c,
    );
    assert(j * region.width * 4 + (i * 4 + c) == (j * region.width + i) * 4 + c) by (nonlinear_arith);
    assert(crop_row_start(image.resolution.width, region, j) + (i * 4 + c) == ((region.y + j)
        * image.resolution.width + region.x + i) * 4 + c) by (nonlinear_arith);
}

/// The last row of an in-bounds crop of a well-formed image ends inside the buffer.
proof fn lemma_in_bounds_last_row(image: CapturedImage, region: CaptureRegion)
    requires
        image.wf(),
        region_in_bounds(region, image.resolution),
        region.height > 0,
    ensures
        crop_row_start(image.resolution.width, region, region.height - 1) + region.width * 4
            <= image.pixels@.len(),
{
    let w = image.resolution.width as int;
    let h = image.resolution.height as int;
    assert((region.y + region.height - 1) * (w * 4) + region.x * 4 + region.width * 4 <= h * w * 4)
        by (nonlinear_arith)
        requires
            region.y + region.height <= h,
            region.x + region.width <= w,
            region.height > 0,
            w >= 0,
    ;
    assert(h * w * 4 == w * h * 4) by (nonlinear_arith);
}

/// A region that lies inside a well-formed image can always be cropped: the
/// crop's preconditions hold and the bounds check passes.
pub proof fn lemma_in_bounds_crop_safe(image: CapturedImage, region: CaptureRegion)
    requires
        image.wf(),
        region_in_bounds(region, image.resolution),
        image.resolution.width * 4 <= usize::MAX,
    ensures
        crop_safe(image, region),
{
    let w = image.resolution.width as int;
    let h = image.resolution.height as int;
    assert(region.width * region.height * 4 <= w * h * 4) by (nonlinear_arith)
        requires
            region.width <= w,
            region.height <= h,
            region.width >= 0,
            region.height >= 0,
    ;
    assert(image.pixels@.len() == image.pixels.len());
    if region.height > 0 {
        lemma_in_bounds_last_row(image, region);
    }
}

/// Cropping an image to its own full extent returns its pixels unchanged.
pub proof fn lemma_crop_full_is_identity(image: CapturedImage)
    requires
        image.wf(),
    ensures
        cropped_rows(
            image.pixels@,
            image.resolution.width,
            CaptureRegion { x: 0, y: 0, width: image.resolution.width, height: image.resolution.height },
            image.resolution.height as nat,
        ) == image.pixels@,
{
    let region = CaptureRegion {
        x: 0,
        y: 0,
        width: image.resolution.width,
        height: image.resolution.height,
    };
    assert(image.resolution.height * (image.resolution.width * 4) == frame_len(
        image.resolution,
        image.pixel_format,
    )) by (nonlinear_arith);
    lemma_crop_full_prefix(image.pixels@, image.resolution.width, region, image.resolution.height as nat);
    assert(image.pixels@.subrange(0, image.pixels@.len() as int) =~= image.pixels@);
}

/// The first `n` rows of a full-width crop from the top-left corner are the
/// first `n` rows of the source buffer.
proof fn lemma_crop_full_prefix(pixels: Seq<u8>, width: u32, region: CaptureRegion, n: nat)
    requires
        region.x == 0,
        region.y == 0,
        region.width == width,
        n * (width * 4) <= pixels.len(),
    ensures
        cropped_rows(pixels, width, region, n) == pixels.subrange(0, n * (width * 4)),
    decreases n,
{
    if n == 0 {
        assert(n * (width * 4) == 0) by (nonlinear_arith)
            requires
                n == 0,
        ;
        assert(pixels.subrange(0, 0) =~= Seq::<u8>::empty());
    } else {
        let m = (n - 1) as nat;
        assert(m * (width * 4) + width * 4 == n * (width * 4)) by (nonlinear_arith)
            requires
                m + 1 == n,
        ;
        assert(m * (width * 4) >= 0) by (nonlinear_arith);
        lemma_crop_full_prefix(pixels, width, region, m);
        assert(crop_row_start(width, region, m as int) == m * (width * 4));
        assert(pixels.subrange(0, m * (width * 4)) + pixels.subrange(
            m * (width * 4),
            n * (width * 4),
        ) =~= pixels.subrange(0, n * (width * 4)));
        assert(cropped_rows(pixels, width, region, n) == cropped_rows(pixels, width, region, m)
            + pixels.subrange(m * (width * 4), n * (width * 4)));
    }
}

/// The region of `image` that `inner` picks out of the crop to `outer`.
pub open spec fn nested_region(outer: CaptureRegion, inner: CaptureRegion) -> CaptureRegion {
    CaptureRegion {
        x: (outer.x + inner.x) as u32,
        y: (outer.y + inner.y) as u32,
        width: inner.width,
        height: inner.height,
    }
}

/// Byte `j * width * 4 + m` of a crop, read back through the source buffer.
proof fn lemma_nested_byte(
    image: CapturedImage,
    outer: CaptureRegion,
    inner: CaptureRegion,
    j: int,
    m: int,
)
    requires
        image.wf(),
        region_in_bounds(outer, image.resolution),
        region_in_bounds(inner, Resolution { width: outer.width, height: outer.height }),
        0 <= j < inner.height,
        0 <= m < inner.width * 4,
    ensures
        ({
            let pixels = image.pixels@;
            let w = image.resolution.width;
            let first = cropped_rows(pixels, w, outer, outer.height as nat);
            let twice = cropped_rows(first, outer.width, inner, inner.height as nat);
            let once = cropped_rows(pixels, w, nested_region(outer, inner), inner.height as nat);
            &&& j * inner.width * 4 + m < twice.len()
            &&& j * inner.width * 4 + m < once.len()
            &&& twice[j * inner.width * 4 + m] == once[j * inner.width * 4 + m]
        }),
{
    let pixels = image.pixels@;
    let w = image.resolution.width;
    let combined = nested_region(outer, inner);
    let first = cropped_rows(pixels, w, outer, outer.height as nat);
    lemma_in_bounds_last_row(image, outer);
    lemma_cropped_rows_len(pixels, w, outer, outer.height as nat);
    let ow = outer.width as int;
    let oh = outer.height as int;
    assert(crop_row_start(outer.width, inner, inner.height - 1) + inner.width * 4 <= first.len())
        by (nonlinear_arith)
        requires
            inner.y + inner.height <= oh,
            inner.x + inner.width <= ow,
            inner.height > 0,
            ow >= 0,
            first.len() == oh * ow * 4,
            crop_row_start(outer.width, inner, inner.height - 1) == (inner.y + inner.height - 1) * (
            outer.width * 4) + inner.x * 4,
            outer.width == ow,
    ;
    lemma_cropped_rows_index(first, outer.width, inner, inner.height as nat, j, m);
    let j2 = inner.y + j;
    let m2 = inner.x * 4 + m;
    assert(crop_row_start(outer.width, inner, j) + m == j2 * outer.width * 4 + m2) by (nonlinear_arith)
        requires
            j2 == inner.y + j,
            m2 == inner.x * 4 + m,
            crop_row_start(outer.width, inner, j) == (inner.y + j) * (outer.width * 4) + inner.x * 4,
    ;
    lemma_cropped_rows_index(pixels, w, outer, outer.height as nat, j2, m2);
    assert(region_in_bounds(combined, image.resolution));
    lemma_in_bounds_last_row(image, combined);
    lemma_cropped_rows_index(pixels, w, combined, inner.height as nat, j, m);
    assert(crop_row_start(w, outer, j2) + m2 == crop_row_start(w, combined, j) + m) by (nonlinear_arith)
        requires
            j2 == inner.y + j,
            m2 == inner.x * 4 + m,
            combined.x == outer.x + inner.x,
            combined.y == outer.y + inner.y,
            crop_row_start(w, outer, j2) == (outer.y + j2) * (w * 4) + outer.x * 4,
            crop_row_start(w, combined, j) == (combined.y + j) * (w * 4) + combined.x * 4,
    ;
}

/// Cropping a crop is one crop: cropping to `outer` and then to `inner`
/// gives the crop to `inner` shifted by the corner of `outer`.
pub proof fn lemma_crop_of_crop(image: CapturedImage, outer: CaptureRegion, inner: CaptureRegion)
    requires
        image.wf(),
        region_in_bounds(outer, image.resolution),
        region_in_bounds(inner, Resolution { width: outer.width, height: outer.height }),
    ensures
        cropped_rows(
            cropped_rows(image.pixels@, image.resolution.width, outer, outer.height as nat),
            outer.width,
            inner,
            inner.height as nat,
        ) == cropped_rows(
            image.pixels@,
            image.resolution.width,
            nested_region(outer, inner),
            inner.height as nat,
        ),
{
    let pixels = image.pixels@;
    let w = image.resolution.width;
    let combined = nested_region(outer, inner);
    let first = cropped_rows(pixels, w, outer, outer.height as nat);
    let twice = cropped_rows(first, outer.width, inner, inner.height as nat);
    let once = cropped_rows(pixels, w, combined, inner.height as nat);
    if inner.height == 0 {
        assert(twice =~= once);
    } else {
        lemma_in_bounds_last_row(image, outer);
        lemma_cropped_rows_len(pixels, w, outer, outer.height as nat);
        let ow = outer.width as int;
        let oh = outer.height as int;
        assert(crop_row_start(outer.width, inner, inner.height - 1) + inner.width * 4 <= first.len())
            by (nonlinear_arith)
            requires
                inner.y + inner.height <= oh,
                inner.x + inner.width <= ow,
                inner.height > 0,
                ow >= 0,
                first.len() == oh * ow * 4,
                crop_row_start(outer.width, inner, inner.height - 1) == (inner.y + inner.height - 1)
                    * (outer.width * 4) + inner.x * 4,
                outer.width == ow,
        ;
        lemma_cropped_rows_len(first, outer.width, inner, inner.height as nat);
        assert(region_in_bounds(combined, image.resolution));
        lemma_in_bounds_last_row(image, combined);
        lemma_cropped_rows_len(pixels, w, combined, inner.height as nat);
        if inner.width == 0 {
            assert(inner.height * inner.width * 4 == 0) by (nonlinear_arith)
                requires
                    inner.width == 0,
            ;
            assert(twice =~= once);
        } else {
            let d = inner.width * 4;
            assert forall|k: int| 0 <= k < twice.len() implies twice[k] == once[k] by {
                vstd::arithmetic::div_mod::lemma_fundamental_div_mod(k, d);
                vstd::arithmetic::div_mod::lemma_mod_pos_bound(k, d);
                let j = k / d;
                let m = k % d;
                assert(0 <= j < inner.height) by (nonlinear_arith)
                    requires
                        k == d * j + m,
                        0 <= m < d,
                        0 <= k < inner.height * inner.width * 4,
                        d == inner.width * 4,
                        d > 0,
                ;
                assert(j * inner.width * 4 + m == k) by (nonlinear_arith)
                    requires
                        k == d * j + m,
                        d == inner.width * 4,
                ;
                lemma_nested_byte(image, outer, inner, j, m);
            }
            assert(twice =~= once);
        }
    }
}

/// What cropping `image` to `region` returns: the rows of the region, one
/// after another, when it fits inside the image; otherwise an
/// `InvalidRequest` error naming the region and the image size.
pub open spec fn crop_result(image: CapturedImage, region: CaptureRegion, r: CaptureResult<CapturedImage>) -> bool {
    &&& r is Ok <==> region_in_bounds(region, image.resolution)
    &&& r matches Ok(img) ==> {
        &&& img.resolution == (Resolution { width: region.width, height: region.height })
        &&& img.pixel_format == image.pixel_format
        &&& img.pixels@ == cropped_rows(
            image.pixels@,
            image.resolution.width,
            region,
            region.height as nat,
        )
        &&& img.wf()
    }
    &&& r matches Err(e) ==> e matches CaptureError::InvalidRequest { message }
        && message@ == crop_error_message(region, image.resolution)
}

/// Cropping a crop gives what one crop gives: when `first` is the crop of
/// `image` to `outer`, `second` the crop of that to `inner`, and `direct`
/// the crop of `image` to `inner` shifted by the corner of `outer`, all
/// three succeed and `second` and `direct` hold the same image.
pub proof fn lemma_crop_results_compose(
    image: CapturedImage,
    outer: CaptureRegion,
    inner: CaptureRegion,
    first: CaptureResult<CapturedImage>,
    second: CaptureResult<CapturedImage>,
    direct: CaptureResult<CapturedImage>,
)
    requires
        image.wf(),
        region_in_bounds(outer, image.resolution),
        region_in_bounds(inner, Resolution { width: outer.width, height: outer.height }),
        crop_result(image, outer, first),
        first matches Ok(f) ==> crop_result(f, inner, second),
        crop_result(image, nested_region(outer, inner), direct),
    ensures
        first is Ok,
        second is Ok,
        direct is Ok,
        second matches Ok(s) && direct matches Ok(d) && s.resolution == d.resolution
            && s.pixel_format == d.pixel_format && s.pixels@ == d.pixels@,
{
    assert(region_in_bounds(nested_region(outer, inner), image.resolution));
    lemma_crop_of_crop(image, outer, inner);
}

impl CapturedImage {
    /// Tells whether cropping to `region` is free of overflow and
    /// out-of-bounds reads, so that `crop` may be called.
    pub fn can_crop(&self, region: CaptureRegion) -> (b: bool)
        requires
            self.wf(),
        ensures
            b == crop_safe(*self, region),
    {
        if !region.fits_within(self.resolution) {
            return true;
        }
        if self.resolution.width as u128 * 4 > usize::MAX as u128 {
            return false;
        }
        let w = region.width as u128;
        let h = region.height as u128;
        proof {
            assert(w * h <= u32::MAX * u32::MAX) by (nonlinear_arith)
                requires
                    w <= u32::MAX,
                    h <= u32::MAX,
            ;
        }
        if w * h * 4 > usize::MAX as u128 {
            return false;
        }
        if region.height == 0 {
            return true;
        }
        let row = region.y as u128 + h - 1;
        let stride = self.resolution.width as u128 * 4;
        proof {
            assert(row * stride <= u32::MAX * (u32::MAX * 4)) by (nonlinear_arith)
                requires
                    row <= u32::MAX,
                    stride <= u32::MAX * 4,
            ;
        }
        let last = row * stride + region.x as u128 * 4 + w * 4;
        last <= self.pixels.len() as u128
    }

    /// Returns a cropped image for the requested region.
    pub fn crop(&self, region: CaptureRegion) -> (r: CaptureResult<Self>)
        requires
            self.wf(),
            crop_safe(*self, region),
        ensures
            crop_result(*self, region, r),
    {
        if !region.fits_within(self.resolution) {
            return Err(CaptureError::InvalidRequest { message: crop_error_text(region, self.resolution) });
        }
        let bytes_per_pixel = self.pixel_format.bytes_per_pixel();
        let stride = self.resolution.width as usize * bytes_per_pixel;
        proof {
            assert(region.width * region.height <= usize::MAX) by (nonlinear_arith)
                requires
                    region.width * region.height * 4 <= usize::MAX,
            ;
        }
        let mut pixels: Vec<u8> = Vec::with_capacity(
            region.width as usize * region.height as usize * bytes_per_pixel,
        );
        let y_end = region.y + region.height;
        let mut row: u32 = region.y;
        while row < y_end
            invariant
                self.wf(),
                crop_safe(*self, region),
                region_in_bounds(region, self.resolution),
                stride == self.resolution.width * 4,
                bytes_per_pixel == 4,
                y_end == region.y + region.height,
                region.y <= row <= y_end,
                pixels@ == cropped_rows(
                    self.pixels@,
                    self.resolution.width,
                    region,
                    (row - region.y) as nat,
                ),
            decreases y_end - row,
        {
            let ghost n = (row - region.y) as int;
            proof {
                lemma_crop_row_start_monotonic(
                    self.resolution.width,
                    region,
                    n,
                    region.height - 1,
                );
                assert(row * stride == (region.y + n) * (self.resolution.width * 4));
                assert(row * stride >= 0) by (nonlinear_arith)
                    requires
                        row >= 0,
                        stride >= 0,
                ;
                assert(row * stride + region.x * 4 + region.width * 4 <= self.pixels@.len());
                assert(self.pixels@.len() == self.pixels.len());
                assert(row * stride + region.x * 4 <= usize::MAX);
            }
            let start = row as usize * stride + region.x as usize * bytes_per_pixel;
            let end = start + region.width as usize * bytes_per_pixel;
            pixels.extend_from_slice(slice_subrange(self.pixels.as_slice(), start, end));
            proof {
                assert(pixels@ =~= cropped_rows(
                    self.pixels@,
                    self.resolution.width,
                    region,
                    (n + 1) as nat,
                ));
            }
            row = row + 1;
        }
        proof {
            lemma_cropped_rows_len(self.pixels@, self.resolution.width, region, region.height as nat);
            assert(region.height * region.width * 4 == region.width * region.height * 4)
                by (nonlinear_arith);
        }
        Self::new(Resolution { width: region.width, height: region.height }, self.pixel_format, pixels)
    }
}

} // verus!
