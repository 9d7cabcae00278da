//! An owned 8-bit RGB raster: the form in which captured frames reach the
//! decision logic.

use vstd::prelude::*;
use imghash::ImageHasher;

verus! {

/// A width x height grid of RGB pixels stored row by row, three bytes per
/// pixel.
pub struct RgbBuffer {
    width: u32,
    height: u32,
    data: Vec<u8>,
}

/// Index of the first byte of pixel (x, y) in a row-major RGB buffer.
pub open spec fn byte_index(width: int, x: int, y: int) -> int {
    3 * (y * width + x)
}

pub proof fn lemma_u32_product(a: u32, b: u32)
    ensures
        0 <= a as int * b as int <= 0xffff_fffe_0000_0001,
{
    assert(0 <= a as int * b as int <= 0xffff_fffe_0000_0001) by (nonlinear_arith)
        requires a <= 0xffff_ffff, b <= 0xffff_ffff;
}

pub proof fn lemma_pixel_in_bounds(w: int, h: int, x: int, y: int)
    requires
        0 <= x < w,
        0 <= y < h,
    ensures
        0 <= y * w + x < w * h,
        byte_index(w, x, y) + 2 < 3 * (w * h),
{
    assert(y * w + x < w * h) by (nonlinear_arith)
        requires 0 <= x < w, 0 <= y < h;
    assert(0 <= y * w) by (nonlinear_arith)
        requires 0 <= y, 0 <= w;
}

impl RgbBuffer {
    #[verifier::type_invariant]
    closed spec fn well_formed(self) -> bool {
        self.data.len() == 3 * (self.width as int * self.height as int)
    }

    /// Number of columns.
    pub closed spec fn spec_width(&self) -> nat {
        self.width as nat
    }

    /// Number of rows.
    pub closed spec fn spec_height(&self) -> nat {
        self.height as nat
    }

    /// The colour of pixel (x, y); meaningful for in-bounds coordinates.
    pub closed spec fn spec_pixel(&self, x: int, y: int) -> (u8, u8, u8) {
        let i = byte_index(self.width as int, x, y);
        (self.data@[i], self.data@[i + 1], self.data@[i + 2])
    }

    /// Whether (x, y) lies inside the raster.
    pub open spec fn in_bounds(&self, x: int, y: int) -> bool {
        0 <= x < self.spec_width() && 0 <= y < self.spec_height()
    }

    /// The raw bytes, row-major, three per pixel.
    pub closed spec fn spec_bytes(&self) -> Seq<u8> {
        self.data@
    }

    /// A raster in which every pixel has the colour `rgb`.
    pub fn from_pixel(width: u32, height: u32, rgb: (u8, u8, u8)) -> (r: Option<RgbBuffer>)
        ensures
            r is Some <==> 3 * (width as int * height as int) <= usize::MAX,
            r matches Some(img) ==> {
                &&& img.spec_width() == width
                &&& img.spec_height() == height
                &&& forall|x: int, y: int| img.in_bounds(x, y) ==> #[trigger] img.spec_pixel(x, y) == rgb
            },
    {
        proof { lemma_u32_product(width, height); }
        let total: u64 = width as u64 * height as u64;
        if total > (usize::MAX / 3) as u64 {
            return None;
        }
        let n: usize = (total as usize) * 3;
        let mut data: Vec<u8> = Vec::with_capacity(n);
        let mut i: usize = 0;
        while i < n
            invariant
                n == 3 * (width as int * height as int),
                i <= n,
                n % 3 == 0,
                i % 3 == 0,
                data@.len() == i,
                forall|k: int| 0 <= k < i ==> #[trigger] data@[k] == (if k % 3 == 0 { rgb.0 } else if k % 3 == 1 { rgb.1 } else { rgb.2 }),
            decreases n - i,
        {
            data.push(rgb.0);
            data.push(rgb.1);
            data.push(rgb.2);
            i = i + 3;
        }
        let img = RgbBuffer { width, height, data };
        assert forall|x: int, y: int| img.in_bounds(x, y) implies #[trigger] img.spec_pixel(x, y) == rgb by {
            lemma_pixel_in_bounds(width as int, height as int, x, y);
            let b = byte_index(width as int, x, y);
            assert(b % 3 == 0);
            assert((b + 1) % 3 == 1);
            assert((b + 2) % 3 == 2);
        }
        Some(img)
    }

    /// Wraps row-major RGB bytes; `None` when their number is not
    /// 3 * width * height.
    pub fn from_raw(width: u32, height: u32, data: Vec<u8>) -> (r: Option<RgbBuffer>)
        ensures
            r is Some <==> data@.len() == 3 * (width as int * height as int),
            r matches Some(img) ==> {
                &&& img.spec_width() == width
                &&& img.spec_height() == height
                &&& img.spec_bytes() == data@
            },
    {
        proof { lemma_u32_product(width, height); }
        let len: usize = data.len();
        let total: u64 = width as u64 * height as u64;
        if total > (usize::MAX / 3) as u64 {
            assert(len <= usize::MAX);
            assert(3 * (total as int) > usize::MAX);
            return None;
        }
        if len != (total as usize) * 3 {
            return None;
        }
        Some(RgbBuffer { width, height, data })
    }

    /// Number of columns.
    pub fn width(&self) -> (r: u32)
        ensures r == self.spec_width(),
    {
        self.width
    }

    /// Number of rows.
    pub fn height(&self) -> (r: u32)
        ensures r == self.spec_height(),
    {
        self.height
    }

    /// The raw bytes, row-major, three per pixel.
    pub fn bytes(&self) -> (r: &Vec<u8>)
        ensures r@ == self.spec_bytes(),
    {
        &self.data
    }

    /// The colour of an in-bounds pixel.
    pub fn pixel(&self, x: u32, y: u32) -> (r: (u8, u8, u8))
        requires self.in_bounds(x as int, y as int),
        ensures r == self.spec_pixel(x as int, y as int),
    {
        proof {
            use_type_invariant(self);
            lemma_pixel_in_bounds(self.width as int, self.height as int, x as int, y as int);
        }
        let i: usize = 3 * (y as usize * self.width as usize + x as usize);
        (self.data[i], self.data[i + 1], self.data[i + 2])
    }

    /// The colour of pixel (x, y), or `None` outside the raster.
    pub fn pixel_checked(&self, x: u32, y: u32) -> (r: Option<(u8, u8, u8)>)
        ensures
            r is Some <==> self.in_bounds(x as int, y as int),
            r matches Some(p) ==> p == self.spec_pixel(x as int, y as int),
    {
        if x < self.width && y < self.height {
            Some(self.pixel(x, y))
        } else {
            None
        }
    }
}

/// The colour at (x, y) of a raster given as (width, height, bytes),
/// `None` outside it.
pub open spec fn px_of(t: (nat, nat, Seq<u8>), x: int, y: int) -> Option<(u8, u8, u8)> {
    if 0 <= x < t.0 && 0 <= y < t.1 {
        let i = byte_index(t.0 as int, x, y);
        Some((t.2[i], t.2[i + 1], t.2[i + 2]))
    } else {
        None
    }
}

/// A raster's colours are those of its (width, height, bytes) triple.
pub proof fn lemma_px_of(img: RgbBuffer)
    ensures
        forall|x: int, y: int| #[trigger] px(img, x, y) == px_of((img.spec_width(), img.spec_height(), img.spec_bytes()), x, y),
{
}

/// The dimensions of a raster fit in 32 bits.
pub proof fn lemma_dims_bounded(img: RgbBuffer)
    ensures
        img.spec_width() <= u32::MAX,
        img.spec_height() <= u32::MAX,
{
}

/// The colour at (x, y), `None` outside the raster.
pub open spec fn px(img: RgbBuffer, x: int, y: int) -> Option<(u8, u8, u8)> {
    if img.in_bounds(x, y) { Some(img.spec_pixel(x, y)) } else { None }
}

/// The colour at (x, y) for coordinates of any size, `None` outside.
pub fn pixel_at(img: &RgbBuffer, x: u64, y: u64) -> (r: Option<(u8, u8, u8)>)
    ensures r == px(*img, x as int, y as int),
{
    if x < img.width() as u64 && y < img.height() as u64 {
        Some(img.pixel(x as u32, y as u32))
    } else {
        None
    }
}

/// Two rasters with the same dimensions and bytes.
pub open spec fn same_image(a: RgbBuffer, b: RgbBuffer) -> bool {
    a.spec_width() == b.spec_width() && a.spec_height() == b.spec_height() && a.spec_bytes() == b.spec_bytes()
}

/// A raster's dimensions and bytes, which say everything it shows.
pub open spec fn image_key(img: RgbBuffer) -> (nat, nat, Seq<u8>) {
    (img.spec_width(), img.spec_height(), img.spec_bytes())
}

/// Whether two rasters have the same dimensions and bytes.
pub fn images_equal(a: &RgbBuffer, b: &RgbBuffer) -> (r: bool)
    ensures r == same_image(*a, *b),
{
    if a.width() != b.width() || a.height() != b.height() {
        return false;
    }
    let x = a.bytes();
    let y = b.bytes();
    if x.len() != y.len() {
        return false;
    }
    let mut i: usize = 0;
    while i < x.len()
        invariant
            x@ == a.spec_bytes(),
            y@ == b.spec_bytes(),
            x@.len() == y@.len(),
            i <= x@.len(),
            forall|j: int| 0 <= j < i ==> x@[j] == y@[j],
        decreases x@.len() - i,
    {
        if x[i] != y[i] {
            return false;
        }
        i = i + 1;
    }
    proof { assert(x@ =~= y@); }
    true
}

/// Rasters with the same dimensions and bytes show the same pixels.
pub proof fn lemma_same_image_pixels(a: RgbBuffer, b: RgbBuffer)
    requires same_image(a, b),
    ensures forall|x: int, y: int| #[trigger] a.spec_pixel(x, y) == b.spec_pixel(x, y),
{
}

impl Clone for RgbBuffer {
    fn clone(&self) -> (r: Self)
        ensures same_image(r, *self),
    {
        proof { use_type_invariant(self); }
        let n = self.data.len();
        let mut data: Vec<u8> = Vec::with_capacity(n);
        let mut i: usize = 0;
        while i < n
            invariant
                n == self.data@.len(),
                i <= n,
                data@ == self.data@.take(i as int),
            decreases n - i,
        {
            data.push(self.data[i]);
            i = i + 1;
            proof { assert(data@ =~= self.data@.take(i as int)); }
        }
        proof { assert(data@ =~= self.data@); }
        RgbBuffer { width: self.width, height: self.height, data }
    }
}

/// Mean of the three channels, rounded down, as the integer pipelines
/// compute it.
pub open spec fn brightness(p: (u8, u8, u8)) -> int {
    (p.0 as int + p.1 as int + p.2 as int) / 3
}

/// Sum of the three channels; three times the exact mean brightness.
pub open spec fn channel_sum(p: (u8, u8, u8)) -> int {
    p.0 as int + p.1 as int + p.2 as int
}

pub fn pixel_brightness(p: (u8, u8, u8)) -> (r: u16)
    ensures r == brightness(p), r <= 255,
{
    (p.0 as u16 + p.1 as u16 + p.2 as u16) / 3
}

pub fn pixel_channel_sum(p: (u8, u8, u8)) -> (r: u16)
    ensures r == channel_sum(p), r <= 765,
{
    p.0 as u16 + p.1 as u16 + p.2 as u16
}

/// What `image`'s `DynamicImage::resize(nw, nh, FilterType::Nearest)`
/// makes of an RGB raster: width, height and bytes of the result.
pub uninterp spec fn nearest_resized(width: nat, height: nat, bytes: Seq<u8>, nw: nat, nh: nat) -> (nat, nat, Seq<u8>);

/// The bits of imghash's default perceptual hash (8 x 8, DCT factor 4,
/// Rec. 601 grey) of an RGB raster, `None` where the hasher reports an
/// error.
pub uninterp spec fn perceptual_hash_bits(width: nat, height: nat, bytes: Seq<u8>) -> Option<Seq<bool>>;

/// `image::DynamicImage::resize(nwidth, nheight, FilterType::Nearest)` on
/// the raster (scaled to fit, keeping its aspect ratio), read back as RGB:
/// the result is named by `nearest_resized`. An empty raster gives a
/// blank buffer of the new size.
#[verifier::external_body]
pub(crate) fn resize_nearest(img: &RgbBuffer, nwidth: u32, nheight: u32) -> (r: RgbBuffer)
    ensures
        (r.spec_width(), r.spec_height(), r.spec_bytes())
            == nearest_resized(img.spec_width(), img.spec_height(), img.spec_bytes(), nwidth as nat, nheight as nat),
{
    let src = image::RgbImage::from_raw(img.width, img.height, img.data.clone()).unwrap();
    let small = image::DynamicImage::ImageRgb8(src).resize(nwidth, nheight, image::imageops::FilterType::Nearest).to_rgb8();
    RgbBuffer { width: small.width(), height: small.height(), data: small.into_raw() }
}

/// `imghash`'s `PerceptualHasher::default().hash_from_img` on the raster,
/// the hash read out bit by bit (`ImageHash::iter_bool`); an error becomes
/// `None`. The result is named by `perceptual_hash_bits`; the source builds
/// every hash of this hasher from exactly 8 x 8 bits.
#[verifier::external_body]
pub(crate) fn perceptual_hash(img: &RgbBuffer) -> (r: Option<Vec<bool>>)
    ensures
        r matches Some(bits) ==> bits@.len() == 64,
        match perceptual_hash_bits(img.spec_width(), img.spec_height(), img.spec_bytes()) {
            Some(b) => r matches Some(bits) && bits@ == b,
            None => r is None,
        },
{
    let src = image::RgbImage::from_raw(img.width, img.height, img.data.clone()).unwrap();
    match imghash::perceptual::PerceptualHasher::default().hash_from_img(&image::DynamicImage::ImageRgb8(src)) {
        Ok(hash) => Some(hash.iter_bool().collect()),
        Err(_) => None,
    }
}

} // verus!
