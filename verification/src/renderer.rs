//! A grey raster to draw a scene on.
use vstd::prelude::*;

verus! {

/// A raster of grey pixels, kept in an image buffer of the image crate.
#[verifier::external_body]
pub struct Renderer {
    surface: image::GrayImage,
}

/// The width and the height of the raster.
pub uninterp spec fn surface_extent(renderer: Renderer) -> (u32, u32);

/// The brightness of each pixel of the raster, by column and row.
pub uninterp spec fn surface_pixels(renderer: Renderer) -> Map<(u32, u32), u8>;

/// Whether `(x, y)` is a pixel of a raster of the given extent.
pub open spec fn inside(extent: (u32, u32), x: u32, y: u32) -> bool {
    x < extent.0 && y < extent.1
}

/// `ImageBuffer::new` of the image crate: a buffer of the given width and
/// height whose pixels are all zero. It panics when the number of pixels is
/// more than a vector can hold, which the precondition excludes.
#[verifier::external_body]
fn new_surface(width: u32, height: u32) -> (renderer: Renderer)
    requires
        width * height <= isize::MAX,
    ensures
        surface_extent(renderer) == (width, height),
        forall|x: u32, y: u32|
            surface_pixels(renderer).dom().contains((x, y)) <==> inside((width, height), x, y),
        forall|x: u32, y: u32|
            inside((width, height), x, y) ==> surface_pixels(renderer)[(x, y)] == 0,
{
    Renderer { surface: image::GrayImage::new(width, height) }
}

/// `ImageBuffer::dimensions` of the image crate: the width and the height.
#[verifier::external_body]
fn extent_of(renderer: &Renderer) -> (extent: (u32, u32))
    ensures
        extent == surface_extent(*renderer),
{
    renderer.surface.dimensions()
}

/// `ImageBuffer::get_pixel` of the image crate: the pixel in column `x` of
/// row `y`. It panics outside the buffer, which the precondition excludes.
#[verifier::external_body]
fn pixel_of(renderer: &Renderer, x: u32, y: u32) -> (brightness: u8)
    requires
        inside(surface_extent(*renderer), x, y),
    ensures
        brightness == surface_pixels(*renderer)[(x, y)],
{
    renderer.surface.get_pixel(x, y).0[0]
}

/// `ImageBuffer::get_pixel_mut` of the image crate, written through: the
/// pixel in column `x` of row `y` is set and no other is touched. It panics
/// outside the buffer, which the precondition excludes.
#[verifier::external_body]
fn set_pixel_of(renderer: &mut Renderer, x: u32, y: u32, brightness: u8)
    requires
        inside(surface_extent(*old(renderer)), x, y),
    ensures
        surface_extent(*final(renderer)) == surface_extent(*old(renderer)),
        surface_pixels(*final(renderer)) == surface_pixels(*old(renderer)).insert(
            (x, y),
            brightness,
        ),
{
    renderer.surface.get_pixel_mut(x, y).0[0] = brightness;
}

/// The brightness of a pixel that was `before` and is made brighter by
/// `delta`: the sum, and white where the sum is brighter than white.
pub open spec fn brightened(before: u8, delta: u8) -> u8 {
    if before + delta <= u8::MAX {
        (before + delta) as u8
    } else {
        u8::MAX
    }
}

impl Renderer {
    /// A black raster of the given width and height, which a vector must be
    /// able to hold.
    pub fn new(dimensions: (u32, u32)) -> (renderer: Renderer)
        requires
            dimensions.0 * dimensions.1 <= isize::MAX,
        ensures
            surface_extent(renderer) == dimensions,
            forall|x: u32, y: u32|
                surface_pixels(renderer).dom().contains((x, y)) <==> inside(dimensions, x, y),
            forall|x: u32, y: u32|
                inside(dimensions, x, y) ==> surface_pixels(renderer)[(x, y)] == 0,
    {
        new_surface(dimensions.0, dimensions.1)
    }

    /// The width and the height of the raster.
    pub fn dimensions(&self) -> (extent: (u32, u32))
        ensures
            extent == surface_extent(*self),
    {
        extent_of(self)
    }

    /// Whether `coords` is a pixel of the raster.
    pub fn contains(&self, coords: (u32, u32)) -> (yes: bool)
        ensures
            yes == inside(surface_extent(*self), coords.0, coords.1),
    {
        let (width, height) = extent_of(self);
        coords.0 < width && coords.1 < height
    }

    /// The brightness of a pixel.
    pub fn pixel_brightness(&self, coords: (u32, u32)) -> (brightness: u8)
        requires
            inside(surface_extent(*self), coords.0, coords.1),
        ensures
            brightness == surface_pixels(*self)[coords],
    {
        pixel_of(self, coords.0, coords.1)
    }

    /// Sets the brightness of a pixel. No other pixel changes.
    pub fn set_pixel_brightness(&mut self, coords: (u32, u32), brightness: u8)
        requires
            inside(surface_extent(*old(self)), coords.0, coords.1),
        ensures
            surface_extent(*final(self)) == surface_extent(*old(self)),
            surface_pixels(*final(self)) == surface_pixels(*old(self)).insert(coords, brightness),
    {
        set_pixel_of(self, coords.0, coords.1, brightness);
    }

    /// Makes a pixel brighter by `delta`, and no brighter than white. No
    /// other pixel changes.
    pub fn increase_pixel_brightness(&mut self, coords: (u32, u32), delta: u8)
        requires
            inside(surface_extent(*old(self)), coords.0, coords.1),
        ensures
            surface_extent(*final(self)) == surface_extent(*old(self)),
            surface_pixels(*final(self)) == surface_pixels(*old(self)).insert(
                coords,
                brightened(surface_pixels(*old(self))[coords], delta),
            ),
    {
        let before: u8 = pixel_of(self, coords.0, coords.1);
        let after: u8 = if before <= u8::MAX - delta {
            before + delta
        } else {
            u8::MAX
        };
        set_pixel_of(self, coords.0, coords.1, after);
    }
}

} // verus!
