//! The `image` crate's RGBA buffer, as the canvas uses it.
use vstd::prelude::*;
use image::RgbaImage;
use crate::color::Color;

verus! {

/// An RGBA image of the `image` crate. Verus sees none of its insides: what
/// the canvas needs of it is stated by the functions below.
#[verifier::external_body]
pub struct ImageStore {
    img: RgbaImage,
}

/// The subpixel buffer that an image holds, four bytes per pixel, row by row.
pub uninterp spec fn image_data(img: ImageStore) -> Seq<u8>;

/// The width, in pixels, that an image was made with.
pub uninterp spec fn image_width(img: ImageStore) -> u32;

/// The height, in pixels, that an image was made with.
pub uninterp spec fn image_height(img: ImageStore) -> u32;

/// Whether `(x, y)` lies on a `width` by `height` grid.
pub open spec fn in_grid(width: int, height: int, x: int, y: int) -> bool {
    0 <= x < width && 0 <= y < height
}

/// Index of the first byte of pixel `(x, y)` in a row-major RGBA buffer.
pub open spec fn pixel_offset(width: int, x: int, y: int) -> int {
    (y * width + x) * 4
}

/// The pixel `(x, y)` of a row-major RGBA buffer of the given width.
pub open spec fn pixel_in(data: Seq<u8>, width: int, x: int, y: int) -> Color {
    let i = pixel_offset(width, x, y);
    Color { r: data[i], g: data[i + 1], b: data[i + 2], a: data[i + 3] }
}

/// Relies on `ImageBuffer::from_pixel`: a `width` by `height` image whose
/// buffer holds four bytes per pixel, every pixel `p`. It panics when the
/// buffer would be larger than a vector can be.
#[verifier::external_body]
pub(crate) fn filled_image(width: u32, height: u32, p: Color) -> (img: ImageStore)
    requires
        4 * width * height <= isize::MAX,
    ensures
        image_width(img) == width,
        image_height(img) == height,
        image_data(img).len() == 4 * width * height,
        forall|x: int, y: int|
            in_grid(width as int, height as int, x, y) ==> #[trigger] pixel_in(
                image_data(img),
                width as int,
                x,
                y,
            ) == p,
{
    ImageStore { img: RgbaImage::from_pixel(width, height, image::Rgba([p.r, p.g, p.b, p.a])) }
}

/// Relies on `ImageBuffer::width`.
#[verifier::external_body]
pub(crate) fn width_of(img: &ImageStore) -> (r: u32)
    ensures
        r == image_width(*img),
{
    img.img.width()
}

/// Relies on `ImageBuffer::height`.
#[verifier::external_body]
pub(crate) fn height_of(img: &ImageStore) -> (r: u32)
    ensures
        r == image_height(*img),
{
    img.img.height()
}

/// Relies on `ImageBuffer::get_pixel`: the four bytes of pixel `(x, y)`. It
/// panics out of bounds.
#[verifier::external_body]
pub(crate) fn read_pixel(img: &ImageStore, x: u32, y: u32) -> (p: Color)
    requires
        x < image_width(*img),
        y < image_height(*img),
    ensures
        p == pixel_in(image_data(*img), image_width(*img) as int, x as int, y as int),
{
    let q = img.img.get_pixel(x, y);
    Color { r: q.0[0], g: q.0[1], b: q.0[2], a: q.0[3] }
}

/// Relies on `ImageBuffer::put_pixel`: pixel `(x, y)` becomes `p`, the size
/// and every other pixel stay. It panics out of bounds.
#[verifier::external_body]
pub(crate) fn write_pixel(img: &mut ImageStore, x: u32, y: u32, p: Color)
    requires
        x < image_width(*old(img)),
        y < image_height(*old(img)),
    ensures
        image_width(*final(img)) == image_width(*old(img)),
        image_height(*final(img)) == image_height(*old(img)),
        image_data(*final(img)).len() == image_data(*old(img)).len(),
        forall|i: int, j: int|
            in_grid(image_width(*old(img)) as int, image_height(*old(img)) as int, i, j)
                ==> #[trigger] pixel_in(image_data(*final(img)), image_width(*old(img)) as int, i, j)
                == if i == x && j == y {
                p
            } else {
                pixel_in(image_data(*old(img)), image_width(*old(img)) as int, i, j)
            },
{
    img.img.put_pixel(x, y, image::Rgba([p.r, p.g, p.b, p.a]))
}

/// Relies on `imageops::replace`: `top` is copied onto `bottom` with its
/// corner at `(x, y)`; the pixels of `bottom` that `top` does not cover stay.
#[verifier::external_body]
pub(crate) fn replace_region(bottom: &mut ImageStore, top: &ImageStore, x: i64, y: i64)
    ensures
        image_width(*final(bottom)) == image_width(*old(bottom)),
        image_height(*final(bottom)) == image_height(*old(bottom)),
        image_data(*final(bottom)).len() == image_data(*old(bottom)).len(),
        forall|i: int, j: int|
            in_grid(image_width(*old(bottom)) as int, image_height(*old(bottom)) as int, i, j)
                ==> #[trigger] pixel_in(image_data(*final(bottom)), image_width(*old(bottom)) as int, i, j)
                == if x <= i < x + image_width(*top) && y <= j < y + image_height(*top) {
                pixel_in(image_data(*top), image_width(*top) as int, i - x, j - y)
            } else {
                pixel_in(image_data(*old(bottom)), image_width(*old(bottom)) as int, i, j)
            },
{
    image::imageops::replace(&mut bottom.img, &top.img, x, y)
}

/// Relies on `ImageBuffer::as_raw`: the subpixel buffer itself.
#[verifier::external_body]
pub(crate) fn raw_of(img: &ImageStore) -> (r: &Vec<u8>)
    ensures
        r@ == image_data(*img),
{
    img.img.as_raw()
}

} // verus!
