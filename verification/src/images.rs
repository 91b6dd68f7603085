//! Sprite processing: the URLs the sprites are fetched from, and the
//! vertical trim that cuts an image down to its opaque rows. Decoding and
//! cropping go through the image crate behind trusted wrappers; reading and
//! writing files stays with the caller.

use image::GenericImageView;
use vstd::prelude::*;

use crate::Error;

verus! {

/// The alpha channel of every pixel of the image, row by row, each pixel
/// read as eight-bit RGBA.
pub uninterp spec fn image_alphas(img: image::DynamicImage) -> Seq<Seq<u8>>;

/// What decoding a PNG byte stream yields: the alpha grid of the decoded
/// image, or nothing when the bytes do not decode.
pub uninterp spec fn png_alpha_decode(bytes: Seq<u8>) -> Option<Seq<Seq<u8>>>;

#[verifier::external_type_specification]
#[verifier::external_body]
pub struct ExDynamicImage(image::DynamicImage);

#[verifier::external_type_specification]
#[verifier::external_body]
pub struct ExImageError(image::ImageError);

/// Relies on `image::load_from_memory_with_format` with the PNG format:
/// decoding is a function of the bytes alone.
#[verifier::external_body]
fn decode_png(bytes: &[u8]) -> (r: Result<image::DynamicImage, image::ImageError>)
    ensures
        match r {
            Ok(img) => png_alpha_decode(bytes@) == Some(image_alphas(img)),
            Err(_) => png_alpha_decode(bytes@) is None,
        },
{
    image::load_from_memory_with_format(bytes, image::ImageFormat::Png)
}

/// Relies on `image::DynamicImage::height`: the number of pixel rows.
#[verifier::external_body]
fn image_height(img: &image::DynamicImage) -> (r: u32)
    ensures
        r == image_alphas(*img).len(),
{
    img.height()
}

/// Relies on `image::DynamicImage::width`: every pixel row has the same
/// number of columns.
#[verifier::external_body]
fn image_width(img: &image::DynamicImage) -> (r: u32)
    ensures
        forall|y: int| 0 <= y < image_alphas(*img).len() ==> #[trigger] image_alphas(
            *img,
        )[y].len() == r,
{
    img.width()
}

/// Relies on `image::DynamicImage::get_pixel` through `GenericImageView`,
/// reading the pixel as eight-bit RGBA and picking its alpha channel.
#[verifier::external_body]
fn alpha_at(img: &image::DynamicImage, x: u32, y: u32) -> (r: u8)
    requires
        y < image_alphas(*img).len(),
        x < image_alphas(*img)[y as int].len(),
    ensures
        r == image_alphas(*img)[y as int][x as int],
{
    img.get_pixel(x, y).0[3]
}

/// Relies on `image::DynamicImage::crop_imm`: a full-width cut-out keeps
/// the chosen rows as they are.
#[verifier::external_body]
fn crop_rows(img: &image::DynamicImage, width: u32, top: u32, height: u32) -> (r:
    image::DynamicImage)
    requires
        top + height <= image_alphas(*img).len(),
        forall|y: int| 0 <= y < image_alphas(*img).len() ==> #[trigger] image_alphas(
            *img,
        )[y].len() == width,
    ensures
        image_alphas(r) =~= image_alphas(*img).subrange(top as int, top as int + height as int),
{
    img.crop_imm(0, top, width, height)
}

/// Every pixel of the row is fully transparent.
pub open spec fn row_transparent(g: Seq<Seq<u8>>, y: int) -> bool {
    forall|x: int| 0 <= x < g[y].len() ==> #[trigger] g[y][x] == 0
}

/// Some row of the grid has an opaque pixel.
pub open spec fn has_opaque_row(g: Seq<Seq<u8>>) -> bool {
    exists|y: int| 0 <= y < g.len() && !row_transparent(g, y)
}

/// `y` is the first row with an opaque pixel.
pub open spec fn is_first_opaque_row(g: Seq<Seq<u8>>, y: int) -> bool {
    &&& 0 <= y < g.len()
    &&& !row_transparent(g, y)
    &&& forall|k: int| 0 <= k < y ==> row_transparent(g, k)
}

/// `y` is the last row with an opaque pixel.
pub open spec fn is_last_opaque_row(g: Seq<Seq<u8>>, y: int) -> bool {
    &&& 0 <= y < g.len()
    &&& !row_transparent(g, y)
    &&& forall|k: int| y < k < g.len() ==> row_transparent(g, k)
}

/// The grid trimmed to the rows between the first and the last opaque one;
/// a grid with no opaque row stays as it is.
pub open spec fn trimmed(g: Seq<Seq<u8>>) -> Seq<Seq<u8>> {
    if has_opaque_row(g) {
        let t = choose|t: int| is_first_opaque_row(g, t);
        let b = choose|b: int| is_last_opaque_row(g, b);
        g.subrange(t, b + 1)
    } else {
        g
    }
}

/// At most one row is the first opaque one.
pub proof fn lemma_first_opaque_unique(g: Seq<Seq<u8>>, i: int, j: int)
    requires
        is_first_opaque_row(g, i),
        is_first_opaque_row(g, j),
    ensures
        i == j,
{
    if i < j {
        assert(row_transparent(g, i));
    } else if j < i {
        assert(row_transparent(g, j));
    }
}

/// At most one row is the last opaque one.
pub proof fn lemma_last_opaque_unique(g: Seq<Seq<u8>>, i: int, j: int)
    requires
        is_last_opaque_row(g, i),
        is_last_opaque_row(g, j),
    ensures
        i == j,
{
    if i < j {
        assert(row_transparent(g, j));
    } else if j < i {
        assert(row_transparent(g, i));
    }
}

/// Whether a single pixel is fully transparent.
pub fn transparent(image: &image::DynamicImage, x: u32, y: u32) -> (r: bool)
    requires
        y < image_alphas(*image).len(),
        x < image_alphas(*image)[y as int].len(),
    ensures
        r == (image_alphas(*image)[y as int][x as int] == 0),
{
    alpha_at(image, x, y) == 0
}

/// Whether every pixel of a row is fully transparent.
pub fn transparent_row(image: &image::DynamicImage, y: u32) -> (r: bool)
    requires
        y < image_alphas(*image).len(),
    ensures
        r == row_transparent(image_alphas(*image), y as int),
{
    let width = image_width(image);
    let mut x: u32 = 0;
    while x < width
        invariant
            y < image_alphas(*image).len(),
            image_alphas(*image)[y as int].len() == width,
            0 <= x <= width,
            forall|k: int| 0 <= k < x ==> #[trigger] image_alphas(*image)[y as int][k] == 0,
        decreases width - x,
    {
        if !transparent(image, x, y) {
            return false;
        }
        x = x + 1;
    }
    true
}

/// The vertical extent of the image's content: the first and the last row
/// with an opaque pixel. An image with no opaque row reports the full
/// height: row zero to one past the last row.
pub fn get_heights(image: &image::DynamicImage) -> (r: (u32, u32))
    ensures
        ({
            let g = image_alphas(*image);
            if has_opaque_row(g) {
                is_first_opaque_row(g, r.0 as int) && is_last_opaque_row(g, r.1 as int)
            } else {
                r.0 == 0 && r.1 as int == g.len()
            }
        }),
{
    let ghost g = image_alphas(*image);
    let height = image_height(image);
    let mut top: u32 = 0;
    let bottom: u32 = height;

    let mut b_counter: u32 = 0;
    let mut found_top = false;
    while b_counter < height
        invariant
            g == image_alphas(*image),
            height as int == g.len(),
            0 <= b_counter <= height,
            !found_top ==> top == 0 && forall|k: int| 0 <= k < b_counter ==> row_transparent(g, k),
            found_top ==> is_first_opaque_row(g, top as int),
        decreases height - b_counter,
    {
        if !found_top && !transparent_row(image, b_counter) {
            top = b_counter;
            found_top = true;
        }
        b_counter = b_counter + 1;
    }

    let mut t_counter: u32 = height;
    while t_counter > 0
        invariant
            g == image_alphas(*image),
            height as int == g.len(),
            0 <= t_counter <= height,
            forall|k: int| t_counter <= k < g.len() ==> row_transparent(g, k),
            !found_top ==> top == 0 && forall|k: int| 0 <= k < g.len() ==> row_transparent(g, k),
            found_top ==> is_first_opaque_row(g, top as int),
        decreases t_counter,
    {
        if !transparent_row(image, t_counter - 1) {
            proof {
                assert(is_last_opaque_row(g, t_counter - 1));
                assert(found_top) by {
                    if !found_top {
                        assert(row_transparent(g, t_counter - 1));
                    }
                }
            }
            return (top, t_counter - 1);
        }
        t_counter = t_counter - 1;
    }

    proof {
        if has_opaque_row(g) {
            let w = choose|w: int| 0 <= w < g.len() && !row_transparent(g, w);
            assert(row_transparent(g, w));
            assert(false);
        }
    }
    (top, bottom)
}

/// Decodes a PNG sprite and trims it to the rows between its first and
/// last opaque pixel; bytes that do not decode are a decode error.
pub fn prepare_sprite(bytes: &[u8]) -> (r: Result<image::DynamicImage, Error>)
    ensures
        match r {
            Ok(img) => (png_alpha_decode(bytes@) matches Some(g) && image_alphas(img) =~= trimmed(
                g,
            )),
            Err(e) => png_alpha_decode(bytes@) is None && e == Error::Decode,
        },
{
    let img = match decode_png(bytes) {
        Ok(img) => img,
        Err(_) => {
            return Err(Error::Decode);
        },
    };
    let ghost g = image_alphas(img);
    let height = image_height(&img);
    let width = image_width(&img);
    let (top, bottom) = get_heights(&img);
    if bottom == height {
        proof {
            if has_opaque_row(g) {
                assert(is_last_opaque_row(g, bottom as int));
                assert(false);
            }
            assert(image_alphas(img) =~= trimmed(g));
        }
        Ok(img)
    } else {
        proof {
            assert(has_opaque_row(g)) by {
                assert(!row_transparent(g, bottom as int));
            }
            let t = choose|t: int| is_first_opaque_row(g, t);
            let b = choose|b: int| is_last_opaque_row(g, b);
            lemma_first_opaque_unique(g, top as int, t);
            lemma_last_opaque_unique(g, bottom as int, b);
            assert(top <= bottom) by {
                if bottom < top {
                    assert(row_transparent(g, bottom as int));
                }
            }
        }
        let out = crop_rows(&img, width, top, bottom - top + 1);
        proof {
            assert(image_alphas(out) =~= trimmed(g));
        }
        Ok(out)
    }
}

/// The URL of a sprite on the sprite database: the game, the side, then
/// the creature's name.
pub fn sprite_url(game_id: &str, side_url: &str, pokemon: &str) -> (r: String)
    ensures
        r@ == "https://img.pokemondb.net/sprites/"@ + game_id@ + "/"@ + side_url@ + "/"@
            + pokemon@ + ".png"@,
{
    let mut u = String::from_str("https://img.pokemondb.net/sprites/");
    u.append(game_id);
    u.append("/");
    u.append(side_url);
    u.append("/");
    u.append(pokemon);
    u.append(".png");
    u
}

/// The URL of a creature's sprite in the decompilation repository.
pub fn graphics_url(pokemon: &str, side: &str) -> (r: String)
    ensures
        r@ == "https://raw.githubusercontent.com/pret/pokefirered/master/graphics/pokemon/"@
            + pokemon@ + "/"@ + side@ + ".png"@,
{
    let mut u = String::from_str(
        "https://raw.githubusercontent.com/pret/pokefirered/master/graphics/pokemon/",
    );
    u.append(pokemon);
    u.append("/");
    u.append(side);
    u.append(".png");
    u
}

/// The URL of a creature's cry in the decompilation repository.
pub fn cry_url(pokemon: &str) -> (r: String)
    ensures
        r@ == "https://raw.githubusercontent.com/pret/pokefirered/master/sound/direct_sound_samples/cry_"@
            + pokemon@ + ".aif"@,
{
    let mut u = String::from_str(
        "https://raw.githubusercontent.com/pret/pokefirered/master/sound/direct_sound_samples/cry_",
    );
    u.append(pokemon);
    u.append(".aif");
    u
}

/// Writes cropped sprites; the fetch of the bytes and the write of the
/// file stay with the caller, the trim itself is `prepare_sprite`.
pub struct ImageWriter;

} // verus!
