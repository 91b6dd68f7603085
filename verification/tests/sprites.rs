use image::{DynamicImage, GenericImageView, ImageFormat, Rgba, RgbaImage};
use pokedex_gen::images::{cry_url, graphics_url, prepare_sprite, sprite_url};
use pokedex_gen::Error;

fn png_bytes(img: &DynamicImage) -> Vec<u8> {
    let mut out = std::io::Cursor::new(Vec::new());
    img.write_to(&mut out, ImageFormat::Png).unwrap();
    out.into_inner()
}

#[test]
fn sprite_is_trimmed_to_its_opaque_rows() {
    // A 3x5 sprite: rows 0 and 4 fully transparent, content in rows 1..=3.
    let mut buf = RgbaImage::new(3, 5);
    buf.put_pixel(1, 1, Rgba([255, 0, 0, 255]));
    buf.put_pixel(0, 2, Rgba([0, 255, 0, 128]));
    buf.put_pixel(2, 3, Rgba([0, 0, 255, 255]));
    let bytes = png_bytes(&DynamicImage::ImageRgba8(buf));

    let trimmed = prepare_sprite(&bytes).unwrap();
    assert_eq!(trimmed.width(), 3);
    assert_eq!(trimmed.height(), 3);
    // The first content row moved to the top.
    assert_eq!(trimmed.get_pixel(1, 0), Rgba([255, 0, 0, 255]));
    assert_eq!(trimmed.get_pixel(0, 1), Rgba([0, 255, 0, 128]));
    assert_eq!(trimmed.get_pixel(2, 2), Rgba([0, 0, 255, 255]));
}

#[test]
fn fully_transparent_sprite_keeps_its_height() {
    let buf = RgbaImage::new(2, 4);
    let bytes = png_bytes(&DynamicImage::ImageRgba8(buf));
    let kept = prepare_sprite(&bytes).unwrap();
    assert_eq!(kept.width(), 2);
    assert_eq!(kept.height(), 4);
}

#[test]
fn undecodable_bytes_are_a_decode_error() {
    let garbage = vec![1u8, 2, 3, 4];
    match prepare_sprite(&garbage) {
        Err(Error::Decode) => {},
        other => panic!("expected a decode error, got {:?}", other.map(|_| ())),
    }
}

#[test]
fn sprite_urls_name_game_side_and_creature() {
    assert_eq!(
        sprite_url("firered-leafgreen", "normal", "bulbasaur"),
        "https://img.pokemondb.net/sprites/firered-leafgreen/normal/bulbasaur.png"
    );
    assert_eq!(
        graphics_url("bulbasaur", "front"),
        "https://raw.githubusercontent.com/pret/pokefirered/master/graphics/pokemon/bulbasaur/front.png"
    );
    assert_eq!(
        cry_url("bulbasaur"),
        "https://raw.githubusercontent.com/pret/pokefirered/master/sound/direct_sound_samples/cry_bulbasaur.aif"
    );
}
