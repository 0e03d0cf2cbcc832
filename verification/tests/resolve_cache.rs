use imagio::cache::{resolve, remove_original};
use imagio::error::ImagioError;
use imagio::record::ImagioImage;
use imagio::store::MemoryStore;
use imagio::variant::Variant;

fn rgb_jpeg(w: u32, h: u32) -> Vec<u8> {
    let img = image::RgbImage::from_fn(w, h, |x, y| {
        image::Rgb([(x % 251) as u8, (y % 241) as u8, 100])
    });
    let mut out = std::io::Cursor::new(Vec::new());
    image::DynamicImage::ImageRgb8(img)
        .write_to(&mut out, image::ImageFormat::Jpeg)
        .unwrap();
    out.into_inner()
}

fn rgba_png(w: u32, h: u32) -> Vec<u8> {
    let img = image::RgbaImage::from_fn(w, h, |x, y| {
        image::Rgba([(x % 251) as u8, (y % 241) as u8, 10, 200])
    });
    let mut out = std::io::Cursor::new(Vec::new());
    image::DynamicImage::ImageRgba8(img)
        .write_to(&mut out, image::ImageFormat::Png)
        .unwrap();
    out.into_inner()
}

fn luma16_png(w: u32, h: u32) -> Vec<u8> {
    let img =
        image::ImageBuffer::<image::Luma<u16>, Vec<u16>>::from_fn(w, h, |x, y| {
            image::Luma([(x * 31 + y) as u16])
        });
    let mut out = std::io::Cursor::new(Vec::new());
    image::DynamicImage::ImageLuma16(img)
        .write_to(&mut out, image::ImageFormat::Png)
        .unwrap();
    out.into_inner()
}

fn record() -> ImagioImage {
    ImagioImage::new("abc", "public", "image/jpeg").unwrap()
}

fn seeded_stores(payload: Vec<u8>) -> (MemoryStore, MemoryStore) {
    let mut originals = MemoryStore::new();
    originals.write(record().filename(&Variant::Original), payload);
    (originals, MemoryStore::new())
}

#[test]
fn embed_scenario_produces_1024x512_jpeg_and_memoizes() {
    let (originals, mut derivatives) = seeded_stores(rgb_jpeg(2000, 1000));
    let img = record();

    let first = resolve(&originals, &mut derivatives, &img, &Variant::Embed).unwrap();
    assert_eq!(image::guess_format(&first).unwrap(), image::ImageFormat::Jpeg);
    let decoded = image::load_from_memory(&first).unwrap();
    assert_eq!((decoded.width(), decoded.height()), (1024, 512));
    assert!(derivatives.exists_key(&"public_abc_embed.JPG".to_string()));

    // the second call is a cache hit and returns byte-identical content
    let second = resolve(&originals, &mut derivatives, &img, &Variant::Embed).unwrap();
    assert_eq!(first, second);
}

#[test]
fn original_passes_through_verbatim() {
    let payload = rgb_jpeg(64, 48);
    let (originals, mut derivatives) = seeded_stores(payload.clone());
    let img = record();
    let got = resolve(&originals, &mut derivatives, &img, &Variant::Original).unwrap();
    assert_eq!(got, payload);
    assert!(!derivatives.exists_key(&"public_abc_original.JPG".to_string()));
}

#[test]
fn missing_original_is_not_found_never_decode_error() {
    let originals = MemoryStore::new();
    let mut derivatives = MemoryStore::new();
    let img = record();
    match resolve(&originals, &mut derivatives, &img, &Variant::Thumb) {
        Err(ImagioError::NotFound) => {}
        Err(ImagioError::DecodeError) => panic!("DecodeError must not mask a missing original"),
        other => panic!("expected NotFound, got {:?}", other.map(|b| b.len())),
    }
    match resolve(&originals, &mut derivatives, &img, &Variant::Original) {
        Err(ImagioError::NotFound) => {}
        _ => panic!("expected NotFound"),
    }
}

#[test]
fn cache_is_self_healing_after_out_of_band_delete() {
    let (originals, mut derivatives) = seeded_stores(rgb_jpeg(640, 480));
    let img = record();
    let key = "public_abc_thumb.JPG".to_string();

    let first = resolve(&originals, &mut derivatives, &img, &Variant::Thumb).unwrap();
    derivatives.delete(&key).unwrap();
    assert!(!derivatives.exists_key(&key));

    let again = resolve(&originals, &mut derivatives, &img, &Variant::Thumb).unwrap();
    assert!(derivatives.exists_key(&key));
    let a = image::load_from_memory(&first).unwrap();
    let b = image::load_from_memory(&again).unwrap();
    // 640x480 fits the 256x256 box at 256x192
    assert_eq!((a.width(), a.height()), (256, 192));
    assert_eq!((a.width(), a.height()), (b.width(), b.height()));
    assert_eq!(
        image::guess_format(&again).unwrap(),
        image::ImageFormat::Jpeg
    );
}

#[test]
fn alpha_source_renders_png_for_every_variant() {
    for v in [Variant::Public, Variant::Embed, Variant::Thumb, Variant::Banner, Variant::Square] {
        let (originals, mut derivatives) = seeded_stores(rgba_png(300, 200));
        let img = record();
        let out = resolve(&originals, &mut derivatives, &img, &v).unwrap();
        assert_eq!(
            image::guess_format(&out).unwrap(),
            image::ImageFormat::Png,
            "{v:?}"
        );
    }
}

#[test]
fn sixteen_bit_source_renders_png() {
    let (originals, mut derivatives) = seeded_stores(luma16_png(200, 100));
    let img = record();
    let out = resolve(&originals, &mut derivatives, &img, &Variant::Square).unwrap();
    assert_eq!(image::guess_format(&out).unwrap(), image::ImageFormat::Png);
    // 200x100 already fits the 320x320 box and is not upscaled
    let decoded = image::load_from_memory(&out).unwrap();
    assert_eq!((decoded.width(), decoded.height()), (200, 100));
}

#[test]
fn opaque_source_renders_jpeg_within_box() {
    let (originals, mut derivatives) = seeded_stores(rgb_jpeg(100, 900));
    let img = record();
    let out = resolve(&originals, &mut derivatives, &img, &Variant::Banner).unwrap();
    assert_eq!(image::guess_format(&out).unwrap(), image::ImageFormat::Jpeg);
    // 100x900 fits the 800x400 box at 44x400, aspect preserved
    let decoded = image::load_from_memory(&out).unwrap();
    assert_eq!((decoded.width(), decoded.height()), (44, 400));
}

#[test]
fn undecodable_bytes_fail_with_decode_error() {
    let (originals, mut derivatives) = seeded_stores(vec![1, 2, 3, 4]);
    let img = record();
    match resolve(&originals, &mut derivatives, &img, &Variant::Thumb) {
        Err(ImagioError::DecodeError) => {}
        _ => panic!("expected DecodeError"),
    }
    match imagio::transform::render(&vec![9, 9, 9], &Variant::Thumb) {
        Err(ImagioError::DecodeError) => {}
        _ => panic!("expected DecodeError"),
    }
}

#[test]
fn deleting_a_record_removes_only_the_original() {
    let (mut originals, mut derivatives) = seeded_stores(rgb_jpeg(640, 480));
    let img = record();
    resolve(&originals, &mut derivatives, &img, &Variant::Thumb).unwrap();

    remove_original(&mut originals, &img).unwrap();
    assert!(!originals.exists_key(&"public/abc.JPG".to_string()));
    // stale derivative entries are left behind on purpose
    assert!(derivatives.exists_key(&"public_abc_thumb.JPG".to_string()));
    // deleting again reports NotFound, which callers treat as non-fatal
    match remove_original(&mut originals, &img) {
        Err(ImagioError::NotFound) => {}
        _ => panic!("expected NotFound"),
    }
}
