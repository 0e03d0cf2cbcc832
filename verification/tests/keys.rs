use imagio::error::ImagioError;
use imagio::record::ImagioImage;
use imagio::variant::Variant;

#[test]
fn key_for_original_uses_slash() {
    let img = ImagioImage::new("abc", "public", "image/jpeg").unwrap();
    assert_eq!(img.filename(&Variant::Original), "public/abc.JPG");
}

#[test]
fn key_for_variant_uses_underscores() {
    let img = ImagioImage::new("abc", "public", "image/jpeg").unwrap();
    assert_eq!(img.filename(&Variant::Embed), "public_abc_embed.JPG");
    assert_eq!(img.filename(&Variant::Thumb), "public_abc_thumb.JPG");
    assert_eq!(img.filename(&Variant::Banner), "public_abc_banner.JPG");
    assert_eq!(img.filename(&Variant::Square), "public_abc_square.JPG");
    assert_eq!(img.filename(&Variant::Public), "public_abc_public.JPG");
}

#[test]
fn key_is_stable_across_calls() {
    let img = ImagioImage::new("a-b-c", "cats", "image/png").unwrap();
    let k1 = img.filename(&Variant::Thumb);
    let k2 = img.filename(&Variant::Thumb);
    assert_eq!(k1, k2);
    let again = ImagioImage::new("a-b-c", "cats", "image/png").unwrap();
    assert_eq!(again.filename(&Variant::Thumb), k1);
}

#[test]
fn extension_is_canonical_and_uppercased() {
    let img = ImagioImage::new("u", "c", "image/png").unwrap();
    assert_eq!(img.ext(), "PNG");
    // the canonical file extension of the jpeg subtype is jpg
    let img = ImagioImage::new("u", "c", "image/jpeg").unwrap();
    assert_eq!(img.ext(), "JPG");
    let img = ImagioImage::new("u", "c", "image/jpg").unwrap();
    assert_eq!(img.ext(), "JPG");
}

#[test]
fn malformed_mime_is_rejected() {
    match ImagioImage::new("u", "c", "notamime") {
        Err(ImagioError::DecodeError) => {}
        other => panic!("expected DecodeError, got {:?}", other.map(|i| i.ext())),
    }
}

#[test]
fn variant_names_round_trip() {
    for v in [
        Variant::Public,
        Variant::Embed,
        Variant::Thumb,
        Variant::Banner,
        Variant::Square,
        Variant::Original,
    ] {
        assert_eq!(Variant::from_name(v.name()), v);
    }
}

#[test]
fn unknown_variant_name_maps_to_original() {
    assert_eq!(Variant::from_name("huge"), Variant::Original);
    assert_eq!(Variant::from_name(""), Variant::Original);
}

#[test]
fn error_messages_name_the_class() {
    assert_eq!(ImagioError::NotFound.message(), "not found");
    assert_eq!(ImagioError::DecodeError.message(), "decode error");
    assert_eq!(ImagioError::BackendError.message(), "backend error");
    assert_eq!(ImagioError::ConfigError.message(), "config error");
}

#[test]
fn file_stem_strips_the_extension() {
    assert_eq!(imagio::record::file_stem("abc.JPG"), "abc");
    assert_eq!(imagio::record::file_stem("a.b.c"), "a");
    assert_eq!(imagio::record::file_stem("noext"), "noext");
    assert_eq!(imagio::record::file_stem(""), "");
    assert_eq!(imagio::record::file_stem(".hidden"), "");
}

#[test]
fn generate_succeeds() {
    assert!(imagio::generate().is_ok());
}
