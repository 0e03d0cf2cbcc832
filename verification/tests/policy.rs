use imagio::config::{validate_storage, StorageBackend, StorageParameters, ValidatedStorage};
use imagio::error::ImagioError;
use imagio::transform::{plan_transform, ColorKind, Encoding};
use imagio::variant::Variant;

fn params(with_s3: bool) -> StorageParameters {
    StorageParameters {
        cache: "data/cache".to_string(),
        store: "data/images".to_string(),
        bucket: if with_s3 { Some("b".to_string()) } else { None },
        region: if with_s3 { Some("r".to_string()) } else { None },
        endpoint: if with_s3 { Some("e".to_string()) } else { None },
        access_key_id: if with_s3 { Some("ak".to_string()) } else { None },
        secret_access_key: if with_s3 { Some("sk".to_string()) } else { None },
    }
}

#[test]
fn embed_box_caps_width_and_scales_height() {
    let plan = plan_transform(2000, 1000, ColorKind::Rgb8, &Variant::Embed).unwrap();
    assert_eq!((plan.0, plan.1), (1024, 512));
    // narrower than the cap: width kept, height kept
    let plan = plan_transform(800, 600, ColorKind::Rgb8, &Variant::Embed).unwrap();
    assert_eq!((plan.0, plan.1), (800, 600));
    // floor division
    let plan = plan_transform(3000, 1001, ColorKind::Rgb8, &Variant::Embed).unwrap();
    assert_eq!((plan.0, plan.1), (1024, 341));
}

#[test]
fn fixed_variants_fit_the_source_into_their_box() {
    // a 4:3 source larger than the box scales down to touch it, no cropping
    for (v, w, h) in [
        (Variant::Thumb, 256, 192),
        (Variant::Banner, 533, 400),
        (Variant::Square, 320, 240),
    ] {
        let plan = plan_transform(640, 480, ColorKind::Rgb8, &v).unwrap();
        assert_eq!((plan.0, plan.1), (w, h), "{v:?}");
    }
    // a source already within the box is not upscaled
    let plan = plan_transform(640, 480, ColorKind::Rgb8, &Variant::Public).unwrap();
    assert_eq!((plan.0, plan.1), (640, 480));
    let plan = plan_transform(100, 50, ColorKind::Rgb8, &Variant::Thumb).unwrap();
    assert_eq!((plan.0, plan.1), (100, 50));
    // a tall source touches the box height instead
    let plan = plan_transform(200, 400, ColorKind::Rgb8, &Variant::Thumb).unwrap();
    assert_eq!((plan.0, plan.1), (128, 256));
}

#[test]
fn zero_dimension_fails_before_geometry() {
    for v in [Variant::Embed, Variant::Thumb] {
        match plan_transform(0, 100, ColorKind::Rgb8, &v) {
            Err(ImagioError::DecodeError) => {}
            _ => panic!("expected DecodeError"),
        }
        match plan_transform(100, 0, ColorKind::Rgb8, &v) {
            Err(ImagioError::DecodeError) => {}
            _ => panic!("expected DecodeError"),
        }
    }
}

#[test]
fn degenerate_embed_height_is_rejected() {
    // so wide that the scaled height floors to zero
    match plan_transform(4_000_000, 1, ColorKind::Rgb8, &Variant::Embed) {
        Err(ImagioError::DecodeError) => {}
        _ => panic!("expected DecodeError"),
    }
    match plan_transform(4_000_000, 1, ColorKind::Rgb8, &Variant::Thumb) {
        Err(ImagioError::DecodeError) => {}
        _ => panic!("expected DecodeError"),
    }
    // and so tall that the scaled width floors to zero
    match plan_transform(1, 4_000_000, ColorKind::Rgb8, &Variant::Thumb) {
        Err(ImagioError::DecodeError) => {}
        _ => panic!("expected DecodeError"),
    }
}

#[test]
fn encoding_follows_source_layout() {
    let lossless = [
        ColorKind::La8,
        ColorKind::Rgba8,
        ColorKind::L16,
        ColorKind::La16,
        ColorKind::Rgb16,
        ColorKind::Rgba16,
    ];
    let lossy = [ColorKind::L8, ColorKind::Rgb8];
    for v in [Variant::Public, Variant::Embed, Variant::Thumb, Variant::Banner, Variant::Square] {
        for c in lossless {
            let plan = plan_transform(640, 480, c, &v).unwrap();
            assert_eq!(plan.2, Encoding::Png, "{c:?} under {v:?}");
        }
        for c in lossy {
            let plan = plan_transform(640, 480, c, &v).unwrap();
            assert_eq!(plan.2, Encoding::Jpeg, "{c:?} under {v:?}");
        }
    }
}

#[test]
fn fs_config_always_validates() {
    match validate_storage(StorageBackend::Fs, params(false)).unwrap() {
        ValidatedStorage::Fs { store_root, cache_root } => {
            assert_eq!(store_root, "data/images");
            assert_eq!(cache_root, "data/cache");
        }
        _ => panic!("expected Fs"),
    }
}

#[test]
fn s3_config_needs_every_field() {
    match validate_storage(StorageBackend::S3, params(false)) {
        Err(ImagioError::ConfigError) => {}
        _ => panic!("expected ConfigError"),
    }
    let mut p = params(true);
    p.secret_access_key = None;
    match validate_storage(StorageBackend::S3, p) {
        Err(ImagioError::ConfigError) => {}
        _ => panic!("expected ConfigError"),
    }
    match validate_storage(StorageBackend::S3, params(true)).unwrap() {
        ValidatedStorage::S3 { region, bucket, endpoint, .. } => {
            assert_eq!(region, "r");
            assert_eq!(bucket, "b");
            assert_eq!(endpoint, "e");
        }
        _ => panic!("expected S3"),
    }
}
