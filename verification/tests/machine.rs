use imagio::cache::{Namespace, Resolution, StorageAction, StorageEvent};
use imagio::error::ImagioError;
use imagio::record::ImagioImage;
use imagio::variant::Variant;

fn record() -> ImagioImage {
    ImagioImage::new("abc", "public", "image/jpeg").unwrap()
}

fn rgb_jpeg(w: u32, h: u32) -> Vec<u8> {
    let img = image::RgbImage::from_fn(w, h, |x, y| {
        image::Rgb([(x % 7) as u8, (y % 11) as u8, 50])
    });
    let mut out = std::io::Cursor::new(Vec::new());
    image::DynamicImage::ImageRgb8(img)
        .write_to(&mut out, image::ImageFormat::Jpeg)
        .unwrap();
    out.into_inner()
}

#[test]
fn original_request_reads_originals_directly() {
    let (mut state, action) = Resolution::begin(record(), Variant::Original);
    match action {
        StorageAction::Read { ns: Namespace::Originals, key } => {
            assert_eq!(key, "public/abc.JPG");
        }
        _ => panic!("expected a read of the originals namespace"),
    }
    let done = state.advance(StorageEvent::Loaded { bytes: vec![5, 6] });
    match done {
        StorageAction::Finish { bytes } => assert_eq!(bytes, vec![5, 6]),
        _ => panic!("expected Finish"),
    }
}

#[test]
fn miss_walks_probe_read_render_write_finish() {
    let (mut state, action) = Resolution::begin(record(), Variant::Thumb);
    match action {
        StorageAction::Exists { ns: Namespace::Derivatives, key } => {
            assert_eq!(key, "public_abc_thumb.JPG");
        }
        _ => panic!("expected a cache probe"),
    }

    let action = state.advance(StorageEvent::Found { present: false });
    match action {
        StorageAction::Read { ns: Namespace::Originals, key } => {
            assert_eq!(key, "public/abc.JPG");
        }
        _ => panic!("expected a read of the original"),
    }

    let action = state.advance(StorageEvent::Loaded { bytes: rgb_jpeg(640, 480) });
    let written = match action {
        StorageAction::Write { ns: Namespace::Derivatives, key, bytes } => {
            assert_eq!(key, "public_abc_thumb.JPG");
            bytes
        }
        _ => panic!("expected a write-through"),
    };

    let action = state.advance(StorageEvent::Stored);
    match action {
        StorageAction::Finish { bytes } => assert_eq!(bytes, written),
        _ => panic!("expected Finish"),
    }
}

#[test]
fn hit_reads_the_cached_entry_back() {
    let (mut state, _) = Resolution::begin(record(), Variant::Square);
    let action = state.advance(StorageEvent::Found { present: true });
    match action {
        StorageAction::Read { ns: Namespace::Derivatives, key } => {
            assert_eq!(key, "public_abc_square.JPG");
        }
        _ => panic!("expected a cached read"),
    }
    let action = state.advance(StorageEvent::Loaded { bytes: vec![1] });
    match action {
        StorageAction::Finish { bytes } => assert_eq!(bytes, vec![1]),
        _ => panic!("expected Finish"),
    }
}

#[test]
fn backend_failure_aborts_with_the_error() {
    let (mut state, _) = Resolution::begin(record(), Variant::Thumb);
    let action = state.advance(StorageEvent::Failed { error: ImagioError::BackendError });
    match action {
        StorageAction::Abort { error: ImagioError::BackendError } => {}
        _ => panic!("expected Abort with BackendError"),
    }
}

#[test]
fn failed_write_through_fails_the_resolution() {
    let (mut state, _) = Resolution::begin(record(), Variant::Thumb);
    state.advance(StorageEvent::Found { present: false });
    state.advance(StorageEvent::Loaded { bytes: rgb_jpeg(64, 64) });
    let action = state.advance(StorageEvent::Failed { error: ImagioError::BackendError });
    match action {
        StorageAction::Abort { error: ImagioError::BackendError } => {}
        _ => panic!("expected Abort with BackendError"),
    }
}

#[test]
fn missing_original_on_miss_aborts_not_found() {
    let (mut state, _) = Resolution::begin(record(), Variant::Embed);
    state.advance(StorageEvent::Found { present: false });
    let action = state.advance(StorageEvent::Missing);
    match action {
        StorageAction::Abort { error: ImagioError::NotFound } => {}
        _ => panic!("expected Abort with NotFound"),
    }
}

#[test]
fn vanished_cache_entry_regenerates() {
    let (mut state, _) = Resolution::begin(record(), Variant::Thumb);
    state.advance(StorageEvent::Found { present: true });
    // the entry disappeared between the probe and the read
    let action = state.advance(StorageEvent::Missing);
    match action {
        StorageAction::Read { ns: Namespace::Originals, key } => {
            assert_eq!(key, "public/abc.JPG");
        }
        _ => panic!("expected a read of the original"),
    }
}
