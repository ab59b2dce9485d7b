use rustpix::batch::plan_batch;
use rustpix::codec::decode;
use rustpix::codec::encode;
use rustpix::config::ConversionRequest;
use rustpix::convert::after_delete;
use rustpix::convert::after_write;
use rustpix::convert::process_image;
use rustpix::convert::ConvertAction;
use rustpix::convert::ErrorKind;

fn png_bytes(w: u32, h: u32) -> Vec<u8> {
    let img = image::ImageBuffer::from_fn(w, h, |x, y| {
        image::Rgb([(x * 7 % 256) as u8, (y * 13 % 256) as u8, ((x + y) * 3 % 256) as u8])
    });
    let mut out = std::io::Cursor::new(Vec::new());
    image::DynamicImage::ImageRgb8(img)
        .write_to(&mut out, image::ImageOutputFormat::Png)
        .unwrap();
    out.into_inner()
}

fn rgba_png_bytes(w: u32, h: u32) -> Vec<u8> {
    let img = image::ImageBuffer::from_fn(w, h, |x, y| {
        image::Rgba([(x * 5 % 256) as u8, (y * 11 % 256) as u8, 90u8, 128u8])
    });
    let mut out = std::io::Cursor::new(Vec::new());
    image::DynamicImage::ImageRgba8(img)
        .write_to(&mut out, image::ImageOutputFormat::Png)
        .unwrap();
    out.into_inner()
}

#[test]
fn decode_rejects_garbage() {
    assert!(decode(&b"not an image at all".to_vec()).is_none());
    assert!(decode(&Vec::new()).is_none());
}

#[test]
fn decode_normalizes_to_rgb() {
    let img = decode(&png_bytes(20, 10)).expect("a valid image decodes");
    assert_eq!(img.width, 20);
    assert_eq!(img.height, 10);
    assert_eq!(img.pixels.len(), 3 * 20 * 10);
}

#[test]
fn decode_drops_the_alpha_channel() {
    let img = decode(&rgba_png_bytes(8, 8)).expect("an image with alpha decodes");
    assert_eq!(img.width, 8);
    assert_eq!(img.height, 8);
    assert_eq!(img.pixels.len(), 3 * 8 * 8);
}

#[test]
fn encode_payload_is_non_empty_and_shrinks_with_quality() {
    let img = decode(&png_bytes(64, 48)).unwrap();
    let mut previous: Option<usize> = None;
    for quality in [100u8, 75, 50, 25, 1] {
        let payload = encode(&img, quality).expect("encoding succeeds");
        assert!(!payload.is_empty());
        if let Some(larger) = previous {
            assert!(payload.len() <= larger);
        }
        previous = Some(payload.len());
    }
}

#[test]
fn decoded_then_encoded_bytes_decode_again() {
    let img = decode(&png_bytes(16, 16)).unwrap();
    let payload = encode(&img, 80).unwrap();
    let back = decode(&payload).expect("the produced WebP decodes");
    assert_eq!(back.width, 16);
    assert_eq!(back.height, 16);
}

#[test]
fn unreadable_source_is_a_decode_error() {
    match process_image("d/a.png", "d/out.webp", 75, None) {
        ConvertAction::Finish(o) => {
            assert_eq!(o.source_path, "d/a.png");
            assert_eq!(o.output_path, None);
            assert_eq!(o.error, Some(ErrorKind::DecodeError));
        }
        other => panic!("expected an immediate failure, got {:?}", other),
    }
}

#[test]
fn corrupt_source_is_a_decode_error() {
    match process_image("a.png", "out.webp", 75, Some(b"broken".to_vec())) {
        ConvertAction::Finish(o) => {
            assert_eq!(o.error, Some(ErrorKind::DecodeError));
            assert_eq!(o.output_path, None);
        }
        other => panic!("expected an immediate failure, got {:?}", other),
    }
}

#[test]
fn good_source_yields_a_write_with_the_encoded_payload() {
    let bytes = png_bytes(12, 9);
    let img = decode(&bytes).unwrap();
    let expected = encode(&img, 60).unwrap();
    match process_image("d/a.png", "d/out.webp", 60, Some(bytes)) {
        ConvertAction::WriteOutput { output_path, payload } => {
            assert_eq!(output_path, "d/out.webp");
            assert_eq!(payload, expected);
        }
        other => panic!("expected a write action, got {:?}", other),
    }
}

#[test]
fn failed_write_never_deletes() {
    match after_write("a.png", "out.webp", false, false) {
        ConvertAction::Finish(o) => {
            assert_eq!(o.output_path, None);
            assert_eq!(o.error, Some(ErrorKind::WriteError));
        }
        other => panic!("expected a write failure outcome, got {:?}", other),
    }
}

#[test]
fn keep_original_skips_the_delete() {
    match after_write("a.png", "out.webp", true, true) {
        ConvertAction::Finish(o) => {
            assert_eq!(o.source_path, "a.png");
            assert_eq!(o.output_path, Some("out.webp".to_string()));
            assert_eq!(o.error, None);
        }
        other => panic!("expected a success outcome, got {:?}", other),
    }
}

#[test]
fn delete_follows_only_a_successful_write() {
    assert!(matches!(
        after_write("a.png", "out.webp", false, true),
        ConvertAction::DeleteSource
    ));
}

#[test]
fn failed_delete_is_a_partial_success() {
    let o = after_delete("a.png", "out.webp", false);
    assert_eq!(o.output_path, Some("out.webp".to_string()));
    assert_eq!(o.error, Some(ErrorKind::DeleteError));
}

#[test]
fn successful_delete_ends_in_success() {
    let o = after_delete("a.png", "out.webp", true);
    assert_eq!(o.source_path, "a.png");
    assert_eq!(o.output_path, Some("out.webp".to_string()));
    assert_eq!(o.error, None);
}

#[test]
fn single_unnamed_file_converts_to_a_token_name() {
    let req = ConversionRequest {
        files: vec!["photo.png".to_string()],
        output_base_name: None,
        keep_original: false,
        quality: 75,
    };
    let plan = plan_batch(&req).expect("the token name cannot collide here");
    assert_eq!(plan.len(), 1);
    let item = &plan[0];
    assert_eq!(item.output_path, format!("{}.webp", item.token));
    assert_eq!(item.token.len(), 36);
    let action = process_image(&item.source_path, &item.output_path, 75, Some(png_bytes(6, 6)));
    let written = match action {
        ConvertAction::WriteOutput { output_path, payload } => {
            assert!(!payload.is_empty());
            output_path
        }
        other => panic!("expected a write action, got {:?}", other),
    };
    assert!(matches!(
        after_write(&item.source_path, &written, false, true),
        ConvertAction::DeleteSource
    ));
    let o = after_delete(&item.source_path, &written, true);
    assert_eq!(o.source_path, "photo.png");
    assert_eq!(o.output_path, Some(written));
    assert_eq!(o.error, None);
}

#[test]
fn one_corrupt_file_fails_alone_in_a_batch_of_five() {
    let req = ConversionRequest {
        files: (0..5).map(|i| format!("f{}.png", i)).collect(),
        output_base_name: Some("img".to_string()),
        keep_original: false,
        quality: 75,
    };
    let plan = plan_batch(&req).expect("the numbered names do not collide here");
    assert_eq!(plan.len(), 5);
    let mut outcomes = Vec::new();
    for item in &plan {
        let bytes = if item.index == 2 {
            b"corrupt data".to_vec()
        } else {
            png_bytes(10, 10)
        };
        let action = process_image(&item.source_path, &item.output_path, 75, Some(bytes));
        let outcome = match action {
            ConvertAction::Finish(o) => o,
            ConvertAction::WriteOutput { output_path, .. } => {
                match after_write(&item.source_path, &output_path, false, true) {
                    ConvertAction::Finish(o) => o,
                    ConvertAction::DeleteSource => after_delete(&item.source_path, &output_path, true),
                    other => panic!("unexpected action {:?}", other),
                }
            }
            other => panic!("unexpected action {:?}", other),
        };
        outcomes.push(outcome);
    }
    assert_eq!(outcomes.len(), 5);
    for (i, o) in outcomes.iter().enumerate() {
        if i == 2 {
            assert_eq!(o.error, Some(ErrorKind::DecodeError));
            assert_eq!(o.output_path, None);
        } else {
            assert_eq!(o.error, None);
            assert_eq!(o.output_path, Some(format!("img{}.webp", i + 1)));
        }
    }
}
