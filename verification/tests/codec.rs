// The codec adapter exercised against the real PNG encoder and decoder.

use sdui::codec::{decode_for_display, encode_png, CodecError, PixelImage};
use sdui::job::outcome_of_pipeline;
use sdui::transport::JobResult;

fn two_by_two() -> PixelImage {
    // four clearly distinct pixels
    let rgb = vec![
        255, 0, 0, //
        0, 255, 0, //
        0, 0, 255, //
        17, 34, 51,
    ];
    PixelImage { width: 2, height: 2, rgb }
}

#[test]
fn encode_produces_a_png_stream_not_the_raw_buffer() {
    let img = two_by_two();
    let bytes = encode_png(&img).expect("a non-empty canvas encodes");
    // the PNG signature: this is a portable stream, not the pixels handed in
    assert_eq!(&bytes[..8], &[137, 80, 78, 71, 13, 10, 26, 10]);
    assert_ne!(bytes, img.rgb);
}

#[test]
fn round_trip_preserves_every_pixel() {
    let img = two_by_two();
    let bytes = encode_png(&img).expect("a non-empty canvas encodes");
    let back = decode_for_display(&bytes).expect("the stream decodes");
    assert_eq!(back.width, img.width);
    assert_eq!(back.height, img.height);
    assert_eq!(back.rgb, img.rgb);
}

#[test]
fn encode_rejects_an_empty_canvas() {
    let empty = PixelImage { width: 0, height: 0, rgb: vec![] };
    assert_eq!(encode_png(&empty), Err(CodecError::EmptyCanvas));
    let flat = PixelImage { width: 4, height: 0, rgb: vec![] };
    assert_eq!(encode_png(&flat), Err(CodecError::EmptyCanvas));
}

#[test]
fn decode_rejects_unreadable_bytes() {
    let garbage = vec![1u8, 2, 3, 4, 5];
    assert_eq!(decode_for_display(&garbage), Err(CodecError::UnreadableBytes));
    assert_eq!(decode_for_display(&vec![]), Err(CodecError::UnreadableBytes));
}

#[test]
fn well_formedness_is_three_bytes_per_pixel() {
    assert!(two_by_two().is_well_formed());
    let short = PixelImage { width: 2, height: 2, rgb: vec![0; 11] };
    assert!(!short.is_well_formed());
    let long = PixelImage { width: 2, height: 2, rgb: vec![0; 13] };
    assert!(!long.is_well_formed());
}

#[test]
fn pipeline_error_passes_its_message_through() {
    let r = outcome_of_pipeline(Err("invalid configuration".to_string()));
    assert_eq!(
        r,
        JobResult::Failure { message: "invalid configuration".to_string() }
    );
}

#[test]
fn empty_candidate_set_is_a_failure() {
    let r = outcome_of_pipeline(Ok(vec![]));
    assert_eq!(
        r,
        JobResult::Failure { message: "the pipeline produced no image".to_string() }
    );
}

#[test]
fn malformed_buffer_is_a_failure() {
    let broken = PixelImage { width: 3, height: 3, rgb: vec![0; 5] };
    let r = outcome_of_pipeline(Ok(vec![broken]));
    assert_eq!(
        r,
        JobResult::Failure { message: "the pipeline produced a malformed pixel buffer".to_string() }
    );
}

#[test]
fn zero_sized_candidate_cannot_be_encoded() {
    let empty = PixelImage { width: 0, height: 0, rgb: vec![] };
    let r = outcome_of_pipeline(Ok(vec![empty]));
    assert_eq!(
        r,
        JobResult::Failure { message: "the image could not be encoded".to_string() }
    );
}

#[test]
fn first_candidate_wins_and_encodes_exactly() {
    let first = two_by_two();
    let second = PixelImage { width: 1, height: 1, rgb: vec![9, 9, 9] };
    let r = outcome_of_pipeline(Ok(vec![first.clone(), second]));
    let direct = encode_png(&first).unwrap();
    assert_eq!(r, JobResult::Success { png_bytes: direct });
}
