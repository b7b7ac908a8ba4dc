use app_icon_resolver::codec::base64_round_trip;
use app_icon_resolver::codec::encoded_icon_round_trip;
use app_icon_resolver::codec::bitmap_from_encoded;
use app_icon_resolver::codec::bitmap_from_png;
use app_icon_resolver::codec::bitmap_to_png;
use app_icon_resolver::codec::bytes_from_base64;
use app_icon_resolver::codec::bytes_to_base64;
use app_icon_resolver::codec::encoded_icon_of;
use app_icon_resolver::codec::png_round_trip;
use app_icon_resolver::codec::IconBitmap;
use app_icon_resolver::errors::IconError;

fn sample_bitmap() -> IconBitmap {
    let mut data = Vec::new();
    for i in 0..16u8 {
        data.push(i.wrapping_mul(17));
    }
    IconBitmap { width: 2, height: 2, data }
}

#[test]
fn png_round_trip_preserves_the_bitmap() {
    let bm = sample_bitmap();
    let out = png_round_trip(&bm).expect("encoding a small bitmap succeeds");
    assert_eq!(out.width, 2);
    assert_eq!(out.height, 2);
    assert_eq!(out.data, bm.data);
}

#[test]
fn png_bytes_are_a_real_encoding() {
    let bm = sample_bitmap();
    let bytes = bitmap_to_png(&bm).expect("encoding a small bitmap succeeds");
    assert_eq!(&bytes[..4], &[137u8, 80, 78, 71]);
    assert_ne!(bytes, bm.data);
    let back = bitmap_from_png(&bytes).expect("decoding produced bytes succeeds");
    assert_eq!(back.data, bm.data);
}

#[test]
fn encoded_payload_round_trip_preserves_the_bitmap() {
    let bm = sample_bitmap();
    let out = encoded_icon_round_trip(&bm).expect("the payload round trip is total");
    assert_eq!(out.width, bm.width);
    assert_eq!(out.height, bm.height);
    assert_eq!(out.data, bm.data);
}

#[test]
fn zero_dimension_bitmap_is_refused_by_the_encoder() {
    let bm = IconBitmap { width: 0, height: 0, data: vec![] };
    assert_eq!(bitmap_to_png(&bm), Err(IconError::ImageEncode));
}

#[test]
fn larger_bitmap_still_round_trips() {
    let side = 1024u32;
    let mut data = Vec::new();
    for i in 0..(4 * side as usize * side as usize) {
        data.push((i % 251) as u8);
    }
    let bm = IconBitmap { width: side, height: side, data };
    let out = png_round_trip(&bm).expect("encoding a square bitmap succeeds");
    assert_eq!(out.data, bm.data);
}

#[test]
fn base64_round_trip_preserves_bytes() {
    let bytes = vec![0u8, 1, 2, 254, 255, 77];
    assert_eq!(base64_round_trip(&bytes), bytes);
}

#[test]
fn base64_encoding_is_the_standard_alphabet() {
    assert_eq!(bytes_to_base64(&vec![104u8, 105]), "aGk=");
    assert_eq!(bytes_to_base64(&vec![]), "");
    assert_eq!(bytes_from_base64("aGk="), Ok(vec![104u8, 105]));
}

#[test]
fn invalid_base64_is_rejected() {
    assert_eq!(bytes_from_base64("not valid base64!"), Err(IconError::ImageDecode));
}

#[test]
fn invalid_png_bytes_are_rejected() {
    assert_eq!(bitmap_from_png(&vec![1u8, 2, 3]), Err(IconError::ImageDecode));
}

#[test]
fn encoded_icon_matches_the_two_stage_encoding() {
    let bm = sample_bitmap();
    let text = encoded_icon_of(&bm).expect("encoding a small bitmap succeeds");
    let bytes = bitmap_to_png(&bm).expect("encoding a small bitmap succeeds");
    assert_eq!(text, bytes_to_base64(&bytes));
    let back = bitmap_from_encoded(&text).expect("decoding the payload succeeds");
    assert_eq!(back.width, bm.width);
    assert_eq!(back.height, bm.height);
    assert_eq!(back.data, bm.data);
}
