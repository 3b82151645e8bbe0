use bevy_v4l::pixel::{decode, encode, rgb_to_yuv, yuv_to_rgb};

use ffimage::color::Rgb;
use ffimage::iter::{BytesExt, ColorConvertExt, PixelsExt};
use ffimage_yuv::yuv::Yuv;
use ffimage_yuv::yuv422::Yuv422;

const YUYV: [u8; 4] = [0x59, 0x55, 0x59, 0x56];
const OTHER: [u8; 4] = [0x49, 0x59, 0x55, 0x32]; // "IYU2"

#[test]
fn macropixel_decodes_to_reference_matrix() {
    // A 2x1 capture frame: one macropixel [Y0 U Y1 V], decoded with
    // max_dst_len = 8, yields two 4-channel pixels whose RGB channels are
    // the reference matrix applied to (Y0, U, V) and (Y1, U, V); the alpha
    // bytes keep their pre-filled value.
    let src = vec![100u8, 110, 150, 140];
    let mut dst = vec![255u8; 8];
    decode(&YUYV, &src, &mut dst, 8);
    assert_eq!(dst, vec![117, 95, 62, 255, 175, 153, 120, 255]);
}

#[test]
fn decode_two_macropixels() {
    let src = vec![100u8, 110, 150, 140, 60, 120, 70, 130];
    let mut dst = vec![9u8; 16];
    decode(&YUYV, &src, &mut dst, 16);
    assert_eq!(
        dst,
        vec![117, 95, 62, 9, 175, 153, 120, 9, 54, 53, 35, 9, 66, 64, 47, 9]
    );
}

#[test]
fn decode_stops_at_max_dst_len() {
    // With a write bound below the full decode length, nothing at or past
    // the bound is written.
    let src = vec![100u8, 110, 150, 140];
    let mut dst = vec![9u8; 8];
    decode(&YUYV, &src, &mut dst, 4);
    assert_eq!(dst, vec![117, 95, 62, 9, 9, 9, 9, 9]);

    let mut dst = vec![9u8; 8];
    decode(&YUYV, &src, &mut dst, 0);
    assert_eq!(dst, vec![9u8; 8]);
}

#[test]
fn decode_leaves_slack_destination_alone() {
    // The destination is roomier than the full decode: everything past the
    // decoded region keeps its bytes.
    let src = vec![100u8, 110, 150, 140];
    let mut dst = vec![9u8; 12];
    decode(&YUYV, &src, &mut dst, 12);
    assert_eq!(dst, vec![117, 95, 62, 9, 175, 153, 120, 9, 9, 9, 9, 9]);
}

#[test]
fn decode_drops_partial_macropixel() {
    // Three source bytes are less than one macropixel: nothing is decoded.
    let src = vec![100u8, 110, 150];
    let mut dst = vec![9u8; 8];
    decode(&YUYV, &src, &mut dst, 8);
    assert_eq!(dst, vec![9u8; 8]);
}

#[test]
fn decode_ignores_excess_source() {
    // The source holds more macropixels than the destination can take.
    let src = vec![100u8, 110, 150, 140, 60, 120, 70, 130];
    let mut dst = vec![9u8; 8];
    decode(&YUYV, &src, &mut dst, 8);
    assert_eq!(dst, vec![117, 95, 62, 9, 175, 153, 120, 9]);
}

#[test]
fn unsupported_format_is_a_noop() {
    let src = vec![100u8, 110, 150, 140];
    let mut dst = vec![9u8; 8];
    decode(&OTHER, &src, &mut dst, 8);
    assert_eq!(dst, vec![9u8; 8]);

    let rgba = vec![128u8; 16];
    let mut stream = vec![9u8; 8];
    let meta = encode(&OTHER, &rgba, &mut stream);
    assert!(meta.is_none());
    assert_eq!(stream, vec![9u8; 8]);
}

#[test]
fn midgray_output_frame_encodes_progressive() {
    // A 2x2 presentable image of solid mid-gray: the encoded stream buffer
    // reports bytesused of three quarters of the unpacked size and a
    // progressive field.
    let rgba = vec![
        128u8, 128, 128, 255, 128, 128, 128, 255, 128, 128, 128, 255, 128, 128, 128, 255,
    ];
    let mut stream = vec![0u8; 8];
    let meta = encode(&YUYV, &rgba, &mut stream).expect("supported format");
    assert_eq!(meta.field, 0);
    assert_eq!(meta.bytesused, 16 * 3 / 4);
    assert_eq!(stream, vec![126, 128, 126, 128, 126, 128, 126, 128]);
}

#[test]
fn encode_packs_shared_chroma_pairs() {
    // Two pixel pairs; the packed chroma pair is the blue-difference of the
    // first pixel and the red-difference of the second. Alpha is ignored.
    let rgba = vec![
        10u8, 20, 30, 7, 40, 50, 60, 7, 200, 210, 220, 7, 90, 80, 70, 7,
    ];
    let mut stream = vec![0u8; 8];
    let meta = encode(&YUYV, &rgba, &mut stream).expect("supported format");
    assert_eq!(stream, vec![32, 134, 57, 123, 195, 134, 86, 133]);
    assert_eq!(meta.bytesused, 12);
}

#[test]
fn encode_drops_partial_pixel_pair() {
    // Twelve source bytes hold one full pair plus a dangling pixel: only
    // the pair is packed, the rest of the stream buffer keeps its bytes.
    let rgba = vec![10u8, 20, 30, 7, 40, 50, 60, 7, 200, 210, 220, 7];
    let mut stream = vec![9u8; 6];
    let meta = encode(&YUYV, &rgba, &mut stream).expect("supported format");
    assert_eq!(stream, vec![32, 134, 57, 123, 9, 9]);
    assert_eq!(meta.bytesused, 9);
}

#[test]
fn round_trip_stays_within_one_step() {
    // An in-gamut luma-chroma sample survives decode followed by encode to
    // within one step per channel (here it comes back exactly).
    let (r, g, b) = yuv_to_rgb(100, 110, 140);
    assert_eq!((r, g, b), (117, 95, 62));
    assert_eq!(rgb_to_yuv(r, g, b), (100, 110, 140));

    for &(y, u, v) in &[(50u8, 120u8, 130u8), (200, 128, 128), (150, 100, 110), (27, 171, 120)] {
        let (r, g, b) = yuv_to_rgb(y, u, v);
        let (y2, u2, v2) = rgb_to_yuv(r, g, b);
        assert!((y2 as i32 - y as i32).abs() <= 1);
        assert!((u2 as i32 - u as i32).abs() <= 1);
        assert!((v2 as i32 - v as i32).abs() <= 1);
    }
}

#[test]
fn pixel_conversion_matches_ffimage() {
    // The per-sample conversions agree with the ffimage crates the
    // surrounding application uses, on a grid over the whole cube.
    let mut t = 0u32;
    while t < 256 * 3 {
        let y = (t % 256) as u8;
        let u = ((t / 2) % 256) as u8;
        let v = ((t / 3) % 256) as u8;
        let ours = yuv_to_rgb(y, u, v);
        let theirs: Rgb<u8> = Rgb::from(Yuv::<u8>([y, u, v]));
        assert_eq!([ours.0, ours.1, ours.2], theirs.0);

        let back = rgb_to_yuv(y, u, v);
        let theirs: Yuv<u8> = Yuv::from(Rgb::<u8>([y, u, v]));
        assert_eq!([back.0, back.1, back.2], theirs.0);
        t += 7;
    }
}

#[test]
fn buffer_decode_matches_ffimage_pipeline() {
    // The whole decode agrees with the iterator pipeline built from the
    // ffimage crates: expand macropixels, convert, write 3 channels per
    // 4-byte output pixel.
    let src: Vec<u8> = (0u16..64).map(|x| (x * 5 % 256) as u8).collect();
    let size = 2 * src.len();
    let mut expected = vec![255u8; size];
    let rgb = src
        .iter()
        .copied()
        .pixels::<Yuv422<u8, 0, 2, 1, 3>>()
        .colorconvert::<[Yuv<u8>; 2]>()
        .flatten()
        .colorconvert::<Rgb<u8>>()
        .bytes()
        .enumerate();
    for (i, pixel) in rgb {
        let i = i * 4;
        if i >= size {
            break;
        }
        expected[i..i + 3].clone_from_slice(&pixel);
    }

    let mut dst = vec![255u8; size];
    decode(&YUYV, &src, &mut dst, size);
    assert_eq!(dst, expected);
}

#[test]
fn buffer_encode_matches_ffimage_pipeline() {
    let rgba: Vec<u8> = (0u16..64).map(|x| (x * 11 % 256) as u8).collect();
    let mut expected = vec![0u8; rgba.len() / 2];
    rgba.chunks_exact(8)
        .map(|rgb| {
            [
                Yuv::<u8>::from(Rgb::<u8>(rgb[0..3].try_into().unwrap())),
                Yuv::<u8>::from(Rgb::<u8>(rgb[4..7].try_into().unwrap())),
            ]
        })
        .colorconvert::<Yuv422<u8, 0, 2, 1, 3>>()
        .bytes()
        .write(&mut expected.iter_mut());

    let mut stream = vec![0u8; rgba.len() / 2];
    encode(&YUYV, &rgba, &mut stream).expect("supported format");
    assert_eq!(stream, expected);
}
