use lqip::encode::{encode_placeholder, generate_placeholder};
use lqip::error::PipelineError;
use lqip::raster::DecodedImage;
use lqip::resize::{resize_to_fit, target_dimensions, MAX_DIMENSION};

fn gradient(width: u32, height: u32) -> image::RgbaImage {
    image::RgbaImage::from_fn(width, height, |x, y| {
        image::Rgba([(x % 251) as u8, (y % 241) as u8, ((x + y) % 239) as u8, 255])
    })
}

fn solid(width: u32, height: u32, rgba: [u8; 4]) -> DecodedImage {
    let mut pixels = Vec::new();
    for _ in 0..(width as usize * height as usize) {
        pixels.extend_from_slice(&rgba);
    }
    DecodedImage::new(width, height, pixels).unwrap()
}

#[test]
fn image_needs_matching_buffer() {
    assert!(DecodedImage::new(2, 3, vec![0; 24]).is_some());
    assert!(DecodedImage::new(2, 3, vec![0; 23]).is_none());
    assert!(DecodedImage::new(2, 3, vec![0; 25]).is_none());
    assert!(DecodedImage::new(2, 3, vec![0; 28]).is_none());
    assert!(DecodedImage::new(2, 3, Vec::new()).is_none());
}

#[test]
fn image_needs_positive_dimensions() {
    assert!(DecodedImage::new(0, 3, Vec::new()).is_none());
    assert!(DecodedImage::new(3, 0, Vec::new()).is_none());
    assert!(DecodedImage::new(0, 0, Vec::new()).is_none());
    assert!(DecodedImage::new(1, 1, vec![1, 2, 3, 4]).is_some());
}

#[test]
fn image_hands_back_its_parts() {
    let pixels: Vec<u8> = (0..24).collect();
    let img = DecodedImage::new(3, 2, pixels.clone()).unwrap();
    assert_eq!(img.width(), 3);
    assert_eq!(img.height(), 2);
    assert_eq!(img.pixels(), &pixels);
    assert_eq!(img.into_parts(), (3, 2, pixels));
}

#[test]
fn target_keeps_small_sizes() {
    assert_eq!(target_dimensions(1, 1, 100), (1, 1));
    assert_eq!(target_dimensions(100, 100, 100), (100, 100));
    assert_eq!(target_dimensions(100, 37, 100), (100, 37));
    assert_eq!(target_dimensions(50, 100, 100), (50, 100));
}

#[test]
fn target_scales_landscape() {
    assert_eq!(target_dimensions(800, 400, 100), (100, 50));
    assert_eq!(target_dimensions(300, 200, 100), (100, 66));
    assert_eq!(target_dimensions(101, 100, 100), (100, 99));
    assert_eq!(target_dimensions(1920, 1080, 100), (100, 56));
}

#[test]
fn target_scales_portrait() {
    assert_eq!(target_dimensions(400, 800, 100), (50, 100));
    assert_eq!(target_dimensions(200, 300, 100), (66, 100));
    assert_eq!(target_dimensions(100, 101, 100), (99, 100));
    assert_eq!(target_dimensions(1, 101, 100), (1, 100));
}

#[test]
fn target_scales_square() {
    assert_eq!(target_dimensions(101, 101, 100), (100, 100));
    assert_eq!(target_dimensions(4000, 4000, 100), (100, 100));
}

#[test]
fn target_never_drops_below_one_pixel() {
    assert_eq!(target_dimensions(1000, 3, 100), (100, 1));
    assert_eq!(target_dimensions(101, 1, 100), (100, 1));
    assert_eq!(target_dimensions(3, 1000, 100), (1, 100));
    assert_eq!(target_dimensions(u32::MAX, 1, 100), (100, 1));
}

#[test]
fn target_with_extreme_sizes() {
    assert_eq!(target_dimensions(u32::MAX, u32::MAX, 100), (100, 100));
    assert_eq!(target_dimensions(u32::MAX, u32::MAX, u32::MAX), (u32::MAX, u32::MAX));
    assert_eq!(target_dimensions(u32::MAX, u32::MAX - 1, u32::MAX - 1), (u32::MAX - 1, u32::MAX - 2));
    assert_eq!(target_dimensions(7, 5, 1), (1, 1));
}

#[test]
fn target_hits_the_bound_and_keeps_the_ratio() {
    for (w, h) in [(800u64, 400u64), (300, 200), (101, 100), (1000, 3), (123, 4567), (640, 480)] {
        let (ow, oh) = target_dimensions(w as u32, h as u32, 100);
        let (ow, oh) = (ow as u64, oh as u64);
        assert_eq!(ow.max(oh), 100);
        assert!(ow >= 1 && oh >= 1);
        assert!((ow * h).abs_diff(oh * w) < w.max(h));
    }
}

#[test]
fn resize_keeps_small_images() {
    let pixels: Vec<u8> = (0..(100 * 60 * 4)).map(|i| (i % 256) as u8).collect();
    let img = DecodedImage::new(100, 60, pixels.clone()).unwrap();
    let out = resize_to_fit(img, MAX_DIMENSION);
    assert_eq!(out.width(), 100);
    assert_eq!(out.height(), 60);
    assert_eq!(out.pixels(), &pixels);
}

#[test]
fn resize_bounds_large_images() {
    let out = resize_to_fit(solid(800, 400, [10, 20, 30, 255]), MAX_DIMENSION);
    assert_eq!((out.width(), out.height()), (100, 50));
    assert_eq!(out.pixels().len(), 100 * 50 * 4);
    assert!(out.pixels().chunks(4).all(|p| p == [10, 20, 30, 255]));

    let out = resize_to_fit(solid(300, 200, [1, 2, 3, 4]), MAX_DIMENSION);
    assert_eq!((out.width(), out.height()), (100, 66));
    assert!(out.pixels().chunks(4).all(|p| p == [1, 2, 3, 4]));

    let out = resize_to_fit(solid(150, 150, [7, 7, 7, 7]), MAX_DIMENSION);
    assert_eq!((out.width(), out.height()), (100, 100));
}

#[test]
fn resize_picks_source_pixels() {
    let src = gradient(400, 200);
    let img = DecodedImage::new(400, 200, src.clone().into_raw()).unwrap();
    let out = resize_to_fit(img, MAX_DIMENSION);
    assert_eq!((out.width(), out.height()), (100, 50));
    let expected =
        image::imageops::resize(&src, 100, 50, image::imageops::FilterType::Nearest).into_raw();
    assert_eq!(out.pixels(), &expected);
    let first = &out.pixels()[0..4];
    assert!(src.pixels().any(|p| p.0 == first));
}

#[test]
fn resize_with_other_bounds() {
    let out = resize_to_fit(solid(8, 4, [5, 5, 5, 5]), 2);
    assert_eq!((out.width(), out.height()), (2, 1));
    let out = resize_to_fit(solid(3, 9, [5, 5, 5, 5]), 1);
    assert_eq!((out.width(), out.height()), (1, 1));
    assert_eq!(out.pixels(), &vec![5, 5, 5, 5]);
}

#[test]
fn encoding_matches_thumbhash() {
    let src = gradient(40, 30);
    let img = DecodedImage::new(40, 30, src.clone().into_raw()).unwrap();
    let hash = encode_placeholder(&img).unwrap();
    assert_eq!(hash, thumbhash::rgba_to_thumb_hash(40, 30, src.as_raw()));
    assert!(hash.len() >= 5 && hash.len() <= 25);
    assert_ne!(&hash, src.as_raw());
}

#[test]
fn encoding_is_deterministic() {
    let a = DecodedImage::new(64, 48, gradient(64, 48).into_raw()).unwrap();
    let b = DecodedImage::new(64, 48, gradient(64, 48).into_raw()).unwrap();
    let first = encode_placeholder(&a).unwrap();
    assert_eq!(encode_placeholder(&a).unwrap(), first);
    assert_eq!(encode_placeholder(&b).unwrap(), first);
}

#[test]
fn encoding_depends_on_pixels() {
    let dark = encode_placeholder(&solid(10, 10, [0, 0, 0, 255])).unwrap();
    let light = encode_placeholder(&solid(10, 10, [255, 255, 255, 255])).unwrap();
    assert_ne!(dark, light);
}

#[test]
fn encoding_accepts_the_bound() {
    assert!(encode_placeholder(&solid(100, 100, [1, 2, 3, 255])).is_ok());
    assert!(encode_placeholder(&solid(1, 1, [1, 2, 3, 255])).is_ok());
}

#[test]
fn encoding_rejects_oversized_images() {
    assert_eq!(
        encode_placeholder(&solid(101, 1, [0, 0, 0, 255])),
        Err(PipelineError::EncodingError)
    );
    assert_eq!(
        encode_placeholder(&solid(1, 101, [0, 0, 0, 255])),
        Err(PipelineError::EncodingError)
    );
}

#[test]
fn placeholder_of_large_image() {
    let src = gradient(800, 400);
    let img = DecodedImage::new(800, 400, src.clone().into_raw()).unwrap();
    let hash = generate_placeholder(img);

    let small = image::imageops::resize(&src, 100, 50, image::imageops::FilterType::Nearest);
    assert_eq!(hash, thumbhash::rgba_to_thumb_hash(100, 50, small.as_raw()));

    let again = DecodedImage::new(800, 400, src.into_raw()).unwrap();
    assert_eq!(generate_placeholder(again), hash);
}

#[test]
fn placeholder_of_small_image() {
    let src = gradient(20, 10);
    let img = DecodedImage::new(20, 10, src.clone().into_raw()).unwrap();
    assert_eq!(generate_placeholder(img), thumbhash::rgba_to_thumb_hash(20, 10, src.as_raw()));
}

#[test]
fn placeholder_of_square_image() {
    let src = gradient(200, 200);
    let img = DecodedImage::new(200, 200, src.clone().into_raw()).unwrap();
    let small = image::imageops::resize(&src, 100, 100, image::imageops::FilterType::Nearest);
    assert_eq!(generate_placeholder(img), thumbhash::rgba_to_thumb_hash(100, 100, small.as_raw()));
}

#[test]
fn placeholder_of_thin_image() {
    let src = gradient(1000, 3);
    let img = DecodedImage::new(1000, 3, src.clone().into_raw()).unwrap();
    let small = image::imageops::resize(&src, 100, 1, image::imageops::FilterType::Nearest);
    assert_eq!(generate_placeholder(img), thumbhash::rgba_to_thumb_hash(100, 1, small.as_raw()));
}

#[test]
fn placeholder_agrees_with_resize_then_encode() {
    let pixels = gradient(321, 123).into_raw();
    let direct = generate_placeholder(DecodedImage::new(321, 123, pixels.clone()).unwrap());
    let small = resize_to_fit(DecodedImage::new(321, 123, pixels).unwrap(), MAX_DIMENSION);
    assert_eq!((small.width(), small.height()), (100, 38));
    assert_eq!(Ok(direct), encode_placeholder(&small));
}
