use webp_batch::buffer::PixelBuffer;
use webp_batch::config::{Config, FitMode};
use webp_batch::error::ConvertError;
use webp_batch::geometry::{decide, resize_to_fit, Transform};

fn config(width: u32, height: u32, contain: bool) -> Config {
    Config::new(vec!["in".to_string()], vec!["out".to_string()], width, height, contain, false)
        .unwrap()
}

fn gradient(width: u32, height: u32) -> PixelBuffer {
    let mut samples = Vec::new();
    for y in 0..height {
        for x in 0..width {
            samples.push((x * 255 / width.max(1)) as u8);
            samples.push((y * 255 / height.max(1)) as u8);
            samples.push(((x + y) % 256) as u8);
            samples.push(255);
        }
    }
    PixelBuffer::new(width, height, samples).unwrap()
}

fn by_the_image_crate(image: &PixelBuffer, width: u32, height: u32, contain: bool) -> PixelBuffer {
    let source =
        image::RgbaImage::from_raw(image.width, image.height, image.samples.clone()).unwrap();
    let source = image::DynamicImage::ImageRgba8(source);
    let filter = image::imageops::FilterType::Lanczos3;
    let resized = if contain {
        source.resize(width, height, filter)
    } else {
        source.resize_exact(width, height, filter)
    }
    .into_rgba8();
    PixelBuffer { width: resized.width(), height: resized.height(), samples: resized.into_raw() }
}

#[test]
fn exact_mode_resizes_whatever_differs() {
    let c = config(430, 600, false);
    assert_eq!(decide(800, 600, &c), Transform::Stretch);
    assert_eq!(decide(430, 601, &c), Transform::Stretch);
    assert_eq!(decide(429, 600, &c), Transform::Stretch);
    assert_eq!(decide(200, 200, &c), Transform::Stretch);
    assert_eq!(decide(1, 1, &c), Transform::Stretch);
    assert_eq!(decide(430, 600, &c), Transform::Keep);
}

#[test]
fn contain_mode_shrinks_only_what_exceeds_the_box() {
    let c = config(430, 600, true);
    assert_eq!(decide(800, 600, &c), Transform::Shrink);
    assert_eq!(decide(431, 1, &c), Transform::Shrink);
    assert_eq!(decide(1, 601, &c), Transform::Shrink);
    assert_eq!(decide(5000, 5000, &c), Transform::Shrink);
    assert_eq!(decide(430, 600, &c), Transform::Keep);
    assert_eq!(decide(200, 200, &c), Transform::Keep);
    assert_eq!(decide(1, 1, &c), Transform::Keep);
}

#[test]
fn exact_fit_gives_exactly_the_target_size() {
    let out = resize_to_fit(gradient(80, 60), &config(43, 60, false)).unwrap();
    assert_eq!((out.width, out.height), (43, 60));
    assert_eq!(out.samples.len(), 4 * 43 * 60);
    assert!(out.is_well_formed());
}

#[test]
fn exact_fit_enlarges_too() {
    let out = resize_to_fit(gradient(3, 2), &config(7, 9, false)).unwrap();
    assert_eq!((out.width, out.height), (7, 9));
    assert_eq!(out.samples.len(), 4 * 7 * 9);
}

#[test]
fn exact_fit_ignores_the_shape() {
    let out = resize_to_fit(gradient(100, 10), &config(10, 100, false)).unwrap();
    assert_eq!((out.width, out.height), (10, 100));
}

#[test]
fn exact_fit_leaves_a_matching_image_alone() {
    let source = gradient(43, 60);
    let samples = source.samples.clone();
    let out = resize_to_fit(source, &config(43, 60, false)).unwrap();
    assert_eq!((out.width, out.height), (43, 60));
    assert_eq!(out.samples, samples);
}

#[test]
fn exact_fit_resamples_as_the_image_crate_does() {
    let source = gradient(40, 30);
    let expected = by_the_image_crate(&source, 17, 23, false);
    let out = resize_to_fit(source, &config(17, 23, false)).unwrap();
    assert_eq!((out.width, out.height), (expected.width, expected.height));
    assert_eq!(out.samples, expected.samples);
}

#[test]
fn exact_fit_of_one_colour_keeps_the_colour() {
    let source = PixelBuffer::new(4, 4, [10u8, 200, 30, 255].repeat(16)).unwrap();
    let out = resize_to_fit(source, &config(2, 3, false)).unwrap();
    assert_eq!(out.samples, [10u8, 200, 30, 255].repeat(6));
}

#[test]
fn contain_fit_halves_a_double_sized_image() {
    let out = resize_to_fit(gradient(800, 600), &config(400, 400, true)).unwrap();
    assert_eq!((out.width, out.height), (400, 300));
    assert_eq!(out.samples.len(), 4 * 400 * 300);
}

#[test]
fn contain_fit_is_bound_by_the_tighter_side() {
    let out = resize_to_fit(gradient(1000, 500), &config(430, 600, true)).unwrap();
    assert_eq!((out.width, out.height), (430, 215));
    let out = resize_to_fit(gradient(100, 400), &config(100, 100, true)).unwrap();
    assert_eq!((out.width, out.height), (25, 100));
    let out = resize_to_fit(gradient(300, 90), &config(100, 100, true)).unwrap();
    assert_eq!((out.width, out.height), (100, 30));
}

#[test]
fn contain_fit_has_one_side_of_the_box() {
    let out = resize_to_fit(gradient(860, 600), &config(430, 600, true)).unwrap();
    assert_eq!((out.width, out.height), (430, 300));
    let out = resize_to_fit(gradient(90, 700), &config(430, 600, true)).unwrap();
    assert_eq!((out.width, out.height), (77, 600));
}

#[test]
fn contain_fit_never_gives_an_empty_side() {
    let out = resize_to_fit(gradient(1000, 1), &config(10, 10, true)).unwrap();
    assert_eq!((out.width, out.height), (10, 1));
    let out = resize_to_fit(gradient(2, 900), &config(30, 30, true)).unwrap();
    assert_eq!((out.width, out.height), (1, 30));
}

#[test]
fn contain_fit_leaves_an_image_within_the_box_alone() {
    for (width, height) in [(43, 60), (20, 20), (1, 60), (43, 1), (1, 1)] {
        let source = gradient(width, height);
        let samples = source.samples.clone();
        let out = resize_to_fit(source, &config(43, 60, true)).unwrap();
        assert_eq!((out.width, out.height), (width, height));
        assert_eq!(out.samples, samples);
    }
}

#[test]
fn contain_fit_stays_within_box_and_source_and_keeps_the_shape() {
    let sizes = [(80, 60), (61, 7), (7, 61), (100, 99), (45, 45), (44, 1), (2, 200), (97, 13)];
    let boxes = [(43, 60), (10, 10), (1, 1), (50, 3), (3, 50), (60, 43)];
    for (width, height) in sizes {
        for (max_width, max_height) in boxes {
            if width <= max_width && height <= max_height {
                continue;
            }
            let out = resize_to_fit(gradient(width, height), &config(max_width, max_height, true))
                .unwrap();
            assert!(out.is_well_formed());
            assert!(out.width <= max_width && out.height <= max_height);
            assert!(out.width <= width && out.height <= height);
            let skew = (out.width as i64 * height as i64 - out.height as i64 * width as i64).abs();
            assert!(skew <= (width + height) as i64);
            // one side is the box's own
            assert!(out.width == max_width || out.height == max_height);
        }
    }
}

#[test]
fn contain_fit_resamples_as_the_image_crate_does() {
    let source = gradient(64, 48);
    let expected = by_the_image_crate(&source, 20, 40, true);
    let out = resize_to_fit(source, &config(20, 40, true)).unwrap();
    assert_eq!((out.width, out.height), (20, 15));
    assert_eq!((out.width, out.height), (expected.width, expected.height));
    assert_eq!(out.samples, expected.samples);
}

#[test]
fn resize_is_the_same_every_time() {
    let first = resize_to_fit(gradient(31, 17), &config(12, 40, false)).unwrap();
    let second = resize_to_fit(gradient(31, 17), &config(12, 40, false)).unwrap();
    assert_eq!(first.samples, second.samples);
}

#[test]
fn the_only_failure_is_a_resample_that_cannot_be_held() {
    // 16 * 1 * 4294967295 fits a 64-bit machine, 4 * 4294967295 * 4294967295 does not.
    let huge = config(u32::MAX, u32::MAX, false);
    let result = resize_to_fit(gradient(1, 1), &huge);
    assert!(matches!(result, Err(ConvertError::Resize)));
    assert_eq!(huge.fit, FitMode::Exact);
}
