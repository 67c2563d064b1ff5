use image::ImageFormat;
use image_combiner::{
    can_standardise, combine_images, get_smallest_image, merge_images, standardise_size,
    DecodedImage, ImageDataError,
};

fn image(width: u32, height: u32, fill: u8, format: ImageFormat) -> DecodedImage {
    DecodedImage { width, height, data: vec![fill; (width * height * 4) as usize], format }
}

fn numbered(width: u32, height: u32, start: u8, format: ImageFormat) -> DecodedImage {
    let n = (width * height * 4) as usize;
    DecodedImage {
        width,
        height,
        data: (0..n).map(|k| start.wrapping_add(k as u8)).collect(),
        format,
    }
}

#[test]
fn smallest_by_area() {
    assert_eq!(get_smallest_image((10, 10), (4, 4)), (4, 4));
    assert_eq!(get_smallest_image((3, 5), (4, 4)), (3, 5));
}

#[test]
fn smallest_tie_prefers_first() {
    assert_eq!(get_smallest_image((8, 2), (4, 4)), (8, 2));
    assert_eq!(get_smallest_image((4, 4), (8, 2)), (4, 4));
}

#[test]
fn smallest_large_dimensions_do_not_overflow() {
    assert_eq!(get_smallest_image((u32::MAX, u32::MAX), (1, 1)), (1, 1));
}

#[test]
fn standardise_shrinks_larger_second() {
    let a = numbered(4, 4, 0, ImageFormat::Png);
    let b = image(10, 10, 200, ImageFormat::Png);
    let a_data = a.data.clone();
    let (a2, b2) = standardise_size(a, b);
    assert_eq!((a2.width, a2.height), (4, 4));
    assert_eq!((b2.width, b2.height), (4, 4));
    assert_eq!(a2.data, a_data);
    assert_eq!(b2.data.len(), 64);
}

#[test]
fn standardise_shrinks_larger_first() {
    let a = image(10, 10, 90, ImageFormat::Png);
    let b = numbered(4, 4, 7, ImageFormat::Png);
    let b_data = b.data.clone();
    let (a2, b2) = standardise_size(a, b);
    assert_eq!((a2.width, a2.height), (4, 4));
    assert_eq!((b2.width, b2.height), (4, 4));
    assert_eq!(a2.data.len(), 64);
    assert!(a2.data.iter().all(|&v| v.abs_diff(90) <= 1));
    assert_eq!(b2.data, b_data);
}

#[test]
fn standardise_tie_resizes_second_to_first_shape() {
    let a = image(8, 2, 1, ImageFormat::Png);
    let b = image(4, 4, 2, ImageFormat::Png);
    let (a2, b2) = standardise_size(a, b);
    assert_eq!((a2.width, a2.height), (8, 2));
    assert_eq!((b2.width, b2.height), (8, 2));
    assert_eq!(b2.data.len(), 64);
}

#[test]
fn standardise_equal_sizes_keeps_both() {
    let a = numbered(3, 3, 0, ImageFormat::Png);
    let b = numbered(3, 3, 100, ImageFormat::Png);
    let (ad, bd) = (a.data.clone(), b.data.clone());
    let (a2, b2) = standardise_size(a, b);
    assert_eq!(a2.data, ad);
    assert_eq!(b2.data, bd);
}

#[test]
fn can_standardise_ordinary_images() {
    let a = image(10, 10, 0, ImageFormat::Png);
    let b = image(4, 4, 0, ImageFormat::Png);
    assert!(can_standardise(&a, &b));
}

#[test]
fn combine_same_size_images() {
    let a = image(2, 1, 1, ImageFormat::Png);
    let b = image(2, 1, 2, ImageFormat::Png);
    assert_eq!(combine_images(a, b), vec![1, 1, 1, 1, 2, 2, 2, 2]);
}

#[test]
fn merge_two_same_size_images() {
    let a = numbered(4, 4, 0, ImageFormat::Png);
    let b = numbered(4, 4, 128, ImageFormat::Png);
    let (ad, bd) = (a.data.clone(), b.data.clone());
    let out = merge_images(a, b, String::from("merged.png")).unwrap();
    assert_eq!((out.width, out.height), (4, 4));
    assert_eq!(out.name, "merged.png");
    assert_eq!(out.data.len(), 64);
    assert_eq!(out.data[0..4], ad[0..4]);
    assert_eq!(out.data[4..8], bd[4..8]);
    assert_eq!(out.data[8..12], ad[8..12]);
    for k in 0..16 {
        let range = 4 * k..4 * k + 4;
        let src = if k % 2 == 0 { &ad } else { &bd };
        assert_eq!(out.data[range.clone()], src[range]);
    }
}

#[test]
fn merge_downscales_larger_image() {
    let a = image(10, 10, 60, ImageFormat::Png);
    let b = numbered(4, 4, 0, ImageFormat::Png);
    let bd = b.data.clone();
    let out = merge_images(a, b, String::from("o.png")).unwrap();
    assert_eq!((out.width, out.height), (4, 4));
    assert_eq!(out.data.len(), 64);
    for k in 0..16 {
        let range = 4 * k..4 * k + 4;
        if k % 2 == 0 {
            assert!(out.data[range].iter().all(|&v| v.abs_diff(60) <= 1));
        } else {
            assert_eq!(out.data[range.clone()], bd[range]);
        }
    }
}

#[test]
fn merge_rejects_different_formats() {
    let a = image(4, 4, 0, ImageFormat::Png);
    let b = image(4, 4, 0, ImageFormat::Jpeg);
    let r = merge_images(a, b, String::from("o.png"));
    assert!(matches!(r, Err(ImageDataError::DifferentImageFormats)));
}
