use image_combiner::{alternate_pixels, set_rgba};

fn bytes(start: u8, n: usize) -> Vec<u8> {
    (0..n).map(|k| start + k as u8).collect()
}

#[test]
fn set_rgba_copies_inclusive_range() {
    let v = bytes(10, 12);
    assert_eq!(set_rgba(&v, 4, 7), vec![14, 15, 16, 17]);
    assert_eq!(set_rgba(&v, 0, 0), vec![10]);
}

#[test]
fn interleave_takes_even_pixels_from_first() {
    let a = bytes(1, 16);
    let b = bytes(101, 16);
    let r = alternate_pixels(a, b);
    assert_eq!(
        r,
        vec![1, 2, 3, 4, 105, 106, 107, 108, 9, 10, 11, 12, 113, 114, 115, 116]
    );
}

#[test]
fn interleave_keeps_length_and_pixel_parity() {
    let a = bytes(0, 40);
    let b = bytes(200, 40);
    let r = alternate_pixels(a.clone(), b.clone());
    assert_eq!(r.len(), a.len());
    assert_eq!(r[0..4], a[0..4]);
    for k in 1..10 {
        let range = 4 * k..4 * k + 4;
        if k % 2 == 0 {
            assert_eq!(r[range.clone()], a[range]);
        } else {
            assert_eq!(r[range.clone()], b[range]);
        }
    }
}

#[test]
fn interleave_single_pixel_is_first() {
    assert_eq!(alternate_pixels(vec![1, 2, 3, 4], vec![5, 6, 7, 8]), vec![1, 2, 3, 4]);
}

#[test]
fn interleave_empty() {
    assert_eq!(alternate_pixels(Vec::new(), Vec::new()), Vec::<u8>::new());
}

#[test]
fn interleave_is_not_symmetric() {
    let a = bytes(0, 16);
    let b = bytes(50, 16);
    let ab = alternate_pixels(a.clone(), b.clone());
    let ba = alternate_pixels(b, a);
    assert_ne!(ab, ba);
}

#[test]
fn interleave_swap_differs_on_one_odd_pixel_byte() {
    let a = vec![7u8; 16];
    let mut b = a.clone();
    b[5] = 8;
    assert_ne!(alternate_pixels(a.clone(), b.clone()), alternate_pixels(b, a));
}

#[test]
fn set_rgba_empty_range() {
    let v = bytes(10, 4);
    assert_eq!(set_rgba(&v, 3, 2), Vec::<u8>::new());
}
