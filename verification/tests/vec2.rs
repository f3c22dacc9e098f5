use toon::Vec2;

#[test]
fn vec_test() {
    let mut vec: Vec2<u16> = Vec2::new(5, 6);
    assert_eq!(vec.sum(), 11);
    assert_eq!(vec.product(), 30);

    assert_eq!(vec.swap(), Vec2::new(6, 5));
    vec.swapped();
    assert_eq!(vec, Vec2::new(6, 5));

    let mut other: Vec2<u16> = Vec2::new(2, 7);

    assert_eq!(vec.min(other), Vec2::new(2, 5));
    assert_eq!(vec.max(other), Vec2::new(6, 7));
    assert_eq!(vec.min_max(other), (vec.min(other), vec.max(other)));

    assert_eq!(vec + other, Vec2::new(8, 12));
    other += vec;
    assert_eq!(other, Vec2::new(8, 12));
}

#[test]
fn swap_twice_is_identity() {
    let vec: Vec2<u16> = Vec2::new(3, 9);
    assert_eq!(vec.swap().swap(), vec);
    let mut in_place = vec;
    in_place.swapped();
    in_place.swapped();
    assert_eq!(in_place, vec);
}

#[test]
fn sums_and_products_saturate() {
    let vec: Vec2<u16> = Vec2::new(65535, 1);
    assert_eq!(vec.sum(), 65535);
    let big: Vec2<u16> = Vec2::new(300, 300);
    assert_eq!(big.product(), 65535);
    assert_eq!(Vec2::new(256u16, 255u16).product(), 65280);
    assert_eq!(vec + Vec2::new(1, 65535), Vec2::new(65535, 65535));
    assert_eq!(Vec2::new(1u16, 5u16) - Vec2::new(2, 3), Vec2::new(0, 2));
    assert_eq!(Vec2::new(1u16, 5u16).saturating_sub(Vec2::new(2, 3)), Vec2::new(0, 2));
}

#[test]
fn map_and_into_convert_both_components() {
    let vec: Vec2<u8> = Vec2::new(3, 4);
    let doubled: Vec2<u16> = vec.map(|v| u16::from(v) * 2);
    assert_eq!(doubled, Vec2::new(6, 8));
    let wide: Vec2<u32> = vec.into();
    assert_eq!(wide, Vec2::new(3u32, 4u32));
    let from_pair: Vec2<u16> = Vec2::from((7, 8));
    assert_eq!(from_pair, Vec2::new(7, 8));
}
