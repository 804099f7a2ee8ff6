use rectangles::rect::{area, Rect};

#[test]
fn area_of_thirty_by_fifty() {
    let rect = Rect { width: 30, height: 50 };
    assert_eq!(area(&rect), 1500);
}

#[test]
fn area_is_the_product_of_the_sides() {
    let sides: Vec<(u32, u32, u32)> = vec![
        (1, 1, 1),
        (1, 7, 7),
        (7, 1, 7),
        (3, 4, 12),
        (12, 12, 144),
        (1000, 1000, 1_000_000),
        (65535, 65535, 4_294_836_225),
        (2, 2_147_483_647, 4_294_967_294),
        (1, 4_294_967_295, 4_294_967_295),
    ];
    for (width, height, product) in sides {
        assert_eq!(area(&Rect { width, height }), product);
    }
}

#[test]
fn area_does_not_depend_on_orientation() {
    let sides: Vec<(u32, u32)> =
        vec![(30, 50), (0, 9), (1, 4_294_967_295), (65536, 65535), (65536, 65536), (3, 2_000_000_000)];
    for (width, height) in sides {
        let upright = Rect { width, height };
        let turned = Rect { width: height, height: width };
        assert_eq!(area(&upright), area(&turned));
    }
}

#[test]
fn area_with_a_zero_side_is_zero() {
    let others: Vec<u32> = vec![0, 1, 50, 65536, 4_294_967_295];
    for other in others {
        assert_eq!(area(&Rect { width: 0, height: other }), 0);
        assert_eq!(area(&Rect { width: other, height: 0 }), 0);
    }
}

#[test]
fn area_leaves_the_rectangle_with_its_caller() {
    let rect = Rect { width: 30, height: 50 };
    let first = area(&rect);
    assert_eq!(rect.width, 30);
    assert_eq!(rect.height, 50);
    assert_eq!(rect, Rect { width: 30, height: 50 });
    let second = area(&rect);
    assert_eq!(first, second);
}

#[test]
fn area_at_the_largest_product_that_fits() {
    // 65535 * 65537 is exactly 2^32 - 1.
    assert_eq!(area(&Rect { width: 65535, height: 65537 }), 4_294_967_295);
    assert_eq!(area(&Rect { width: 65535, height: 65537 }), u32::MAX);
}

#[test]
fn area_saturates_where_the_product_does_not_fit() {
    assert_eq!(area(&Rect { width: 65536, height: 65536 }), u32::MAX);
    assert_eq!(area(&Rect { width: 2, height: 2_147_483_648 }), u32::MAX);
    assert_eq!(area(&Rect { width: 4_294_967_295, height: 2 }), u32::MAX);
    assert_eq!(area(&Rect { width: 4_294_967_295, height: 4_294_967_295 }), u32::MAX);
}
