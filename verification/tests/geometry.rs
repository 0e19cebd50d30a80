use charge_arena::geometry::{overlap, overlaps, Body, Side, Vec2};

fn body(x: i32, y: i32, hx: i32, hy: i32) -> Body {
    Body { center: Vec2 { x, y }, half: Vec2 { x: hx, y: hy } }
}

fn mirrored(hit: Option<Side>) -> Option<Side> {
    hit.map(|s| s.mirror())
}

#[test]
fn body_new_accepts_positive_extent() {
    let b = Body::new(Vec2 { x: 3, y: -4 }, Vec2 { x: 1, y: 2 });
    assert_eq!(b, Some(body(3, -4, 1, 2)));
}

#[test]
fn body_new_rejects_empty_or_negative_extent() {
    assert_eq!(Body::new(Vec2 { x: 0, y: 0 }, Vec2 { x: 0, y: 5 }), None);
    assert_eq!(Body::new(Vec2 { x: 0, y: 0 }, Vec2 { x: 5, y: 0 }), None);
    assert_eq!(Body::new(Vec2 { x: 0, y: 0 }, Vec2 { x: -1, y: 5 }), None);
    assert_eq!(Body::new(Vec2 { x: 0, y: 0 }, Vec2 { x: 5, y: -1 }), None);
}

#[test]
fn body_edges_are_centre_plus_or_minus_half() {
    let b = body(10, -20, 3, 4);
    assert_eq!(b.left(), 7);
    assert_eq!(b.right(), 13);
    assert_eq!(b.bottom(), -24);
    assert_eq!(b.top(), -16);
}

#[test]
fn body_edges_do_not_overflow_at_the_limits() {
    let b = body(i32::MAX, i32::MIN, i32::MAX, i32::MAX);
    assert_eq!(b.right(), 2 * (i32::MAX as i64));
    assert_eq!(b.bottom(), i32::MIN as i64 - i32::MAX as i64);
}

#[test]
fn encloses_allows_touching_borders() {
    let outer = body(0, 0, 10, 10);
    assert!(outer.encloses(&body(5, 5, 5, 5)));
    assert!(outer.encloses(&outer));
    assert!(!outer.encloses(&body(6, 5, 5, 5)));
    assert!(!outer.encloses(&body(0, -6, 5, 5)));
}

#[test]
fn side_mirror_swaps_opposites() {
    assert_eq!(Side::Left.mirror(), Side::Right);
    assert_eq!(Side::Right.mirror(), Side::Left);
    assert_eq!(Side::Top.mirror(), Side::Bottom);
    assert_eq!(Side::Bottom.mirror(), Side::Top);
}

#[test]
fn overlap_names_the_side_entered() {
    let b = body(0, 0, 10, 10);
    assert_eq!(overlap(&body(-15, 0, 10, 10), &b), Some(Side::Left));
    assert_eq!(overlap(&body(15, 0, 10, 10), &b), Some(Side::Right));
    assert_eq!(overlap(&body(0, 15, 10, 10), &b), Some(Side::Top));
    assert_eq!(overlap(&body(0, -15, 10, 10), &b), Some(Side::Bottom));
}

#[test]
fn overlap_is_none_for_bodies_apart() {
    let b = body(0, 0, 10, 10);
    assert_eq!(overlap(&body(30, 0, 10, 10), &b), None);
    assert_eq!(overlap(&body(0, -30, 10, 10), &b), None);
    assert_eq!(overlap(&body(30, 30, 10, 10), &b), None);
}

#[test]
fn overlap_is_none_for_bodies_that_only_touch() {
    let b = body(0, 0, 10, 10);
    assert_eq!(overlap(&body(20, 0, 10, 10), &b), None);
    assert_eq!(overlap(&body(-20, 0, 10, 10), &b), None);
    assert_eq!(overlap(&body(0, 20, 10, 10), &b), None);
    assert_eq!(overlap(&body(20, 20, 10, 10), &b), None);
    assert_eq!(overlap(&body(19, 0, 10, 10), &b), Some(Side::Right));
}

#[test]
fn overlap_picks_the_shallower_axis() {
    let b = body(0, 0, 10, 10);
    // 2 deep along x, 5 deep along y
    assert_eq!(overlap(&body(18, 15, 10, 10), &b), Some(Side::Right));
    // 5 deep along x, 2 deep along y
    assert_eq!(overlap(&body(15, 18, 10, 10), &b), Some(Side::Top));
    assert_eq!(overlap(&body(-15, -18, 10, 10), &b), Some(Side::Bottom));
}

#[test]
fn overlap_prefers_horizontal_on_equal_depth() {
    let b = body(0, 0, 10, 10);
    assert_eq!(overlap(&body(15, 15, 10, 10), &b), Some(Side::Right));
    assert_eq!(overlap(&body(-15, 15, 10, 10), &b), Some(Side::Left));
    assert_eq!(overlap(&body(-15, -15, 10, 10), &b), Some(Side::Left));
    assert_eq!(overlap(&body(15, -15, 10, 10), &b), Some(Side::Right));
}

#[test]
fn overlap_detects_a_body_inside_another() {
    let big = body(0, 0, 100, 100);
    let small = body(40, 10, 5, 5);
    // nearest side of `big` is its right one, 65 away
    assert_eq!(overlap(&small, &big), Some(Side::Right));
    assert_eq!(overlap(&big, &small), Some(Side::Left));
    assert!(overlaps(&small, &big));
    assert!(overlaps(&big, &small));
}

#[test]
fn overlap_of_identical_bodies_reports_left_both_ways() {
    let a = body(7, 7, 3, 3);
    assert_eq!(overlap(&a, &a), Some(Side::Left));
    assert_eq!(overlap(&body(0, 0, 10, 4), &body(0, 0, 10, 4)), Some(Side::Bottom));
}

#[test]
fn overlap_mirrors_unless_centres_are_level_on_the_contact_axis() {
    let a = body(0, 0, 10, 10);
    let b = body(0, 30, 40, 40);
    // a is 20 deep from below, 60 from above, 50 from either side
    assert_eq!(overlap(&a, &b), Some(Side::Bottom));
    assert_eq!(overlap(&b, &a), Some(Side::Top));
    let c = body(0, 0, 4, 40);
    // least depth is along x, where the centres are level
    assert_eq!(overlap(&a, &c), Some(Side::Left));
    assert_eq!(overlap(&c, &a), Some(Side::Left));
}

#[test]
fn overlap_detection_is_symmetric_and_sides_mirror() {
    let sizes = [(1, 1), (3, 2), (2, 5), (6, 6)];
    let mut pairs = 0;
    let mut mirrored_pairs = 0;
    for &(ahx, ahy) in sizes.iter() {
        for &(bhx, bhy) in sizes.iter() {
            for dx in -9..=9 {
                for dy in -9..=9 {
                    let a = body(dx, dy, ahx, ahy);
                    let b = body(0, 0, bhx, bhy);
                    let ab = overlap(&a, &b);
                    let ba = overlap(&b, &a);
                    assert_eq!(ab.is_some(), ba.is_some());
                    assert_eq!(overlaps(&a, &b), ab.is_some());
                    pairs += 1;
                    let level = match ab {
                        Some(Side::Left) | Some(Side::Right) => dx == 0,
                        Some(Side::Top) | Some(Side::Bottom) => dy == 0,
                        None => false,
                    };
                    if level {
                        assert_eq!(ba, ab);
                    } else {
                        assert_eq!(ba, mirrored(ab));
                        mirrored_pairs += 1;
                    }
                }
            }
        }
    }
    assert_eq!(pairs, 16 * 19 * 19);
    assert!(mirrored_pairs > 0);
}

#[test]
fn overlap_reports_a_side_of_least_depth() {
    let b = body(0, 0, 7, 4);
    for dx in -12..=12 {
        for dy in -12..=12 {
            let a = body(dx, dy, 3, 5);
            let depths = [
                (Side::Left, a.right() - b.left()),
                (Side::Right, b.right() - a.left()),
                (Side::Bottom, a.top() - b.bottom()),
                (Side::Top, b.top() - a.bottom()),
            ];
            let least = depths.iter().map(|d| d.1).min().unwrap();
            match overlap(&a, &b) {
                None => assert!(least <= 0),
                Some(side) => {
                    assert!(least > 0);
                    let own = depths.iter().find(|d| d.0 == side).unwrap().1;
                    assert_eq!(own, least);
                }
            }
        }
    }
}
