use borderless::region::{
    border_from_metrics, titlebar_from_metrics, HitRegion, Point, Rect, Region,
};

fn window_rect() -> Rect {
    Rect { left: 0, top: 0, right: 800, bottom: 600 }
}

const BORDER: Point = Point { x: 8, y: 8 };

fn hit(x: i32, y: i32) -> HitRegion {
    Region::hit_test(Point { x, y }, window_rect(), BORDER, 30)
}

#[test]
fn caption_below_top_border() {
    assert_eq!(hit(400, 15), HitRegion::Caption);
}

#[test]
fn top_left_corner() {
    assert_eq!(hit(2, 2), HitRegion::TopLeft);
}

#[test]
fn right_edge() {
    assert_eq!(hit(795, 300), HitRegion::Right);
}

#[test]
fn interior_below_titlebar_is_client() {
    assert_eq!(hit(400, 30), HitRegion::Client);
    assert_eq!(hit(8, 591), HitRegion::Client);
    assert_eq!(hit(791, 300), HitRegion::Client);
}

#[test]
fn titlebar_boundary() {
    assert_eq!(hit(400, 29), HitRegion::Caption);
    assert_eq!(hit(400, 8), HitRegion::Caption);
}

#[test]
fn single_edges() {
    assert_eq!(hit(0, 300), HitRegion::Left);
    assert_eq!(hit(7, 300), HitRegion::Left);
    assert_eq!(hit(400, 7), HitRegion::Top);
    assert_eq!(hit(792, 300), HitRegion::Right);
    assert_eq!(hit(400, 592), HitRegion::Bottom);
    assert_eq!(hit(400, 599), HitRegion::Bottom);
}

#[test]
fn corners() {
    assert_eq!(hit(799, 0), HitRegion::TopRight);
    assert_eq!(hit(3, 597), HitRegion::BottomLeft);
    assert_eq!(hit(799, 599), HitRegion::BottomRight);
}

#[test]
fn degenerate_rectangles_are_classified() {
    let narrow = Rect { left: 100, top: 0, right: 110, bottom: 600 };
    assert_eq!(Region::hit_test(Point { x: 105, y: 300 }, narrow, BORDER, 30), HitRegion::Nowhere);
    let tiny = Rect { left: 0, top: 0, right: 4, bottom: 4 };
    assert_eq!(Region::hit_test(Point { x: 2, y: 2 }, tiny, BORDER, 30), HitRegion::Nowhere);
    let empty = Rect { left: 0, top: 0, right: 0, bottom: 0 };
    assert_eq!(
        Region::hit_test(Point { x: 0, y: 0 }, empty, Point { x: 0, y: 0 }, 0),
        HitRegion::BottomRight
    );
}

#[test]
fn extreme_coordinates_do_not_overflow() {
    let rect = Rect { left: i32::MIN, top: i32::MIN, right: i32::MAX, bottom: i32::MAX };
    let border = Point { x: i32::MAX, y: i32::MAX };
    assert_eq!(Region::hit_test(Point { x: 0, y: 0 }, rect, border, i32::MAX), HitRegion::BottomRight);
    let far = Rect { left: 0, top: 0, right: 800, bottom: 600 };
    assert_eq!(
        Region::hit_test(Point { x: i32::MAX, y: 300 }, far, Point { x: i32::MIN, y: 8 }, 30),
        HitRegion::Client
    );
}

#[test]
fn edge_mask_bits() {
    assert_eq!(Region::Left.bit(), 1);
    assert_eq!(Region::Top.bit(), 2);
    assert_eq!(Region::Right.bit(), 4);
    assert_eq!(Region::Bottom.bit(), 8);
    assert_eq!(Region::edge_mask(Point { x: 2, y: 2 }, window_rect(), BORDER), 3);
    assert_eq!(Region::edge_mask(Point { x: 799, y: 599 }, window_rect(), BORDER), 12);
    assert_eq!(Region::edge_mask(Point { x: 400, y: 300 }, window_rect(), BORDER), 0);
}

#[test]
fn rect_size() {
    assert_eq!(window_rect().size(), (800, 600));
    assert_eq!(Rect { left: 10, top: 20, right: 5, bottom: 20 }.size(), (0, 0));
    assert_eq!(Rect { left: i32::MIN, top: 0, right: i32::MAX, bottom: 1 }.size(), (u32::MAX, 1));
}

#[test]
fn metrics() {
    assert_eq!(border_from_metrics(4, 5, 4), Point { x: 8, y: 9 });
    assert_eq!(border_from_metrics(i32::MAX, i32::MIN, 10), Point { x: i32::MAX, y: i32::MIN + 10 });
    assert_eq!(titlebar_from_metrics(22, 4), 30);
    assert_eq!(titlebar_from_metrics(i32::MIN, -1), i32::MIN);
}
