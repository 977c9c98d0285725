use display_window::geometry::{clamp, edges_fit, to_screen, truncate, Rect, Vector2D, HEIGHT, WIDTH};
use display_window::window::MovableWindow;

fn rect_u8(x: u8, y: u8, width: u8, height: u8) -> Rect<u8> {
    Rect::new(Vector2D::new(x, y), Vector2D::new(width, height))
}

fn rect_i32(x: i32, y: i32, width: i32, height: i32) -> Rect<i32> {
    Rect::new(Vector2D::new(x, y), Vector2D::new(width, height))
}

#[test]
fn the_screen_is_240_by_160() {
    assert_eq!(WIDTH, 240);
    assert_eq!(HEIGHT, 160);
}

#[test]
fn rect_and_vector_hold_what_they_are_given() {
    let v = Vector2D::new(3, 4);
    assert_eq!((v.x, v.y), (3, 4));
    let r = Rect::new(Vector2D::new(1u8, 2u8), Vector2D::new(3u8, 4u8));
    assert_eq!(r.position, Vector2D { x: 1, y: 2 });
    assert_eq!(r.size, Vector2D { x: 3, y: 4 });
}

#[test]
fn clamp_brings_a_value_into_the_range() {
    assert_eq!(clamp(-5, 0, 240), 0);
    assert_eq!(clamp(0, 0, 240), 0);
    assert_eq!(clamp(17, 0, 240), 17);
    assert_eq!(clamp(240, 0, 240), 240);
    assert_eq!(clamp(241, 0, 240), 240);
    assert_eq!(clamp(i32::MIN, 0, 160), 0);
    assert_eq!(clamp(i32::MAX, 0, 160), 160);
    assert_eq!(clamp(9, 7, 7), 7);
}

#[test]
fn clamping_twice_is_clamping_once() {
    for value in [-1000, -1, 0, 1, 100, 159, 160, 161, 239, 240, 241, 255, 256, 100_000] {
        let once = clamp(value, 0, WIDTH);
        assert_eq!(clamp(once, 0, WIDTH), once);
        let once = clamp(value, 0, HEIGHT);
        assert_eq!(clamp(once, 0, HEIGHT), once);
    }
}

#[test]
fn truncate_keeps_the_low_byte() {
    assert_eq!(truncate(0), 0);
    assert_eq!(truncate(50), 50);
    assert_eq!(truncate(255), 255);
    assert_eq!(truncate(256), 0);
    assert_eq!(truncate(300), 44);
    assert_eq!(truncate(-1), 255);
    assert_eq!(truncate(-256), 0);
    assert_eq!(truncate(-200), 56);
    assert_eq!(truncate(i32::MAX), 255);
    assert_eq!(truncate(i32::MIN), 0);
}

#[test]
fn edges_fit_when_neither_sum_leaves_the_byte() {
    assert!(edges_fit(rect_u8(0, 0, 0, 0)));
    assert!(edges_fit(rect_u8(0, 0, 255, 255)));
    assert!(edges_fit(rect_u8(255, 255, 0, 0)));
    assert!(edges_fit(rect_u8(240, 160, 15, 95)));
    assert!(!edges_fit(rect_u8(240, 160, 16, 95)));
    assert!(!edges_fit(rect_u8(240, 160, 15, 96)));
    assert!(!edges_fit(rect_u8(1, 0, 255, 0)));
    assert!(!edges_fit(rect_u8(0, 255, 0, 1)));
}

#[test]
fn a_new_movable_window_is_empty_and_at_the_origin() {
    let window = MovableWindow::new();
    assert_eq!(window.rect(), rect_u8(0, 0, 0, 0));
}

#[test]
fn set_position_u8_stores_the_rectangle_as_it_is() {
    let mut window = MovableWindow::new();
    window.set_position_u8(rect_u8(10, 20, 30, 40));
    assert_eq!(window.rect(), rect_u8(10, 20, 30, 40));
    window.set_position_u8(rect_u8(250, 251, 252, 253));
    assert_eq!(window.rect(), rect_u8(250, 251, 252, 253));
}

#[test]
fn set_position_clamps_the_corner_to_the_screen() {
    let mut window = MovableWindow::new();
    window.set_position(&rect_i32(-5, 300, 50, 50));
    assert_eq!(window.rect(), rect_u8(0, 160, 50, 50));
}

#[test]
fn set_position_keeps_a_corner_that_is_on_the_screen() {
    let mut window = MovableWindow::new();
    window.set_position(&rect_i32(12, 34, 56, 78));
    assert_eq!(window.rect(), rect_u8(12, 34, 56, 78));
    window.set_position(&rect_i32(0, 0, 240, 160));
    assert_eq!(window.rect(), rect_u8(0, 0, 240, 160));
    window.set_position(&rect_i32(240, 160, 0, 0));
    assert_eq!(window.rect(), rect_u8(240, 160, 0, 0));
}

#[test]
fn set_position_does_not_clamp_the_size() {
    let mut window = MovableWindow::new();
    window.set_position(&rect_i32(0, 0, 255, 255));
    assert_eq!(window.rect(), rect_u8(0, 0, 255, 255));
    window.set_position(&rect_i32(0, 0, 256, 300));
    assert_eq!(window.rect(), rect_u8(0, 0, 0, 44));
    window.set_position(&rect_i32(0, 0, -1, -200));
    assert_eq!(window.rect(), rect_u8(0, 0, 255, 56));
}

#[test]
fn stored_positions_are_always_on_the_screen() {
    let values = [i32::MIN, -70_000, -257, -256, -1, 0, 1, 159, 160, 161, 239, 240, 241, 255, 256, 70_000, i32::MAX];
    let mut window = MovableWindow::new();
    for x in values {
        for y in values {
            window.set_position(&rect_i32(x, y, 1, 1));
            let stored = window.rect();
            assert!(i32::from(stored.position.x) <= WIDTH);
            assert!(i32::from(stored.position.y) <= HEIGHT);
            assert_eq!(i32::from(stored.position.x), x.clamp(0, WIDTH));
            assert_eq!(i32::from(stored.position.y), y.clamp(0, HEIGHT));
        }
    }
}

#[test]
fn storing_a_stored_rectangle_again_changes_nothing() {
    let mut window = MovableWindow::new();
    for rect in [rect_i32(-5, 300, 50, 50), rect_i32(1000, -1000, 511, -3), rect_i32(7, 8, 9, 10)] {
        window.set_position(&rect);
        let once = window.rect();
        let again = rect_i32(
            i32::from(once.position.x),
            i32::from(once.position.y),
            i32::from(once.size.x),
            i32::from(once.size.y),
        );
        window.set_position(&again);
        assert_eq!(window.rect(), once);
        assert_eq!(to_screen(&again), once);
    }
}

#[test]
fn setting_the_position_keeps_the_flags() {
    let mut window = MovableWindow::new();
    window.enable().set_blend_enable(true);
    window.set_position(&rect_i32(1, 2, 3, 4));
    assert_eq!(window.bits(), 0b1010_0000);
    window.set_position_u8(rect_u8(5, 6, 7, 8));
    assert_eq!(window.bits(), 0b1010_0000);
}

#[test]
fn setting_flags_keeps_the_position() {
    let mut window = MovableWindow::new();
    window.set_position_u8(rect_u8(5, 6, 7, 8));
    window.enable().set_object_enable(true).disable();
    assert_eq!(window.rect(), rect_u8(5, 6, 7, 8));
}

#[test]
fn reset_of_a_movable_window_clears_flags_and_rectangle() {
    let mut window = MovableWindow::new();
    window.enable().set_blend_enable(true).set_position_u8(rect_u8(5, 6, 7, 8));
    window.reset();
    assert_eq!(window.bits(), 0);
    assert!(!window.is_enabled());
    assert_eq!(window.rect(), rect_u8(0, 0, 0, 0));
}
