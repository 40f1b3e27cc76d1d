//! Camera zoom and drag panning.

use chicken_sim::Transform;
use chicken_sim::Vec2;
use chicken_sim::move_with_mouse;
use chicken_sim::zoom;

fn camera() -> Transform {
    Transform {
        translation: Vec2 { x: 10_000, y: 20_000 },
        scale: Vec2 { x: 1_000, y: 1_000 },
    }
}

#[test]
fn scroll_down_widens_the_view() {
    let mut cam = camera();
    zoom(&mut cam, -120);
    assert_eq!(cam.scale, Vec2 { x: 1_100, y: 1_100 });
    assert_eq!(cam.translation, Vec2 { x: 10_000, y: 20_000 });
}

#[test]
fn scroll_up_narrows_the_view() {
    let mut cam = camera();
    zoom(&mut cam, 120);
    assert_eq!(cam.scale, Vec2 { x: 900, y: 900 });
    zoom(&mut cam, 0);
    assert_eq!(cam.scale, Vec2 { x: 810, y: 810 });
}

#[test]
fn drag_pans_against_the_motion() {
    let mut cam = camera();
    move_with_mouse(&mut cam, Vec2 { x: 3_000, y: -2_000 }, true);
    assert_eq!(cam.translation, Vec2 { x: 10_000 - 3_000, y: 20_000 - 2_000 });
    assert_eq!(cam.scale, Vec2 { x: 1_000, y: 1_000 });
}

#[test]
fn drag_scales_with_zoom() {
    let mut cam = camera();
    cam.scale = Vec2 { x: 2_000, y: 2_000 };
    move_with_mouse(&mut cam, Vec2 { x: 1_500, y: 500 }, true);
    assert_eq!(cam.translation, Vec2 { x: 10_000 - 3_000, y: 20_000 + 1_000 });
}

#[test]
fn no_button_no_pan() {
    let mut cam = camera();
    move_with_mouse(&mut cam, Vec2 { x: 3_000, y: -2_000 }, false);
    assert_eq!(cam.translation, Vec2 { x: 10_000, y: 20_000 });
}
