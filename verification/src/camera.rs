//! Camera control: wheel zoom and click-drag panning, on the same
//! milli-unit fixed-point transforms as the rest of the world.

use vstd::prelude::*;

use crate::geom::Transform;
use crate::geom::Vec2;

verus! {

/// Bound on camera scale components under which a 10% zoom step stays
/// well inside `i64`.
pub const CAMERA_SCALE_LIMIT_MILLI: i64 = 800_000_000;

/// Bound on one mouse motion delta, in milli-pixels.
pub const MOUSE_DELTA_LIMIT_MILLI: i64 = 1_000_000;

/// A product of two milli-unit quantities, brought back to
/// milli-units, rounded toward zero.
pub open spec fn scaled_milli(a: int, b: int) -> int {
    if a * b >= 0 {
        (a * b) / 1000
    } else {
        -((-(a * b)) / 1000)
    }
}

/// Zoom in or out by one mouse-wheel event: scrolling down
/// (`wheel_y < 0`) widens the view by 10%, scrolling up narrows it by
/// 10%. The camera's position is untouched.
pub fn zoom(camera: &mut Transform, wheel_y: i64)
    requires
        0 <= old(camera).scale.x <= CAMERA_SCALE_LIMIT_MILLI,
        0 <= old(camera).scale.y <= CAMERA_SCALE_LIMIT_MILLI,
    ensures
        wheel_y < 0 ==> final(camera).scale.x == old(camera).scale.x * 11 / 10
            && final(camera).scale.y == old(camera).scale.y * 11 / 10,
        wheel_y >= 0 ==> final(camera).scale.x == old(camera).scale.x * 9 / 10
            && final(camera).scale.y == old(camera).scale.y * 9 / 10,
        final(camera).translation == old(camera).translation,
{
    if wheel_y < 0 {
        camera.scale = Vec2 { x: camera.scale.x * 11 / 10, y: camera.scale.y * 11 / 10 };
    } else {
        camera.scale = Vec2 { x: camera.scale.x * 9 / 10, y: camera.scale.y * 9 / 10 };
    }
}

/// Pan the camera by one mouse motion while a button is pressed: the
/// view follows the drag, scaled by the current zoom. Without a
/// pressed button nothing moves.
pub fn move_with_mouse(camera: &mut Transform, delta: Vec2, pressed: bool)
    requires
        delta.in_range(MOUSE_DELTA_LIMIT_MILLI as int),
        0 <= old(camera).scale.x <= CAMERA_SCALE_LIMIT_MILLI,
        0 <= old(camera).scale.y <= CAMERA_SCALE_LIMIT_MILLI,
        old(camera).translation.in_range(1_000_000_000_000),
    ensures
        pressed ==> final(camera).translation.x == old(camera).translation.x - scaled_milli(
            delta.x as int,
            old(camera).scale.x as int,
        ) && final(camera).translation.y == old(camera).translation.y + scaled_milli(
            delta.y as int,
            old(camera).scale.y as int,
        ),
        !pressed ==> final(camera).translation == old(camera).translation,
        final(camera).scale == old(camera).scale,
{
    if pressed {
        let dx = scaled_product(delta.x, camera.scale.x);
        let dy = scaled_product(delta.y, camera.scale.y);
        camera.translation = Vec2 { x: camera.translation.x - dx, y: camera.translation.y + dy };
    }
}

/// Executable counterpart of `scaled_milli`.
fn scaled_product(a: i64, b: i64) -> (r: i64)
    requires
        -MOUSE_DELTA_LIMIT_MILLI <= a <= MOUSE_DELTA_LIMIT_MILLI,
        0 <= b <= CAMERA_SCALE_LIMIT_MILLI,
    ensures
        r == scaled_milli(a as int, b as int),
        -1_000_000_000_000 <= r <= 1_000_000_000_000,
{
    proof {
        assert(-800_000_000_000_000 <= a * b <= 800_000_000_000_000) by (nonlinear_arith)
            requires
                -1_000_000 <= a <= 1_000_000 && 0 <= b <= 800_000_000,
        ;
    }
    let p: i64 = a * b;
    if p >= 0 {
        p / 1000
    } else {
        -((-p) / 1000)
    }
}

/// The camera systems: zoom and drag panning.
pub struct CameraPlugin;

} // verus!
