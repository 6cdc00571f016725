use orbit_gravity::components::camera::{DEFAULT_RADIUS, MIN_RADIUS};
use orbit_gravity::components::PanOrbitCamera;
use orbit_gravity::fixed::Fixed;
use orbit_gravity::systems::camera::{
    accumulated_motion, accumulated_scroll, CameraMotion, MouseInput, Viewport,
};
use orbit_gravity::systems::camera_movement_system;
use orbit_gravity::vector::{Vector2, Vector3};

fn fx(raw: i64) -> Fixed {
    Fixed { raw }
}

fn v2(x: i32, y: i32) -> Vector2 {
    Vector2::new(Fixed::from_int(x), Fixed::from_int(y))
}

fn v3(x: i32, y: i32, z: i32) -> Vector3 {
    Vector3::new(Fixed::from_int(x), Fixed::from_int(y), Fixed::from_int(z))
}

fn raw3(x: i64, y: i64, z: i64) -> Vector3 {
    Vector3::new(fx(x), fx(y), fx(z))
}

fn camera_at_radius_five() -> PanOrbitCamera {
    PanOrbitCamera { focus: v3(1, 2, 3), radius: Fixed::from_int(5), upside_down: false }
}

fn upright_view() -> Viewport {
    Viewport {
        window: v2(800, 600),
        fov: Fixed::from_int(1),
        aspect_ratio: fx(1_500_000),
        right: v3(1, 0, 0),
        up: v3(0, 1, 0),
    }
}

fn idle() -> MouseInput {
    MouseInput {
        motion: Vector2::zero(),
        scroll: Fixed::zero(),
        pan_held: false,
        orbit_held: false,
        orbit_changed: false,
    }
}

const STILL: CameraMotion = CameraMotion { yaw: Fixed { raw: 0 }, pitch: Fixed { raw: 0 }, moved: false };

#[test]
fn default_camera_looks_at_the_origin_from_five() {
    let camera = PanOrbitCamera::default();
    assert_eq!(camera.focus, Vector3::zero());
    assert_eq!(camera.radius.raw, DEFAULT_RADIUS);
    assert_eq!(camera.radius, Fixed::from_int(5));
    assert!(!camera.upside_down);
}

#[test]
fn camera_stands_one_radius_behind_the_focus() {
    let camera = camera_at_radius_five();
    assert_eq!(camera.position(v3(0, 0, 1)), v3(1, 2, 8));
    assert_eq!(camera.position(v3(0, -1, 0)), v3(1, -3, 3));
    assert_eq!(camera.position(raw3(600_000, 0, 800_000)), v3(4, 2, 7));
}

#[test]
fn pan_button_and_a_hundred_across_turn_an_eighth() {
    let mut camera = camera_at_radius_five();
    let input = MouseInput { motion: v2(100, 0), pan_held: true, ..idle() };
    let motion = camera_movement_system(&mut camera, &input, &upright_view());
    assert_eq!(motion, CameraMotion { yaw: fx(785_398), pitch: fx(0), moved: true });
    let expected = 100.0 / 800.0 * 2.0 * std::f64::consts::PI;
    assert!((motion.yaw.raw as f64 / 1e6 - expected).abs() < 1e-6);
    assert_eq!(camera, camera_at_radius_five());
}

#[test]
fn yaw_is_reversed_for_a_camera_upside_down() {
    let mut camera = PanOrbitCamera { upside_down: true, ..camera_at_radius_five() };
    let input = MouseInput { motion: v2(100, 0), pan_held: true, ..idle() };
    let motion = camera_movement_system(&mut camera, &input, &upright_view());
    assert_eq!(motion, CameraMotion { yaw: fx(-785_398), pitch: fx(0), moved: true });
    assert!(camera.upside_down);
}

#[test]
fn pitch_is_the_share_of_a_half_turn() {
    let mut camera = PanOrbitCamera { upside_down: true, ..camera_at_radius_five() };
    let input = MouseInput { motion: v2(0, 150), pan_held: true, ..idle() };
    let motion = camera_movement_system(&mut camera, &input, &upright_view());
    assert_eq!(motion, CameraMotion { yaw: fx(0), pitch: fx(785_398), moved: true });
    let back = MouseInput { motion: v2(-200, -150), pan_held: true, ..idle() };
    let motion = camera_movement_system(&mut camera, &back, &upright_view());
    assert_eq!(motion, CameraMotion { yaw: fx(1_570_796), pitch: fx(-785_398), moved: true });
}

#[test]
fn pan_button_wins_over_orbit_button() {
    let mut camera = camera_at_radius_five();
    let input = MouseInput { motion: v2(100, 0), pan_held: true, orbit_held: true, ..idle() };
    let motion = camera_movement_system(&mut camera, &input, &upright_view());
    assert_eq!(motion.yaw, fx(785_398));
    assert_eq!(camera.focus, v3(1, 2, 3));
}

#[test]
fn orbit_button_shifts_the_focus() {
    let mut camera = camera_at_radius_five();
    let input = MouseInput { motion: v2(100, 60), orbit_held: true, ..idle() };
    let motion = camera_movement_system(&mut camera, &input, &upright_view());
    assert_eq!(motion, CameraMotion { moved: true, ..STILL });
    // across: 100 * (1 * 1.5) / 800 = 0.1875, against the motion, times 5
    // along: 60 * 1 / 600 = 0.1, with the motion, times 5
    assert_eq!(camera.focus, raw3(1_000_000 - 937_500, 2_000_000 + 500_000, 3_000_000));
    assert_eq!(camera.radius, Fixed::from_int(5));
}

#[test]
fn shift_follows_the_camera_axes() {
    let mut camera = PanOrbitCamera { radius: Fixed::from_int(2), ..camera_at_radius_five() };
    let view = Viewport { right: v3(0, 0, -1), up: v3(1, 0, 0), ..upright_view() };
    let input = MouseInput { motion: v2(-400, 300), orbit_held: true, ..idle() };
    camera_movement_system(&mut camera, &input, &view);
    // across: -400 * 1.5 / 800 = -0.75; along: 300 / 600 = 0.5
    // shift: right * 0.75 + up * 0.5 = (0.5, 0, -0.75), times 2
    assert_eq!(camera.focus, raw3(2_000_000, 2_000_000, 1_500_000));
}

#[test]
fn motion_without_a_button_does_nothing() {
    let mut camera = camera_at_radius_five();
    let input = MouseInput { motion: v2(100, 60), ..idle() };
    let motion = camera_movement_system(&mut camera, &input, &upright_view());
    assert_eq!(motion, STILL);
    assert_eq!(camera, camera_at_radius_five());
}

#[test]
fn idle_frame_leaves_the_camera_alone() {
    let mut camera = camera_at_radius_five();
    for pan_held in [false, true] {
        for orbit_held in [false, true] {
            let input = MouseInput { pan_held, orbit_held, ..idle() };
            let motion = camera_movement_system(&mut camera, &input, &upright_view());
            assert_eq!(motion, STILL);
            assert_eq!(camera, camera_at_radius_five());
        }
    }
}

#[test]
fn idle_frame_needs_no_window() {
    let mut camera = camera_at_radius_five();
    let view = Viewport { window: Vector2::zero(), ..upright_view() };
    let input = MouseInput { scroll: Fixed::from_int(1), pan_held: true, ..idle() };
    let motion = camera_movement_system(&mut camera, &input, &view);
    assert_eq!(motion, CameraMotion { moved: true, ..STILL });
    assert_eq!(camera.radius, Fixed::from_int(4));
}

#[test]
fn scroll_changes_the_radius_by_a_fifth_per_step() {
    let mut camera = camera_at_radius_five();
    let input = MouseInput { scroll: Fixed::from_int(1), ..idle() };
    let motion = camera_movement_system(&mut camera, &input, &upright_view());
    assert_eq!(motion, CameraMotion { moved: true, ..STILL });
    assert_eq!(camera.radius, Fixed::from_int(4));
    assert_eq!(camera.focus, v3(1, 2, 3));

    let out = MouseInput { scroll: Fixed::from_int(-1), ..idle() };
    camera_movement_system(&mut camera, &out, &upright_view());
    assert_eq!(camera.radius, fx(4_800_000));

    let little = MouseInput { scroll: fx(250_000), ..idle() };
    camera_movement_system(&mut camera, &little, &upright_view());
    // 4.8 - 0.25 * 4.8 * 0.2
    assert_eq!(camera.radius, fx(4_560_000));
}

#[test]
fn radius_never_falls_below_the_smallest() {
    let mut camera = camera_at_radius_five();
    let hard = MouseInput { scroll: Fixed::from_int(10), ..idle() };
    camera_movement_system(&mut camera, &hard, &upright_view());
    assert_eq!(camera.radius.raw, MIN_RADIUS);
    assert_eq!(camera.radius, fx(50_000));

    let mut tiny = PanOrbitCamera { radius: fx(1), ..camera_at_radius_five() };
    let out = MouseInput { scroll: fx(-1), ..idle() };
    camera_movement_system(&mut tiny, &out, &upright_view());
    assert_eq!(tiny.radius.raw, MIN_RADIUS);

    let mut inverted = PanOrbitCamera { radius: Fixed::from_int(-3), ..camera_at_radius_five() };
    camera_movement_system(&mut inverted, &hard, &upright_view());
    assert_eq!(inverted.radius.raw, 3_000_000);
    let mut steps = 0;
    while inverted.radius.raw > MIN_RADIUS && steps < 100 {
        let pull_in = MouseInput { scroll: Fixed::from_int(3), ..idle() };
        camera_movement_system(&mut inverted, &pull_in, &upright_view());
        assert!(inverted.radius.raw >= MIN_RADIUS);
        steps += 1;
    }
    assert_eq!(inverted.radius.raw, MIN_RADIUS);
}

#[test]
fn scroll_and_turn_in_one_frame() {
    let mut camera = camera_at_radius_five();
    let input = MouseInput {
        motion: v2(100, 0),
        scroll: Fixed::from_int(1),
        pan_held: true,
        ..idle()
    };
    let motion = camera_movement_system(&mut camera, &input, &upright_view());
    assert_eq!(motion, CameraMotion { yaw: fx(785_398), pitch: fx(0), moved: true });
    assert_eq!(camera.radius, Fixed::from_int(4));
}

#[test]
fn upside_down_is_renewed_only_when_the_orbit_button_changes() {
    let hanging = Viewport { up: v3(0, -1, 0), ..upright_view() };
    let level = Viewport { up: v3(1, 0, 0), ..upright_view() };

    let mut camera = camera_at_radius_five();
    camera_movement_system(&mut camera, &idle(), &hanging);
    assert!(!camera.upside_down);

    let changed = MouseInput { orbit_changed: true, ..idle() };
    let motion = camera_movement_system(&mut camera, &changed, &hanging);
    assert!(camera.upside_down);
    assert_eq!(motion, STILL);

    camera_movement_system(&mut camera, &idle(), &upright_view());
    assert!(camera.upside_down);

    camera_movement_system(&mut camera, &changed, &upright_view());
    assert!(!camera.upside_down);

    camera_movement_system(&mut camera, &changed, &level);
    assert!(camera.upside_down);
}

#[test]
fn renewed_mark_decides_the_yaw_of_the_same_frame() {
    let hanging = Viewport { up: v3(0, -1, 0), ..upright_view() };
    let mut camera = camera_at_radius_five();
    let input = MouseInput { motion: v2(100, 0), pan_held: true, orbit_changed: true, ..idle() };
    let motion = camera_movement_system(&mut camera, &input, &hanging);
    assert!(camera.upside_down);
    assert_eq!(motion.yaw, fx(-785_398));
}

#[test]
fn events_of_a_frame_are_summed() {
    let motions = vec![v2(1, 2), v2(3, 4), v2(-10, 0)];
    assert_eq!(accumulated_motion(&motions), v2(-6, 6));
    assert_eq!(accumulated_motion(&Vec::new()), Vector2::zero());
    let scrolls = vec![Fixed::from_int(1), fx(-500_000)];
    assert_eq!(accumulated_scroll(&scrolls), fx(500_000));
    assert_eq!(accumulated_scroll(&Vec::new()), Fixed::zero());
}

#[test]
fn gather_builds_the_input_of_a_frame() {
    let motions = vec![v2(1, 2), v2(3, 4)];
    let scrolls = vec![Fixed::from_int(1), Fixed::from_int(2)];
    let input = MouseInput::gather(&motions, &scrolls, true, false, false, true);
    assert_eq!(
        input,
        MouseInput {
            motion: v2(4, 6),
            scroll: Fixed::from_int(3),
            pan_held: true,
            orbit_held: false,
            orbit_changed: true,
        }
    );
    assert!(MouseInput::gather(&motions, &scrolls, false, true, true, false).orbit_changed);
    assert!(!MouseInput::gather(&motions, &scrolls, false, true, false, false).orbit_changed);
}
