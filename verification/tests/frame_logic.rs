use oit_renderer::events::{KeyId, WindowDisposition, WindowEvent};
use oit_renderer::frame::{
    apply_event, apply_events, elapsed_micros, FrameAction, RenderState, SpinDirection,
    CAMERA_SPIN_RATE, FULL_TURN_MICRODEG,
};
use oit_renderer::events::window_disposition;

#[test]
fn close_requested_shuts_down() {
    assert_eq!(
        window_disposition(&WindowEvent::CloseRequested),
        WindowDisposition::Shutdown
    );
}

#[test]
fn other_events_are_forwarded() {
    assert_eq!(
        window_disposition(&WindowEvent::Resized { width: 10, height: 10 }),
        WindowDisposition::Forward
    );
    assert_eq!(
        window_disposition(&WindowEvent::Key { key: KeyId::ArrowLeft, pressed: true }),
        WindowDisposition::Forward
    );
    assert_eq!(
        window_disposition(&WindowEvent::Other),
        WindowDisposition::Forward
    );
}

#[test]
fn positive_resize_recreates_targets() {
    let mut state = RenderState::new(800, 600);
    let action = apply_event(&mut state, &WindowEvent::Resized { width: 1024, height: 768 }, 16_000);
    assert_eq!(action, Some(FrameAction::RecreateTargets { width: 1024, height: 768 }));
    assert_eq!(state.surface_width, 1024);
    assert_eq!(state.surface_height, 768);
}

#[test]
fn zero_width_resize_is_ignored() {
    let mut state = RenderState::new(800, 600);
    let action = apply_event(&mut state, &WindowEvent::Resized { width: 0, height: 768 }, 16_000);
    assert_eq!(action, None);
    assert_eq!(state, RenderState::new(800, 600));
}

#[test]
fn zero_height_resize_is_ignored() {
    let mut state = RenderState::new(800, 600);
    let action = apply_event(&mut state, &WindowEvent::Resized { width: 1024, height: 0 }, 16_000);
    assert_eq!(action, None);
    assert_eq!(state, RenderState::new(800, 600));
}

#[test]
fn left_arrow_spins_clockwise() {
    let mut state = RenderState::new(800, 600);
    let action = apply_event(
        &mut state,
        &WindowEvent::Key { key: KeyId::ArrowLeft, pressed: true },
        1_000,
    );
    assert_eq!(
        action,
        Some(FrameAction::RotateCamera {
            direction: SpinDirection::Clockwise,
            microdeg: 1_000 * CAMERA_SPIN_RATE,
        })
    );
    // 0.18 degrees clockwise from zero wraps to just under a full turn.
    assert_eq!(state.camera_yaw_microdeg, FULL_TURN_MICRODEG - 180_000);
}

#[test]
fn right_arrow_spins_counter_clockwise() {
    let mut state = RenderState::new(800, 600);
    let action = apply_event(
        &mut state,
        &WindowEvent::Key { key: KeyId::ArrowRight, pressed: true },
        1_000,
    );
    assert_eq!(
        action,
        Some(FrameAction::RotateCamera {
            direction: SpinDirection::CounterClockwise,
            microdeg: 180_000,
        })
    );
    assert_eq!(state.camera_yaw_microdeg, 180_000);
}

#[test]
fn key_release_is_ignored() {
    let mut state = RenderState::new(800, 600);
    let action = apply_event(
        &mut state,
        &WindowEvent::Key { key: KeyId::ArrowLeft, pressed: false },
        1_000,
    );
    assert_eq!(action, None);
    assert_eq!(state, RenderState::new(800, 600));
}

#[test]
fn unmapped_key_is_ignored() {
    let mut state = RenderState::new(800, 600);
    let action = apply_event(
        &mut state,
        &WindowEvent::Key { key: KeyId::Other, pressed: true },
        1_000,
    );
    assert_eq!(action, None);
    assert_eq!(state, RenderState::new(800, 600));
}

#[test]
fn opposite_spins_restore_the_state() {
    let mut state = RenderState::new(800, 600);
    let dt: u32 = 7_777;
    apply_event(&mut state, &WindowEvent::Key { key: KeyId::ArrowLeft, pressed: true }, dt);
    assert_ne!(state.camera_yaw_microdeg, 0);
    apply_event(&mut state, &WindowEvent::Key { key: KeyId::ArrowRight, pressed: true }, dt);
    assert_eq!(state, RenderState::new(800, 600));
}

#[test]
fn yaw_wraps_around_a_full_turn() {
    let mut state = RenderState::new(800, 600);
    // Three seconds at 180 degrees per second is a turn and a half.
    apply_event(
        &mut state,
        &WindowEvent::Key { key: KeyId::ArrowRight, pressed: true },
        3_000_000,
    );
    assert_eq!(state.camera_yaw_microdeg, 180_000_000);
}

#[test]
fn events_apply_in_arrival_order() {
    let mut state = RenderState::new(800, 600);
    let events = vec![
        WindowEvent::Resized { width: 0, height: 0 },
        WindowEvent::Key { key: KeyId::ArrowRight, pressed: true },
        WindowEvent::Other,
        WindowEvent::Resized { width: 640, height: 480 },
        WindowEvent::Key { key: KeyId::ArrowRight, pressed: true },
    ];
    let actions = apply_events(&mut state, &events, 1_000);
    assert_eq!(
        actions,
        vec![
            FrameAction::RotateCamera {
                direction: SpinDirection::CounterClockwise,
                microdeg: 180_000,
            },
            FrameAction::RecreateTargets { width: 640, height: 480 },
            FrameAction::RotateCamera {
                direction: SpinDirection::CounterClockwise,
                microdeg: 180_000,
            },
        ]
    );
    assert_eq!(state.surface_width, 640);
    assert_eq!(state.surface_height, 480);
    assert_eq!(state.camera_yaw_microdeg, 360_000);
}

#[test]
fn elapsed_micros_measures_and_clamps() {
    assert_eq!(elapsed_micros(1_000, 17_000), 16_000);
    assert_eq!(elapsed_micros(5, 5), 0);
    // A non-monotonic reading counts as no elapsed time.
    assert_eq!(elapsed_micros(10_000, 9_999), 0);
    // An absurdly long pause clamps instead of wrapping.
    assert_eq!(elapsed_micros(0, u64::MAX), u32::MAX);
}
