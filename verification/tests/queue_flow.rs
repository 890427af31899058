use oit_renderer::events::{KeyId, WindowEvent};
use oit_renderer::frame::{process_frame_events, FrameAction, RenderState, SpinDirection};
use oit_renderer::queue::{drain_events, new_event_queue, pop_event, push_event, RunFlag};

#[test]
fn queue_hands_events_out_in_push_order() {
    let queue = new_event_queue();
    push_event(&queue, WindowEvent::Resized { width: 100, height: 50 });
    push_event(&queue, WindowEvent::Key { key: KeyId::ArrowLeft, pressed: true });
    push_event(&queue, WindowEvent::CloseRequested);
    let (events, observed_empty) = drain_events(&queue, 16);
    assert_eq!(
        events,
        vec![
            WindowEvent::Resized { width: 100, height: 50 },
            WindowEvent::Key { key: KeyId::ArrowLeft, pressed: true },
            WindowEvent::CloseRequested,
        ]
    );
    assert!(observed_empty);
    assert_eq!(pop_event(&queue), None);
}

#[test]
fn drain_respects_its_bound_and_reports_leftovers() {
    let queue = new_event_queue();
    push_event(&queue, WindowEvent::Other);
    push_event(&queue, WindowEvent::Other);
    push_event(&queue, WindowEvent::CloseRequested);
    let (events, observed_empty) = drain_events(&queue, 2);
    assert_eq!(events.len(), 2);
    // The bound was hit, so the queue was not observed empty: the caller
    // knows to drain again.
    assert!(!observed_empty);
    assert_eq!(pop_event(&queue), Some(WindowEvent::CloseRequested));
}

#[test]
fn cross_thread_hand_off_reaches_the_frame_logic() {
    let queue = new_event_queue();
    let producer = queue.clone();
    push_event(&producer, WindowEvent::Resized { width: 320, height: 200 });
    push_event(&producer, WindowEvent::Key { key: KeyId::ArrowRight, pressed: true });

    let mut state = RenderState::new(800, 600);
    let (events, actions, observed_empty) = process_frame_events(&mut state, &queue, 2_000, 64);
    assert_eq!(events.len(), 2);
    assert!(observed_empty);
    assert_eq!(
        actions,
        vec![
            FrameAction::RecreateTargets { width: 320, height: 200 },
            FrameAction::RotateCamera {
                direction: SpinDirection::CounterClockwise,
                microdeg: 360_000,
            },
        ]
    );
    assert_eq!(state.surface_width, 320);
    assert_eq!(state.surface_height, 200);
    assert_eq!(state.camera_yaw_microdeg, 360_000);
}

#[test]
fn repeated_rounds_drain_a_burst_completely() {
    let queue = new_event_queue();
    for _ in 0..5 {
        push_event(&queue, WindowEvent::Key { key: KeyId::ArrowRight, pressed: true });
    }
    let mut state = RenderState::new(800, 600);

    // First round hits the bound; the caller must go again.
    let (events, actions, observed_empty) = process_frame_events(&mut state, &queue, 1_000, 3);
    assert_eq!(events.len(), 3);
    assert_eq!(actions.len(), 3);
    assert!(!observed_empty);

    // Second round takes the rest and observes the queue empty.
    let (events, actions, observed_empty) = process_frame_events(&mut state, &queue, 1_000, 3);
    assert_eq!(events.len(), 2);
    assert_eq!(actions.len(), 2);
    assert!(observed_empty);

    // All five presses reached the state.
    assert_eq!(state.camera_yaw_microdeg, 5 * 180_000);
    assert_eq!(pop_event(&queue), None);
}

#[test]
fn an_empty_queue_yields_no_work() {
    let queue = new_event_queue();
    let mut state = RenderState::new(800, 600);
    let (events, actions, observed_empty) = process_frame_events(&mut state, &queue, 16_000, 64);
    assert!(events.is_empty());
    assert!(actions.is_empty());
    assert!(observed_empty);
    assert_eq!(state, RenderState::new(800, 600));
}

#[test]
fn run_flag_signals_shutdown() {
    let flag = RunFlag::new();
    assert!(flag.is_running());
    let sharer = flag.clone();
    sharer.request_shutdown();
    assert!(!flag.is_running());
}
