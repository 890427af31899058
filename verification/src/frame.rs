//! The per-frame decisions of the render loop.
//!
//! Once per frame the render thread drains the cross-thread event queue and
//! applies every drained event to its state. This module holds that logic
//! as a pure transition system: [`step_state`] and [`step_action`] say what
//! one event does, [`apply_event`] and [`apply_events`] execute it, and the
//! lemmas at the end state the laws of the transition system. The actions
//! returned to the caller name the outside work — recreating the GPU render
//! targets, rotating the camera and pushing its uniform — that the
//! unverified frame loop then performs.

use vstd::prelude::*;
use vstd::arithmetic::div_mod::{
    lemma_add_mod_noop, lemma_mod_bound, lemma_mod_self_0, lemma_small_mod,
};
use crossbeam_queue::SegQueue;
use crate::events::{KeyId, WindowEvent};
use crate::queue::drain_events;

verus! {

/// One full turn around the vertical axis, in microdegrees.
pub const FULL_TURN_MICRODEG: u64 = 360_000_000;

/// The camera's angular rate under a held arrow key, in microdegrees per
/// microsecond: 180 degrees per second. Scaling by the elapsed frame time
/// keeps the rotation rate independent of the frame rate.
pub const CAMERA_SPIN_RATE: u64 = 180;

/// The sense of a camera rotation around the vertical axis.
#[derive(Clone, Copy, Debug, PartialEq, Eq, Structural)]
pub enum SpinDirection {
    /// The left arrow key: a negative rotation around the vertical axis.
    Clockwise,
    /// The right arrow key: a positive rotation around the vertical axis.
    CounterClockwise,
}

/// Outside work that one event asks of the frame loop. The caller performs
/// each action in order before it records the next frame.
#[derive(Clone, Copy, Debug, PartialEq, Eq, Structural)]
pub enum FrameAction {
    /// Drain the GPU, reconfigure the presentation surface at the new
    /// size, and recreate the accumulation, revealage and depth targets
    /// together with their bind group.
    RecreateTargets { width: u32, height: u32 },
    /// Rotate the camera by the given angle around the vertical axis and
    /// push its uniform buffer to the GPU.
    RotateCamera { direction: SpinDirection, microdeg: u64 },
}

/// The plain state the render loop carries from frame to frame: the size
/// the surface and the render targets are configured at, and the net yaw
/// the arrow keys have applied to the camera.
#[derive(Clone, Copy, Debug, PartialEq, Eq, Structural)]
pub struct RenderState {
    /// Width of the configured surface and render targets, in pixels.
    pub surface_width: u32,
    /// Height of the configured surface and render targets, in pixels.
    pub surface_height: u32,
    /// The accumulated camera yaw from key input, normalized into
    /// `[0, FULL_TURN_MICRODEG)`.
    pub camera_yaw_microdeg: u64,
}

impl RenderState {
    /// The state is well formed while the configured size is positive —
    /// degenerate resizes are never applied — and the yaw is normalized.
    pub open spec fn wf(self) -> bool {
        &&& self.surface_width > 0
        &&& self.surface_height > 0
        &&& self.camera_yaw_microdeg < FULL_TURN_MICRODEG
    }

    /// The initial state at the given window size.
    pub fn new(width: u32, height: u32) -> (r: Self)
        requires
            width > 0,
            height > 0,
        ensures
            r.wf(),
            r.surface_width == width,
            r.surface_height == height,
            r.camera_yaw_microdeg == 0,
    {
        RenderState { surface_width: width, surface_height: height, camera_yaw_microdeg: 0 }
    }
}

/// The yaw a key press applies over `dt_micros` microseconds of frame
/// time, in microdegrees. At 180 degrees per second this stays far below
/// `u64::MAX` for any frame time.
pub open spec fn spin_magnitude(dt_micros: u32) -> u64 {
    (CAMERA_SPIN_RATE * dt_micros) as u64
}

/// The yaw after a rotation of `delta` microdegrees (of either sign),
/// normalized into `[0, FULL_TURN_MICRODEG)`.
pub open spec fn wrap_yaw(yaw: u64, delta: int) -> int {
    (yaw + delta) % (FULL_TURN_MICRODEG as int)
}

/// What one event does to the render state:
/// - a resize to a positive size reconfigures the stored dimensions, and a
///   resize with a zero width or height is ignored entirely;
/// - a press of an arrow key turns the camera by the frame-time-scaled
///   angle, clockwise for the left arrow and counter-clockwise for the
///   right;
/// - every other event leaves the state unchanged.
pub open spec fn step_state(s: RenderState, e: WindowEvent, dt_micros: u32) -> RenderState {
    match e {
        WindowEvent::Resized { width, height } => {
            if width > 0 && height > 0 {
                RenderState { surface_width: width, surface_height: height, ..s }
            } else {
                s
            }
        },
        WindowEvent::Key { key, pressed } => {
            if pressed && key == KeyId::ArrowLeft {
                RenderState {
                    camera_yaw_microdeg: wrap_yaw(
                        s.camera_yaw_microdeg,
                        -(spin_magnitude(dt_micros) as int),
                    ) as u64,
                    ..s
                }
            } else if pressed && key == KeyId::ArrowRight {
                RenderState {
                    camera_yaw_microdeg: wrap_yaw(
                        s.camera_yaw_microdeg,
                        spin_magnitude(dt_micros) as int,
                    ) as u64,
                    ..s
                }
            } else {
                s
            }
        },
        _ => s,
    }
}

/// The outside work one event asks for, if any: exactly the resizes with a
/// positive size and the presses of the two arrow keys produce an action.
pub open spec fn step_action(s: RenderState, e: WindowEvent, dt_micros: u32) -> Option<
    FrameAction,
> {
    match e {
        WindowEvent::Resized { width, height } => {
            if width > 0 && height > 0 {
                Some(FrameAction::RecreateTargets { width, height })
            } else {
                None
            }
        },
        WindowEvent::Key { key, pressed } => {
            if pressed && key == KeyId::ArrowLeft {
                Some(
                    FrameAction::RotateCamera {
                        direction: SpinDirection::Clockwise,
                        microdeg: spin_magnitude(dt_micros),
                    },
                )
            } else if pressed && key == KeyId::ArrowRight {
                Some(
                    FrameAction::RotateCamera {
                        direction: SpinDirection::CounterClockwise,
                        microdeg: spin_magnitude(dt_micros),
                    },
                )
            } else {
                None
            }
        },
        _ => None,
    }
}

/// The state after a whole sequence of events, applied in arrival order.
pub open spec fn fold_state(s: RenderState, events: Seq<WindowEvent>, dt_micros: u32) -> RenderState
    decreases events.len(),
{
    if events.len() == 0 {
        s
    } else {
        fold_state(step_state(s, events[0], dt_micros), events.subrange(1, events.len() as int), dt_micros)
    }
}

/// The actions a whole sequence of events asks for, in arrival order.
pub open spec fn fold_actions(s: RenderState, events: Seq<WindowEvent>, dt_micros: u32) -> Seq<
    FrameAction,
>
    decreases events.len(),
{
    if events.len() == 0 {
        Seq::empty()
    } else {
        let rest = fold_actions(
            step_state(s, events[0], dt_micros),
            events.subrange(1, events.len() as int),
            dt_micros,
        );
        match step_action(s, events[0], dt_micros) {
            Some(a) => seq![a] + rest,
            None => rest,
        }
    }
}

/// Applies one drained event to the render state and returns the outside
/// work it asks for, exactly as [`step_state`] and [`step_action`] say.
pub fn apply_event(state: &mut RenderState, event: &WindowEvent, dt_micros: u32) -> (action:
    Option<FrameAction>)
    requires
        old(state).wf(),
    ensures
        final(state).wf(),
        *final(state) == step_state(*old(state), *event, dt_micros),
        action == step_action(*old(state), *event, dt_micros),
{
    match *event {
        WindowEvent::Resized { width, height } => {
            if width > 0 && height > 0 {
                state.surface_width = width;
                state.surface_height = height;
                Some(FrameAction::RecreateTargets { width, height })
            } else {
                None
            }
        },
        WindowEvent::Key { key, pressed } => {
            if pressed && key == KeyId::ArrowLeft {
                let magnitude: u64 = (dt_micros as u64) * CAMERA_SPIN_RATE;
                state.camera_yaw_microdeg = spin_clockwise(state.camera_yaw_microdeg, magnitude);
                Some(
                    FrameAction::RotateCamera {
                        direction: SpinDirection::Clockwise,
                        microdeg: magnitude,
                    },
                )
            } else if pressed && key == KeyId::ArrowRight {
                let magnitude: u64 = (dt_micros as u64) * CAMERA_SPIN_RATE;
                state.camera_yaw_microdeg = spin_counter_clockwise(
                    state.camera_yaw_microdeg,
                    magnitude,
                );
                Some(
                    FrameAction::RotateCamera {
                        direction: SpinDirection::CounterClockwise,
                        microdeg: magnitude,
                    },
                )
            } else {
                None
            }
        },
        _ => None,
    }
}

/// Normalized yaw after a clockwise (negative) turn of `magnitude`
/// microdegrees.
fn spin_clockwise(yaw: u64, magnitude: u64) -> (r: u64)
    requires
        yaw < FULL_TURN_MICRODEG,
    ensures
        r == wrap_yaw(yaw, -(magnitude as int)),
        r < FULL_TURN_MICRODEG,
{
    let reduced: u64 = magnitude % FULL_TURN_MICRODEG;
    let r: u64 = (yaw + FULL_TURN_MICRODEG - reduced) % FULL_TURN_MICRODEG;
    proof {
        let f = FULL_TURN_MICRODEG as int;
        lemma_mod_bound(magnitude as int, f);
        lemma_mod_self_0(f);
        lemma_add_mod_noop(yaw as int, f, f);
        lemma_small_mod(yaw as nat, f as nat);
        lemma_add_mod_noop(yaw - magnitude, magnitude as int, f);
        lemma_mod_bound(yaw - magnitude, f);
        lemma_small_mod(((yaw - magnitude) % f) as nat, f as nat);
        assert((yaw + f - reduced) % f == (yaw - magnitude) % f) by {
            lemma_add_mod_noop(yaw + f - reduced, magnitude as int, f);
            lemma_mod_bound(yaw + f - reduced, f);
        };
    }
    r
}

/// Normalized yaw after a counter-clockwise (positive) turn of `magnitude`
/// microdegrees.
fn spin_counter_clockwise(yaw: u64, magnitude: u64) -> (r: u64)
    requires
        yaw < FULL_TURN_MICRODEG,
    ensures
        r == wrap_yaw(yaw, magnitude as int),
        r < FULL_TURN_MICRODEG,
{
    let reduced: u64 = magnitude % FULL_TURN_MICRODEG;
    let r: u64 = (yaw + reduced) % FULL_TURN_MICRODEG;
    proof {
        let f = FULL_TURN_MICRODEG as int;
        lemma_mod_bound(magnitude as int, f);
        lemma_add_mod_noop(yaw as int, magnitude as int, f);
        lemma_small_mod(yaw as nat, f as nat);
        lemma_mod_twice_like(yaw as int, magnitude as int, f);
    }
    r
}

/// `(x + y % m) % m == (x + y) % m` for a positive modulus.
proof fn lemma_mod_twice_like(x: int, y: int, m: int)
    requires
        m > 0,
        0 <= x < m,
    ensures
        (x + y % m) % m == (x + y) % m,
{
    lemma_add_mod_noop(x, y, m);
    lemma_small_mod(x as nat, m as nat);
}

/// Applies every drained event in arrival order and returns the actions
/// they ask for, in the same order.
pub fn apply_events(state: &mut RenderState, events: &Vec<WindowEvent>, dt_micros: u32) -> (actions:
    Vec<FrameAction>)
    requires
        old(state).wf(),
    ensures
        final(state).wf(),
        *final(state) == fold_state(*old(state), events@, dt_micros),
        actions@ == fold_actions(*old(state), events@, dt_micros),
{
    let ghost s0 = *state;
    let mut actions: Vec<FrameAction> = Vec::new();
    let n: usize = events.len();
    let mut i: usize = 0;
    proof {
        assert(events@.subrange(0, n as int) =~= events@);
        assert(Seq::<FrameAction>::empty() + fold_actions(s0, events@, dt_micros)
            =~= fold_actions(s0, events@, dt_micros));
    }
    while i < n
        invariant
            i <= n,
            n == events@.len(),
            state.wf(),
            fold_state(s0, events@, dt_micros) == fold_state(
                *state,
                events@.subrange(i as int, n as int),
                dt_micros,
            ),
            fold_actions(s0, events@, dt_micros) == actions@ + fold_actions(
                *state,
                events@.subrange(i as int, n as int),
                dt_micros,
            ),
        decreases n - i,
    {
        let ghost suffix = events@.subrange(i as int, n as int);
        proof {
            assert(suffix.len() > 0);
            assert(suffix[0] == events@[i as int]);
            assert(suffix.subrange(1, suffix.len() as int) =~= events@.subrange(
                i + 1,
                n as int,
            ));
        }
        let action = apply_event(state, &events[i], dt_micros);
        if let Some(a) = action {
            actions.push(a);
        }
        proof {
            assert(fold_actions(s0, events@, dt_micros) == actions@ + fold_actions(
                *state,
                events@.subrange(i + 1, n as int),
                dt_micros,
            )) by {
                assert(actions@ + fold_actions(*state, events@.subrange(i + 1, n as int), dt_micros)
                    =~= fold_actions(s0, events@, dt_micros));
            };
        }
        i = i + 1;
    }
    proof {
        assert(events@.subrange(n as int, n as int) =~= Seq::<WindowEvent>::empty());
    }
    actions
}

/// The frame timer's advance: the elapsed time between the previous tick
/// and this one, in microseconds, clamped into `u32`. A non-monotonic
/// clock reading counts as no elapsed time rather than as a huge one.
pub fn elapsed_micros(prev_micros: u64, now_micros: u64) -> (dt: u32)
    ensures
        now_micros < prev_micros ==> dt == 0,
        now_micros >= prev_micros && now_micros - prev_micros <= u32::MAX ==> dt == now_micros
            - prev_micros,
        now_micros >= prev_micros && now_micros - prev_micros > u32::MAX ==> dt == u32::MAX,
{
    if now_micros < prev_micros {
        0
    } else {
        let diff: u64 = now_micros - prev_micros;
        if diff > u32::MAX as u64 {
            u32::MAX
        } else {
            diff as u32
        }
    }
}

/// One round of a frame's event handling: drains up to `max_events`
/// events from the cross-thread queue and applies them in arrival order.
/// Returns the drained events, the actions they ask for — the state and
/// the actions are exactly the fold of the transition system over the
/// drained sequence — and whether the queue was observed empty. The frame
/// loop repeats the round until the queue is observed empty, so the whole
/// queue is drained before any frame is recorded; a round that did not
/// observe the queue empty drained exactly `max_events` events.
pub fn process_frame_events(
    state: &mut RenderState,
    queue: &SegQueue<WindowEvent>,
    dt_micros: u32,
    max_events: usize,
) -> (r: (Vec<WindowEvent>, Vec<FrameAction>, bool))
    requires
        old(state).wf(),
    ensures
        final(state).wf(),
        r.0@.len() <= max_events,
        !r.2 ==> r.0@.len() == max_events,
        *final(state) == fold_state(*old(state), r.0@, dt_micros),
        r.1@ == fold_actions(*old(state), r.0@, dt_micros),
{
    let (events, observed_empty) = drain_events(queue, max_events);
    let actions = apply_events(state, &events, dt_micros);
    (events, actions, observed_empty)
}

/// A resize event carrying a zero width or height leaves the state — and
/// with it every configured GPU resource — untouched, and asks for no
/// outside work at all.
pub proof fn lemma_degenerate_resize_ignored(
    s: RenderState,
    width: u32,
    height: u32,
    dt_micros: u32,
)
    requires
        width == 0 || height == 0,
    ensures
        step_state(s, WindowEvent::Resized { width, height }, dt_micros) == s,
        step_action(s, WindowEvent::Resized { width, height }, dt_micros) is None,
{
}

/// Applying the same resize twice in a row is the same as applying it
/// once: the second application neither changes the state further nor asks
/// for different work than a single one.
pub proof fn lemma_resize_idempotent(s: RenderState, width: u32, height: u32, dt_micros: u32)
    ensures
        step_state(
            step_state(s, WindowEvent::Resized { width, height }, dt_micros),
            WindowEvent::Resized { width, height },
            dt_micros,
        ) == step_state(s, WindowEvent::Resized { width, height }, dt_micros),
        step_action(
            step_state(s, WindowEvent::Resized { width, height }, dt_micros),
            WindowEvent::Resized { width, height },
            dt_micros,
        ) == step_action(s, WindowEvent::Resized { width, height }, dt_micros),
{
}

/// A press of the left arrow and a press of the right arrow over the same
/// frame time ask for rotations of the same magnitude in opposite
/// directions, and applying the two presses one after the other restores
/// the state exactly.
pub proof fn lemma_opposite_spins_cancel(s: RenderState, dt_micros: u32)
    requires
        s.wf(),
    ensures
        step_state(
            step_state(s, WindowEvent::Key { key: KeyId::ArrowLeft, pressed: true }, dt_micros),
            WindowEvent::Key { key: KeyId::ArrowRight, pressed: true },
            dt_micros,
        ) == s,
        step_state(
            step_state(s, WindowEvent::Key { key: KeyId::ArrowRight, pressed: true }, dt_micros),
            WindowEvent::Key { key: KeyId::ArrowLeft, pressed: true },
            dt_micros,
        ) == s,
        step_action(s, WindowEvent::Key { key: KeyId::ArrowLeft, pressed: true }, dt_micros)
            == Some(
            FrameAction::RotateCamera {
                direction: SpinDirection::Clockwise,
                microdeg: spin_magnitude(dt_micros),
            },
        ),
        step_action(s, WindowEvent::Key { key: KeyId::ArrowRight, pressed: true }, dt_micros)
            == Some(
            FrameAction::RotateCamera {
                direction: SpinDirection::CounterClockwise,
                microdeg: spin_magnitude(dt_micros),
            },
        ),
{
    let f = FULL_TURN_MICRODEG as int;
    let m = spin_magnitude(dt_micros) as int;
    let y = s.camera_yaw_microdeg as int;
    lemma_mod_bound(y - m, f);
    lemma_mod_bound(y + m, f);
    assert(((y - m) % f + m) % f == y) by {
        lemma_add_mod_noop((y - m) % f, m, f);
        lemma_mod_twice(y - m, f);
        lemma_small_mod(y as nat, f as nat);
        assert(((y - m) % f + m % f) % f == (y - m + m) % f) by {
            lemma_add_mod_noop(y - m, m, f);
        };
    };
    assert(((y + m) % f - m) % f == y) by {
        lemma_add_mod_noop((y + m) % f, -m, f);
        lemma_mod_twice(y + m, f);
        lemma_small_mod(y as nat, f as nat);
        assert(((y + m) % f + (-m) % f) % f == (y + m + (-m)) % f) by {
            lemma_add_mod_noop(y + m, -m, f);
        };
    };
}

/// `(x % m) % m == x % m`.
proof fn lemma_mod_twice(x: int, m: int)
    requires
        m > 0,
    ensures
        (x % m) % m == x % m,
{
    lemma_mod_bound(x, m);
    lemma_small_mod((x % m) as nat, m as nat);
}

} // verus!
