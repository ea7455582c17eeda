//! Decisions of the window event loop and of each frame's tick.
//!
//! The loop itself (window events, UI, swapchain, submission) runs outside
//! the library; it hands each event here and performs the returned action.

use vstd::prelude::*;

use crate::renderer::camera::{key_held, with_key, CameraKey, KeysPressed};

verus! {

/// Milliseconds between throttled redraws while nothing is going on.
pub const IDLE_REDRAW_INTERVAL_MS: u64 = 50;

/// What the event loop keeps between events.
#[derive(Debug, Clone, Copy, PartialEq, Eq)]
pub struct LoopState {
    /// Movement keys held down.
    pub keys: KeysPressed,
    /// The swapchain must be recreated before the next frame.
    pub needs_resize: bool,
    /// Window size last reported by a resize.
    pub window_width: u32,
    pub window_height: u32,
    /// Whether the UI took pointer or keyboard input in the last frame.
    pub ui_wants_pointer: bool,
    pub ui_wants_keyboard: bool,
    /// Clock time (ms) of the next throttled redraw while idle.
    pub next_idle_redraw_ms: u64,
    /// Frames ticked so far.
    pub frame_index: u64,
}

/// An event handed to the loop.
#[derive(Debug, Clone, Copy, PartialEq, Eq)]
pub enum LoopEvent {
    /// The loop is about to wait, at clock time `now_ms`; `other_work` says
    /// whether UI input, streaming or meshing work is queued or the
    /// day-night cycle is running.
    AboutToWait { now_ms: u64, other_work: bool },
    /// Raw mouse motion.
    MouseMotion,
    /// The window was asked to close.
    CloseRequested,
    /// The window was resized.
    Resized { width: u32, height: u32 },
    /// A key went down or up; `camera_key` is the movement key it maps to.
    Key { camera_key: Option<CameraKey>, escape: bool, pressed: bool },
    /// The window asks to be redrawn.
    RedrawRequested,
}

/// What the loop does in answer to an event.
#[derive(Debug, Clone, Copy, PartialEq, Eq)]
pub enum LoopAction {
    /// Ask the window for a redraw.
    RequestRedraw,
    /// Sleep until the given clock time (ms).
    WaitUntil(u64),
    /// Turn the camera by the mouse motion.
    MoveCamera,
    /// Leave the event loop.
    Exit,
    /// Run one frame's tick.
    Tick,
    /// Nothing beyond the state change.
    Nothing,
}

/// How a frame's tick starts, given the window's current size.
#[derive(Debug, Clone, Copy, PartialEq, Eq)]
pub enum TickStart {
    /// The window has no area (minimised): no frame at all.
    Skip,
    /// Recreate the swapchain at this size first.
    RecreateSwapchain { width: u32, height: u32 },
    /// Render right away.
    Render,
}

/// What submitting a frame reported.
#[derive(Debug, Clone, Copy, PartialEq, Eq)]
pub enum SubmitOutcome {
    Submitted,
    /// The swapchain is stale.
    NeedsRecreate,
    /// Submission failed; the failure is reported and the loop goes on.
    Failed,
}

/// The state a fresh loop starts in: nothing held, no resize pending, the
/// UI not capturing input, an idle redraw due at once, frame zero.
pub open spec fn initial_state(width: u32, height: u32, now_ms: u64) -> LoopState {
    LoopState {
        keys: KeysPressed { forward: false, backward: false, left: false, right: false, up: false, down: false },
        needs_resize: false,
        window_width: width,
        window_height: height,
        ui_wants_pointer: false,
        ui_wants_keyboard: false,
        next_idle_redraw_ms: now_ms,
        frame_index: 0,
    }
}

/// A frame is drawn without waiting: a resize is pending, a movement key
/// is held, or other work is under way.
pub open spec fn redraw_now(s: LoopState, other_work: bool) -> bool {
    s.needs_resize || s.keys.forward || s.keys.backward || s.keys.left || s.keys.right || s.keys.up || s.keys.down
        || other_work
}

/// Movement keys after a key event: the UI's keyboard capture hides
/// presses from the camera, but a release always reaches it.
pub open spec fn keys_after(keys: KeysPressed, camera_key: Option<CameraKey>, pressed: bool, ui_wants_keyboard: bool) -> KeysPressed {
    match camera_key {
        Some(k) => if !ui_wants_keyboard {
            with_key(keys, k, pressed)
        } else if !pressed {
            with_key(keys, k, false)
        } else {
            keys
        },
        None => keys,
    }
}

/// The idle-redraw deadline moves only when an idle redraw is granted,
/// and the clock then has room for the interval.
pub open spec fn idle_step_fits(s: LoopState, event: LoopEvent) -> bool {
    match event {
        LoopEvent::AboutToWait { now_ms, other_work } => !redraw_now(s, other_work) && now_ms >= s.next_idle_redraw_ms
            ==> now_ms + IDLE_REDRAW_INTERVAL_MS <= u64::MAX,
        _ => true,
    }
}

/// The action and state that `event` leads to from `s`.
pub open spec fn route_outcome(s: LoopState, event: LoopEvent, s2: LoopState, action: LoopAction) -> bool {
    match event {
        LoopEvent::AboutToWait { now_ms, other_work } => if redraw_now(s, other_work) {
            action == LoopAction::RequestRedraw && s2 == s
        } else if now_ms >= s.next_idle_redraw_ms {
            action == LoopAction::RequestRedraw && s2 == LoopState {
                next_idle_redraw_ms: (now_ms + IDLE_REDRAW_INTERVAL_MS) as u64,
                ..s
            }
        } else {
            action == LoopAction::WaitUntil(s.next_idle_redraw_ms) && s2 == s
        },
        LoopEvent::MouseMotion => s2 == s && action == (if s.ui_wants_pointer {
            LoopAction::Nothing
        } else {
            LoopAction::MoveCamera
        }),
        LoopEvent::CloseRequested => s2 == s && action == LoopAction::Exit,
        LoopEvent::Resized { width, height } => action == LoopAction::Nothing && s2 == LoopState {
            needs_resize: true,
            window_width: width,
            window_height: height,
            ..s
        },
        LoopEvent::Key { camera_key, escape, pressed } => {
            &&& s2 == LoopState { keys: keys_after(s.keys, camera_key, pressed, s.ui_wants_keyboard), ..s }
            &&& action == (if escape && pressed {
                LoopAction::Exit
            } else {
                LoopAction::Nothing
            })
        },
        LoopEvent::RedrawRequested => s2 == s && action == LoopAction::Tick,
    }
}

impl LoopState {
    /// The state a loop starts in for a window of `width` by `height` at
    /// clock time `now_ms`.
    pub fn new(width: u32, height: u32, now_ms: u64) -> (s: LoopState)
        ensures
            s == initial_state(width, height, now_ms),
    {
        LoopState {
            keys: KeysPressed::default(),
            needs_resize: false,
            window_width: width,
            window_height: height,
            ui_wants_pointer: false,
            ui_wants_keyboard: false,
            next_idle_redraw_ms: now_ms,
            frame_index: 0,
        }
    }

    /// Whether a frame should be drawn without waiting.
    pub fn should_redraw_immediately(&self, other_work: bool) -> (b: bool)
        ensures
            b == redraw_now(*self, other_work),
    {
        self.needs_resize || self.keys.any_pressed() || other_work
    }

    /// Routes one event: updates the state and says what the loop does.
    pub fn route_event(&mut self, event: LoopEvent) -> (action: LoopAction)
        requires
            idle_step_fits(*old(self), event),
        ensures
            route_outcome(*old(self), event, *final(self), action),
    {
        match event {
            LoopEvent::AboutToWait { now_ms, other_work } => {
                if self.should_redraw_immediately(other_work) {
                    LoopAction::RequestRedraw
                } else if now_ms >= self.next_idle_redraw_ms {
                    self.next_idle_redraw_ms = now_ms + IDLE_REDRAW_INTERVAL_MS;
                    LoopAction::RequestRedraw
                } else {
                    LoopAction::WaitUntil(self.next_idle_redraw_ms)
                }
            },
            LoopEvent::MouseMotion => {
                if self.ui_wants_pointer {
                    LoopAction::Nothing
                } else {
                    LoopAction::MoveCamera
                }
            },
            LoopEvent::CloseRequested => LoopAction::Exit,
            LoopEvent::Resized { width, height } => {
                self.needs_resize = true;
                self.window_width = width;
                self.window_height = height;
                LoopAction::Nothing
            },
            LoopEvent::Key { camera_key, escape, pressed } => {
                if let Some(k) = camera_key {
                    if !self.ui_wants_keyboard {
                        self.keys.set(k, pressed);
                    } else if !pressed {
                        self.keys.set(k, false);
                    }
                }
                if escape && pressed {
                    LoopAction::Exit
                } else {
                    LoopAction::Nothing
                }
            },
            LoopEvent::RedrawRequested => LoopAction::Tick,
        }
    }

    /// How a tick starts for a window of `width` by `height`: nothing when
    /// it has no area, a swapchain recreation first when one is pending.
    pub fn begin_tick(&self, width: u32, height: u32) -> (t: TickStart)
        ensures
            t == (if width == 0 || height == 0 {
                TickStart::Skip
            } else if self.needs_resize {
                TickStart::RecreateSwapchain { width, height }
            } else {
                TickStart::Render
            }),
    {
        if width == 0 || height == 0 {
            TickStart::Skip
        } else if self.needs_resize {
            TickStart::RecreateSwapchain { width, height }
        } else {
            TickStart::Render
        }
    }

    /// After a swapchain recreation: on success the pending resize is
    /// done and the frame goes on; on failure the resize stays pending and
    /// this tick ends.
    pub fn swapchain_recreated(&mut self, ok: bool) -> (render: bool)
        ensures
            render == ok,
            *final(self) == (if ok {
                LoopState { needs_resize: false, ..*old(self) }
            } else {
                *old(self)
            }),
    {
        if ok {
            self.needs_resize = false;
        }
        ok
    }

    /// Ends a rendered tick: records the UI's input capture for the next
    /// events, flags a resize when the swapchain went stale, and counts the
    /// frame.
    pub fn finish_tick(&mut self, outcome: SubmitOutcome, ui_wants_pointer: bool, ui_wants_keyboard: bool)
        ensures
            *final(self) == (LoopState {
                needs_resize: old(self).needs_resize || outcome == SubmitOutcome::NeedsRecreate,
                ui_wants_pointer,
                ui_wants_keyboard,
                frame_index: if old(self).frame_index == u64::MAX {
                    u64::MAX
                } else {
                    (old(self).frame_index + 1) as u64
                },
                ..*old(self)
            }),
    {
        self.ui_wants_pointer = ui_wants_pointer;
        self.ui_wants_keyboard = ui_wants_keyboard;
        if let SubmitOutcome::NeedsRecreate = outcome {
            self.needs_resize = true;
        }
        self.frame_index = self.frame_index.saturating_add(1);
    }
}

/// Releasing a movement key stops it, whether or not the UI holds the
/// keyboard.
pub proof fn law_release_stops_movement(keys: KeysPressed, k: CameraKey, ui_wants_keyboard: bool)
    ensures
        !key_held(keys_after(keys, Some(k), false, ui_wants_keyboard), k),
{
}

/// While the UI holds the keyboard, no key event starts a movement.
pub proof fn law_ui_keyboard_starts_no_movement(keys: KeysPressed, camera_key: Option<CameraKey>, pressed: bool, k: CameraKey)
    ensures
        key_held(keys_after(keys, camera_key, pressed, true), k) ==> key_held(keys, k),
{
}

/// A resize event leaves a swapchain recreation pending at the new size
/// and counts no frame.
pub proof fn law_resize_leaves_recreation_pending(s: LoopState, width: u32, height: u32, s2: LoopState, action: LoopAction)
    requires
        route_outcome(s, LoopEvent::Resized { width, height }, s2, action),
    ensures
        s2.needs_resize,
        s2.window_width == width && s2.window_height == height,
        s2.frame_index == s.frame_index,
{
}

} // verus!
