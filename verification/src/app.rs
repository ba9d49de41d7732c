use crate::hotkeys::HotkeyEvent;
use crate::tray::TrayEvent;
use vstd::prelude::*;

verus! {

/// Where the main window is in a capture.
#[derive(Clone, Copy, Debug, PartialEq, Eq, Structural)]
pub enum AppState {
    /// Showing the main window.
    Main,
    /// Window hidden, screen capture not started yet.
    WaitingHide,
    /// Screen capture running on another thread.
    Capturing,
}

/// What the app does in a frame.
#[derive(Clone, Copy, Debug, PartialEq, Eq, Structural)]
pub enum FrameStep {
    /// Begin a capture (the request is consumed).
    StartCapture,
    /// Draw the main window.
    ShowMain,
    /// Start the screen capture thread.
    SpawnCapture,
    /// Look whether the capture thread has answered.
    PollCapture,
}

/// What a look at the capture thread's channel found.
#[derive(Clone, Copy, Debug, PartialEq, Eq, Structural)]
pub enum CapturePoll {
    /// An image arrived; the overlay has been shown for it.
    Ready,
    /// The capture failed.
    Failed,
    /// Nothing yet.
    Pending,
    /// The capture thread is gone.
    Lost,
}

/// The app's capture flow: its state and whether a capture was asked for.
pub struct AppFlow {
    state: AppState,
    capture_requested: bool,
}

/// The flow as plain values.
#[derive(Clone, Copy, Debug, PartialEq, Eq, Structural)]
pub struct FlowView {
    pub state: AppState,
    pub capture_requested: bool,
}

impl View for AppFlow {
    type V = FlowView;

    closed spec fn view(&self) -> FlowView {
        FlowView { state: self.state, capture_requested: self.capture_requested }
    }
}

/// The step a frame takes from `f`, and the flow afterwards.
pub open spec fn frame_step(f: FlowView) -> (FlowView, FrameStep) {
    if f.capture_requested {
        (FlowView { capture_requested: false, ..f }, FrameStep::StartCapture)
    } else {
        match f.state {
            AppState::Main => (f, FrameStep::ShowMain),
            AppState::WaitingHide => (f, FrameStep::SpawnCapture),
            AppState::Capturing => (f, FrameStep::PollCapture),
        }
    }
}

/// The flow after a hotkey poll: a capture press asks for a capture while
/// the main window is shown, and is ignored during a capture.
pub open spec fn after_hotkey(f: FlowView, ev: HotkeyEvent) -> FlowView {
    if ev == HotkeyEvent::Capture && f.state == AppState::Main {
        FlowView { capture_requested: true, ..f }
    } else {
        f
    }
}

/// A hotkey press on the main window starts a capture in the next frame,
/// and the request is used up by it.
pub proof fn lemma_hotkey_starts_capture(f: FlowView)
    requires
        f.state == AppState::Main,
    ensures
        frame_step(after_hotkey(f, HotkeyEvent::Capture)).1 == FrameStep::StartCapture,
        !frame_step(after_hotkey(f, HotkeyEvent::Capture)).0.capture_requested,
{
}

/// A hotkey press during a capture changes nothing: the running capture
/// goes on in the next frame.
pub proof fn lemma_hotkey_ignored_while_capturing(f: FlowView)
    requires
        f.state != AppState::Main,
    ensures
        after_hotkey(f, HotkeyEvent::Capture) == f,
{
}

impl AppFlow {
    /// Main window shown, no capture asked for.
    pub fn new() -> (f: Self)
        ensures
            f@ == (FlowView { state: AppState::Main, capture_requested: false }),
    {
        AppFlow { state: AppState::Main, capture_requested: false }
    }

    /// Current state.
    pub fn state(&self) -> (s: AppState)
        ensures
            s == self@.state,
    {
        self.state
    }

    /// Whether a capture is waiting to start.
    pub fn capture_requested(&self) -> (b: bool)
        ensures
            b == self@.capture_requested,
    {
        self.capture_requested
    }

    /// A tray menu event: Screenshot asks for a capture, Quit asks to close
    /// the app (the result), anything else changes nothing.
    pub fn on_tray_event(&mut self, ev: TrayEvent) -> (close: bool)
        ensures
            close == (ev == TrayEvent::Quit),
            final(self)@.state == old(self)@.state,
            final(self)@.capture_requested == (old(self)@.capture_requested || ev
                == TrayEvent::Capture),
    {
        match ev {
            TrayEvent::Capture => {
                self.capture_requested = true;
                false
            },
            TrayEvent::Quit => true,
            _ => false,
        }
    }

    /// A hotkey poll: a capture press asks for a capture, but only while
    /// the main window is shown.
    pub fn on_hotkey_event(&mut self, ev: HotkeyEvent)
        ensures
            final(self)@ == after_hotkey(old(self)@, ev),
    {
        match ev {
            HotkeyEvent::Capture => {
                if self.state == AppState::Main {
                    self.capture_requested = true;
                }
            },
            HotkeyEvent::NoEvent => {},
        }
    }

    /// The Screenshot button of the main window was clicked.
    pub fn on_capture_button(&mut self)
        ensures
            final(self)@ == (FlowView { capture_requested: true, ..old(self)@ }),
    {
        self.capture_requested = true;
    }

    /// Decides what this frame does.
    pub fn next_step(&mut self) -> (s: FrameStep)
        ensures
            (final(self)@, s) == frame_step(old(self)@),
    {
        if self.capture_requested {
            self.capture_requested = false;
            return FrameStep::StartCapture;
        }
        match self.state {
            AppState::Main => FrameStep::ShowMain,
            AppState::WaitingHide => FrameStep::SpawnCapture,
            AppState::Capturing => FrameStep::PollCapture,
        }
    }

    /// A capture began. When the fast path captured the screen and showed
    /// the overlay already, the app is back at the main window; otherwise
    /// it waits to start the capture thread.
    pub fn on_capture_started(&mut self, fast_path_done: bool)
        ensures
            final(self)@.capture_requested == old(self)@.capture_requested,
            final(self)@.state == (if fast_path_done {
                AppState::Main
            } else {
                AppState::WaitingHide
            }),
    {
        if fast_path_done {
            self.state = AppState::Main;
        } else {
            self.state = AppState::WaitingHide;
        }
    }

    /// The capture thread was started.
    pub fn on_capture_spawned(&mut self)
        ensures
            final(self)@ == (FlowView { state: AppState::Capturing, ..old(self)@ }),
    {
        self.state = AppState::Capturing;
    }

    /// What the capture thread answered. Any answer but `Pending` ends the
    /// capture and brings back the main window (the result says so).
    pub fn on_capture_polled(&mut self, poll: CapturePoll) -> (finished: bool)
        ensures
            finished == (poll != CapturePoll::Pending),
            final(self)@.capture_requested == old(self)@.capture_requested,
            final(self)@.state == (if finished {
                AppState::Main
            } else {
                old(self)@.state
            }),
    {
        match poll {
            CapturePoll::Pending => false,
            _ => {
                self.state = AppState::Main;
                true
            },
        }
    }
}

/// Delay in milliseconds between hiding the main window and the fast capture.
pub const CAPTURE_HIDE_DELAY_MS: u64 = 2;

} // verus!
