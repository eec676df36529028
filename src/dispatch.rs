use vstd::prelude::*;
use crate::clipboard::{ClipboardError, ClipboardManager};
use crate::input_sim::{InputSimulator, InputSpeed, Pacing, profile};

verus! {

/// Seconds of grace before typing starts, to let the user focus a window.
pub const COUNTDOWN_SECS: u64 = 3;

/// A request from the console or the hotkey listener. Numeric parameters
/// arrive already read; `None` stands for input that did not parse.
#[derive(Debug, Clone, Copy, PartialEq, Eq, Structural)]
pub enum Action {
    CaptureClipboard,
    SimulateTyping,
    ShowBuffer,
    SetDelay(Option<u64>),
    SetSpeedMode(Option<InputSpeed>),
    CustomParams(Option<u64>, Option<usize>, Option<u64>),
    Exit,
    HotkeyTriggered,
}

/// What the dispatcher reports to the console.
#[derive(Debug, Clone, Copy, PartialEq, Eq, Structural)]
pub enum Notice {
    Captured,
    CaptureFailed(ClipboardError),
    BufferEmpty,
    DelaySet(u64),
    InvalidNumber,
    SpeedSet(InputSpeed),
    InvalidSpeedChoice,
    CustomSet(Pacing),
    ZeroBatchSize,
}

/// The work that an action leaves for the loop around the dispatcher.
pub enum Effect {
    /// Read the clipboard and hand the result to `on_captured`, with
    /// `then_type` passed along.
    Capture { then_type: bool },
    /// Wait `countdown_secs`, then type `text` with the simulator's pacing.
    Type { text: String, countdown_secs: u64 },
    /// Show the buffer's content, or that it is empty.
    Show(Option<String>),
    /// Report a notice.
    Report(Notice),
    /// Leave the loop: the dispatcher has terminated.
    Terminate,
}

/// The one owner of the session's state: the captured text, the speed
/// configuration and whether the loop runs. Actions are handled one at a
/// time, each fully before the next.
pub struct Dispatcher {
    pub clipboard: ClipboardManager,
    pub simulator: InputSimulator,
    pub running: bool,
}

/// The effect of asking to type: the buffer's text after the countdown, when
/// there is text and the batch size is usable.
pub open spec fn typing_effect(buffer: Option<String>, pacing: Pacing, effect: Effect) -> bool {
    match buffer {
        None => effect == Effect::Report(Notice::BufferEmpty),
        Some(text) => if pacing.batch_size == 0 {
            effect == Effect::Report(Notice::ZeroBatchSize)
        } else {
            effect == (Effect::Type { text, countdown_secs: COUNTDOWN_SECS })
        },
    }
}

impl Dispatcher {
    /// An empty buffer, ten milliseconds per character, running.
    pub fn new() -> (r: Dispatcher)
        ensures
            r.clipboard.buffer is None,
            r.simulator.pacing == (Pacing { delay_ms: 10, batch_size: 1, batch_delay_ms: 0 }),
            r.running,
    {
        Dispatcher {
            clipboard: ClipboardManager::new(),
            simulator: InputSimulator::with_delay(10),
            running: true,
        }
    }

    fn typing_request(&self) -> (r: Effect)
        ensures
            typing_effect(self.clipboard.buffer, self.simulator.pacing, r),
    {
        match self.clipboard.get_buffer() {
            None => Effect::Report(Notice::BufferEmpty),
            Some(text) => if self.simulator.pacing.batch_size == 0 {
                Effect::Report(Notice::ZeroBatchSize)
            } else {
                Effect::Type { text: text.clone(), countdown_secs: COUNTDOWN_SECS }
            },
        }
    }

    /// Handles one action. Only `Exit` stops the loop; only the speed
    /// actions change the pacing; no action here touches the buffer.
    pub fn handle(&mut self, action: Action) -> (r: Effect)
        requires
            old(self).running,
        ensures
            final(self).clipboard.buffer == old(self).clipboard.buffer,
            final(self).running == (action != Action::Exit),
            match action {
                Action::CaptureClipboard => r == (Effect::Capture { then_type: false }),
                Action::HotkeyTriggered => r == (Effect::Capture { then_type: true }),
                Action::SimulateTyping => typing_effect(
                    old(self).clipboard.buffer,
                    old(self).simulator.pacing,
                    r,
                ),
                Action::ShowBuffer => r == Effect::Show(old(self).clipboard.buffer),
                Action::SetDelay(Some(d)) => r == Effect::Report(Notice::DelaySet(d))
                    && final(self).simulator.pacing == (Pacing {
                    delay_ms: d,
                    ..old(self).simulator.pacing
                }),
                Action::SetSpeedMode(Some(m)) => r == Effect::Report(Notice::SpeedSet(m))
                    && final(self).simulator.pacing == profile(m)
                    && final(self).simulator.speed_mode == m,
                Action::CustomParams(d, b, bd) => {
                    let p = old(self).simulator.pacing;
                    let q = Pacing {
                        delay_ms: if let Some(x) = d { x } else { p.delay_ms },
                        batch_size: if let Some(x) = b { x } else { p.batch_size },
                        batch_delay_ms: if let Some(x) = bd { x } else { p.batch_delay_ms },
                    };
                    r == Effect::Report(Notice::CustomSet(q)) && final(self).simulator.pacing == q
                },
                Action::Exit => r == Effect::Terminate,
                Action::SetDelay(None) => r == Effect::Report(Notice::InvalidNumber),
                Action::SetSpeedMode(None) => r == Effect::Report(Notice::InvalidSpeedChoice),
            },
            match action {
                Action::SetDelay(Some(_)) | Action::SetSpeedMode(Some(_)) | Action::CustomParams(
                    _,
                    _,
                    _,
                ) => true,
                _ => final(self).simulator.pacing == old(self).simulator.pacing
                    && final(self).simulator.speed_mode == old(self).simulator.speed_mode,
            },
    {
        match action {
            Action::CaptureClipboard => Effect::Capture { then_type: false },
            Action::HotkeyTriggered => Effect::Capture { then_type: true },
            Action::SimulateTyping => self.typing_request(),
            Action::ShowBuffer => Effect::Show(self.clipboard.buffer.clone()),
            Action::SetDelay(Some(d)) => {
                self.simulator.set_delay(d);
                Effect::Report(Notice::DelaySet(d))
            },
            Action::SetDelay(None) => Effect::Report(Notice::InvalidNumber),
            Action::SetSpeedMode(Some(m)) => {
                self.simulator.set_speed_mode(m);
                Effect::Report(Notice::SpeedSet(m))
            },
            Action::SetSpeedMode(None) => Effect::Report(Notice::InvalidSpeedChoice),
            Action::CustomParams(d, b, bd) => {
                let p = self.simulator.pacing();
                let delay_ms = match d {
                    Some(x) => x,
                    None => p.delay_ms,
                };
                let batch_size = match b {
                    Some(x) => x,
                    None => p.batch_size,
                };
                let batch_delay_ms = match bd {
                    Some(x) => x,
                    None => p.batch_delay_ms,
                };
                self.simulator.set_custom_params(delay_ms, batch_size, batch_delay_ms);
                Effect::Report(Notice::CustomSet(self.simulator.pacing()))
            },
            Action::Exit => {
                self.running = false;
                Effect::Terminate
            },
        }
    }

    /// Takes the result of a clipboard read that `Capture` asked for. A read
    /// text replaces the buffer; with `then_type` it is then typed as
    /// `SimulateTyping` would. A failed read leaves the buffer as it was.
    pub fn on_captured(&mut self, read: Result<String, ClipboardError>, then_type: bool) -> (r:
        Effect)
        ensures
            final(self).simulator == old(self).simulator,
            final(self).running == old(self).running,
            match read {
                Ok(text) => final(self).clipboard.buffer == Some(text) && if then_type {
                    typing_effect(Some(text), old(self).simulator.pacing, r)
                } else {
                    r == Effect::Report(Notice::Captured)
                },
                Err(e) => final(self).clipboard.buffer == old(self).clipboard.buffer && r
                    == Effect::Report(Notice::CaptureFailed(e)),
            },
    {
        match self.clipboard.capture_clipboard(read) {
            Ok(()) => if then_type {
                self.typing_request()
            } else {
                Effect::Report(Notice::Captured)
            },
            Err(e) => Effect::Report(Notice::CaptureFailed(e)),
        }
    }
}

} // verus!
