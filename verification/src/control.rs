//! The control-surface side of the protocol: the user-interface events and
//! the decision rules that turn them into messages for the audio thread.
//! The surrounding application runs the event loop and performs the sends;
//! the decisions — which message a button press produces, and how the
//! surface's own state evolves — live here.

use vstd::prelude::*;

use crate::audio_thread::GuiToAudioMsg;

verus! {

/// A user-interface event on the control surface.
#[derive(Debug, Clone, Copy)]
pub enum Message {
    /// A periodic animation tick; it never reaches the audio thread.
    Tick,
    /// A knob with the given parameter id moved; the knob widgets turn
    /// this into a `ParamChanged` message themselves.
    ParamMoved(u32),
    PlayPauseBtnPressed,
    StopBtnPressed,
    BypassBtnPressed,
    PanicBtnPressed,
}

/// How many decimal places a knob's value label shows.
#[derive(Clone, Copy)]
pub enum DecimalPlaces {
    One,
    Two,
}

/// A knob over a fixed list of named options, described by plain values;
/// `value` and `default_value` index into `options`.
pub struct OptionKnob {
    pub label: &'static str,
    pub value: u32,
    pub default_value: u32,
    pub options: Vec<String>,
}

/// The control surface's own transport-and-bypass bookkeeping: what the
/// play/pause button currently means, whether the engine was asked to
/// bypass, and whether a backing track was loaded at startup.
#[derive(Debug, Clone, Copy)]
pub struct ControlState {
    pub play_pause_btn_stopped: bool,
    pub bypassed: bool,
    pub audio_file_loaded: bool,
}

/// The control state after one user-interface event.
pub open spec fn control_step_state(s: ControlState, msg: Message) -> ControlState {
    match msg {
        Message::PlayPauseBtnPressed => if s.audio_file_loaded {
            ControlState { play_pause_btn_stopped: !s.play_pause_btn_stopped, ..s }
        } else {
            s
        },
        Message::StopBtnPressed => if s.audio_file_loaded {
            ControlState { play_pause_btn_stopped: true, ..s }
        } else {
            s
        },
        Message::BypassBtnPressed => ControlState { bypassed: !s.bypassed, ..s },
        Message::PanicBtnPressed => ControlState { play_pause_btn_stopped: true, ..s },
        _ => s,
    }
}

/// The message one user-interface event sends to the audio thread, if any.
pub open spec fn control_step_send<S>(s: ControlState, msg: Message) -> Option<GuiToAudioMsg<S>> {
    match msg {
        Message::PlayPauseBtnPressed => if s.audio_file_loaded {
            if s.play_pause_btn_stopped {
                Some(GuiToAudioMsg::Play)
            } else {
                Some(GuiToAudioMsg::Pause)
            }
        } else {
            None
        },
        Message::StopBtnPressed => if s.audio_file_loaded {
            Some(GuiToAudioMsg::Stop)
        } else {
            None
        },
        Message::BypassBtnPressed => if s.bypassed {
            Some(GuiToAudioMsg::Unbypass)
        } else {
            Some(GuiToAudioMsg::Bypass)
        },
        Message::PanicBtnPressed => Some(GuiToAudioMsg::Panic),
        _ => None,
    }
}

impl ControlState {
    /// The surface as it starts: play/pause reads "play", not bypassed.
    pub fn new(audio_file_loaded: bool) -> (r: Self)
        ensures
            r == (ControlState { play_pause_btn_stopped: true, bypassed: false, audio_file_loaded }),
    {
        ControlState { play_pause_btn_stopped: true, bypassed: false, audio_file_loaded }
    }

    /// Decides what one user-interface event does: how the surface's state
    /// changes, and which message, if any, to send to the audio thread.
    /// Transport buttons are dead until a backing track was loaded; the
    /// bypass button toggles; panic resets the play/pause button.
    pub fn update<S>(&mut self, msg: Message) -> (send: Option<GuiToAudioMsg<S>>)
        ensures
            *final(self) == control_step_state(*old(self), msg),
            send == control_step_send::<S>(*old(self), msg),
    {
        match msg {
            Message::PlayPauseBtnPressed => {
                if self.audio_file_loaded {
                    let send: Option<GuiToAudioMsg<S>> = if self.play_pause_btn_stopped {
                        Some(GuiToAudioMsg::Play)
                    } else {
                        Some(GuiToAudioMsg::Pause)
                    };
                    self.play_pause_btn_stopped = !self.play_pause_btn_stopped;
                    send
                } else {
                    None
                }
            },
            Message::StopBtnPressed => {
                if self.audio_file_loaded {
                    self.play_pause_btn_stopped = true;
                    Some(GuiToAudioMsg::Stop)
                } else {
                    None
                }
            },
            Message::BypassBtnPressed => {
                let send: Option<GuiToAudioMsg<S>> = if self.bypassed {
                    Some(GuiToAudioMsg::Unbypass)
                } else {
                    Some(GuiToAudioMsg::Bypass)
                };
                self.bypassed = !self.bypassed;
                send
            },
            Message::PanicBtnPressed => {
                self.play_pause_btn_stopped = true;
                Some(GuiToAudioMsg::Panic)
            },
            Message::Tick => None,
            Message::ParamMoved(_) => None,
        }
    }
}

} // verus!
