//! The control surface's decision rules and theming data.

use dsp_box::style::KnobArcColors;
use dsp_box::style::Rgb;
use dsp_box::ControlState;
use dsp_box::GuiToAudioMsg;
use dsp_box::Message;
use dsp_box::OptionKnob;
use dsp_box::Theme;

#[test]
fn play_pause_button_alternates() {
    let mut s = ControlState::new(true);
    let m1: Option<GuiToAudioMsg<f32>> = s.update(Message::PlayPauseBtnPressed);
    assert!(matches!(m1, Some(GuiToAudioMsg::Play)));
    assert!(!s.play_pause_btn_stopped);
    let m2: Option<GuiToAudioMsg<f32>> = s.update(Message::PlayPauseBtnPressed);
    assert!(matches!(m2, Some(GuiToAudioMsg::Pause)));
    assert!(s.play_pause_btn_stopped);
}

#[test]
fn transport_buttons_are_dead_without_a_file() {
    let mut s = ControlState::new(false);
    let m1: Option<GuiToAudioMsg<f32>> = s.update(Message::PlayPauseBtnPressed);
    assert!(m1.is_none());
    let m2: Option<GuiToAudioMsg<f32>> = s.update(Message::StopBtnPressed);
    assert!(m2.is_none());
    assert!(s.play_pause_btn_stopped);
}

#[test]
fn stop_button_resets_the_play_pause_button() {
    let mut s = ControlState::new(true);
    let _: Option<GuiToAudioMsg<f32>> = s.update(Message::PlayPauseBtnPressed);
    let m: Option<GuiToAudioMsg<f32>> = s.update(Message::StopBtnPressed);
    assert!(matches!(m, Some(GuiToAudioMsg::Stop)));
    assert!(s.play_pause_btn_stopped);
}

#[test]
fn bypass_button_toggles() {
    let mut s = ControlState::new(true);
    let m1: Option<GuiToAudioMsg<f32>> = s.update(Message::BypassBtnPressed);
    assert!(matches!(m1, Some(GuiToAudioMsg::Bypass)));
    assert!(s.bypassed);
    let m2: Option<GuiToAudioMsg<f32>> = s.update(Message::BypassBtnPressed);
    assert!(matches!(m2, Some(GuiToAudioMsg::Unbypass)));
    assert!(!s.bypassed);
}

#[test]
fn panic_button_sends_panic_and_resets_play_pause() {
    let mut s = ControlState::new(true);
    let _: Option<GuiToAudioMsg<f32>> = s.update(Message::PlayPauseBtnPressed);
    let m: Option<GuiToAudioMsg<f32>> = s.update(Message::PanicBtnPressed);
    assert!(matches!(m, Some(GuiToAudioMsg::Panic)));
    assert!(s.play_pause_btn_stopped);
}

#[test]
fn ticks_and_knob_moves_send_nothing_here() {
    let mut s = ControlState::new(true);
    let m1: Option<GuiToAudioMsg<f32>> = s.update(Message::Tick);
    assert!(m1.is_none());
    let m2: Option<GuiToAudioMsg<f32>> = s.update(Message::ParamMoved(3));
    assert!(m2.is_none());
}

#[test]
fn dark_theme_styles_the_widgets() {
    let theme = Theme::Dark;
    let button = theme.button().unwrap();
    assert_eq!(button.active.background, Some(Rgb { r: 0x72, g: 0x89, b: 0xDA }));
    assert_eq!(button.hovered.background, Some(Rgb { r: 0x67, g: 0x7B, b: 0xC4 }));
    assert_eq!(button.pressed.border_width, 1);
    assert_eq!(button.pressed.border_color, Some(Rgb { r: 0xFF, g: 0xFF, b: 0xFF }));
    assert_eq!(button.active.border_radius, 3);

    let bypassed = theme.bypassed_button().unwrap();
    assert_eq!(bypassed.active.background, Some(Rgb { r: 0xDA, g: 0x73, b: 0x72 }));
    assert_eq!(bypassed.hovered.background, Some(Rgb { r: 0xC4, g: 0x67, b: 0x67 }));

    let disabled = theme.disabled_button().unwrap();
    assert_eq!(disabled.active, disabled.hovered);
    assert_eq!(disabled.active, disabled.pressed);
    assert_eq!(disabled.active.background, Some(Rgb { r: 0x6B, g: 0x6E, b: 0x7C }));

    let page = theme.page_container().unwrap();
    assert_eq!(page.background, Some(Rgb { r: 0x20, g: 0x24, b: 0x2B }));
    let bar = theme.top_bar_container().unwrap();
    assert_eq!(bar.background, Some(Rgb { r: 0x40, g: 0x44, b: 0x4B }));

    assert_eq!(
        theme.knob().unwrap(),
        KnobArcColors {
            empty_color: Rgb { r: 0x70, g: 0x74, b: 0x7B },
            filled_color: Rgb { r: 0x6F, g: 0xFF, b: 0xE9 },
            notch_color: Rgb { r: 0x6F, g: 0xFF, b: 0xE9 },
        }
    );
}

#[test]
fn light_theme_keeps_the_toolkit_defaults() {
    let theme = Theme::_Light;
    assert!(theme.button().is_none());
    assert!(theme.disabled_button().is_none());
    assert!(theme.bypassed_button().is_none());
    assert!(theme.page_container().is_none());
    assert!(theme.top_bar_container().is_none());
    assert!(theme.knob().is_none());
}

#[test]
fn option_knob_carries_its_options() {
    let knob = OptionKnob {
        label: "mode",
        value: 1,
        default_value: 0,
        options: vec![String::from("soft"), String::from("hard")],
    };
    assert_eq!(knob.options[knob.value as usize], "hard");
    assert_eq!(knob.label, "mode");
    assert_eq!(knob.default_value, 0);
}
