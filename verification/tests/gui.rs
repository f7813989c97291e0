use flipperzero::gui::canvas::{Color, FromSysColorError, COLOR_BLACK, COLOR_WHITE, COLOR_XOR};
use flipperzero::gui::{
    GuiButtonType, GuiButtonTypeCenter, GuiButtonTypeLeft, GuiButtonTypeRight, GuiLayer,
    GuiLayerDesktop, GuiLayerFullscreen, GuiLayerMAX, GuiLayerStatusBarLeft,
    GuiLayerStatusBarRight, GuiLayerWindow,
};

#[test]
fn color_to_sys() {
    assert_eq!(u8::from(Color::White), COLOR_WHITE);
    assert_eq!(u8::from(Color::Black), COLOR_BLACK);
    assert_eq!(u8::from(Color::Xor), COLOR_XOR);
    assert_eq!((COLOR_WHITE, COLOR_BLACK, COLOR_XOR), (0, 1, 2));
}

#[test]
fn color_from_sys() {
    assert_eq!(Color::try_from(0u8), Ok(Color::White));
    assert_eq!(Color::try_from(1u8), Ok(Color::Black));
    assert_eq!(Color::try_from(2u8), Ok(Color::Xor));
    assert_eq!(Color::try_from(3u8), Err(FromSysColorError::Invalid(3)));
    assert_eq!(Color::try_from(255u8), Err(FromSysColorError::Invalid(255)));
}

#[test]
fn color_round_trip_law() {
    for c in [Color::White, Color::Black, Color::Xor] {
        assert_eq!(Color::try_from(u8::from(c)), Ok(c));
    }
    for v in 0..=255u8 {
        match Color::try_from(v) {
            Ok(c) => assert_eq!(u8::from(c), v),
            Err(e) => {
                assert!(v > COLOR_XOR);
                assert_eq!(e, FromSysColorError::Invalid(v));
            }
        }
    }
}

#[test]
fn color_error_message() {
    assert_eq!(FromSysColorError::Invalid(3).to_string(), "color ID 3 is invalid");
    assert_eq!(FromSysColorError::Invalid(42).to_string(), "color ID 42 is invalid");
    assert_eq!(FromSysColorError::Invalid(255).to_string(), "color ID 255 is invalid");
    assert_eq!(FromSysColorError::Invalid(100).to_string(), "color ID 100 is invalid");
    assert_eq!(FromSysColorError::Invalid(0).to_string(), "color ID 0 is invalid");
}

#[test]
fn gui_layer_and_button_codes() {
    assert_eq!(
        [GuiLayerDesktop, GuiLayerWindow, GuiLayerStatusBarLeft, GuiLayerStatusBarRight, GuiLayerFullscreen, GuiLayerMAX],
        [0, 1, 2, 3, 4, 5]
    );
    assert_eq!(GuiLayer(GuiLayerWindow), GuiLayer(1));
    assert_eq!([GuiButtonTypeLeft, GuiButtonTypeCenter, GuiButtonTypeRight], [0, 1, 2]);
    assert_ne!(GuiButtonType(GuiButtonTypeLeft), GuiButtonType(GuiButtonTypeRight));
}

use flipperzero::gui::{Gui, GuiServiceStep, InputEvent};

#[test]
fn gui_initial_record() {
    let g = Gui::new();
    assert_eq!(g, Gui { thread_id: 0, input_channel: None, request_redraw: false, stop: false });
}

#[test]
fn gui_service_step() {
    let mut g = Gui::new();
    assert_eq!(g.service_step(), GuiServiceStep { process_input: None, redraw: false, leave: false });

    let ev = InputEvent { sequence: 9, key: 2, type_: 4 };
    g.input_channel = Some(ev);
    g.request_redraw = true;
    assert_eq!(g.service_step(), GuiServiceStep { process_input: Some(ev), redraw: true, leave: false });
    assert_eq!(g.input_channel, None);
    assert!(g.request_redraw);

    g.stop = true;
    assert_eq!(g.service_step(), GuiServiceStep { process_input: None, redraw: true, leave: true });
    assert!(g.stop);
}
