use streamdeck::{read_buttons, read_encoders, Input, InputEvent, InputState, ProtocolError};

fn report(bytes: &[u8]) -> [u8; 14] {
    let mut r = [0u8; 14];
    r[..bytes.len()].copy_from_slice(bytes);
    r
}

#[test]
fn zero_first_byte_means_no_data() {
    assert_eq!(Input::decode(report(&[0, 0, 0, 0, 1, 1])), Ok(Input::NoData));
}

#[test]
fn button_report_decodes_key_bytes() {
    let r = report(&[1, 0, 8, 0, 1, 0, 0, 5, 0, 0, 0, 255]);
    let expected = Input::Buttons([true, false, false, true, false, false, false, true]);
    assert_eq!(Input::decode(r), Ok(expected));
    assert_eq!(read_buttons(r), Ok(expected));
}

#[test]
fn encoder_press_report_decodes() {
    let r = report(&[1, 3, 5, 0, 0, 0, 1, 0, 1]);
    assert_eq!(
        Input::decode(r),
        Ok(Input::EncoderPress([false, true, false, true]))
    );
}

#[test]
fn encoder_twist_report_reads_signed_deltas() {
    let r = report(&[1, 3, 5, 0, 1, 1, 255, 0, 0x80]);
    assert_eq!(
        read_encoders(r),
        Ok(Input::EncoderTwist([1, -1, 0, -128]))
    );
}

#[test]
fn touch_report_is_recognized_and_discarded() {
    let r = report(&[1, 2, 0, 0, 1, 1, 1, 1, 1]);
    assert_eq!(Input::decode(r), Ok(Input::Touch));
    let mut state = InputState::new();
    assert_eq!(state.process(r), Ok(vec![]));
    assert!(!state.button_held(0));
}

#[test]
fn unknown_report_kind_is_an_error() {
    assert_eq!(
        Input::decode(report(&[1, 7])),
        Err(ProtocolError::UnknownReportKind(7))
    );
}

#[test]
fn unknown_encoder_kind_is_an_error() {
    assert_eq!(
        Input::decode(report(&[1, 3, 0, 0, 9])),
        Err(ProtocolError::UnknownEncoderKind(9))
    );
}

#[test]
fn end_to_end_button_zero_pressed_once() {
    let raw = [1, 0, 0, 0, 1, 0, 0, 0, 0, 0, 0, 0, 0, 0];
    let mut state = InputState::new();
    assert_eq!(state.process(raw), Ok(vec![InputEvent::ButtonPressed(0)]));
    assert_eq!(state.process(raw), Ok(vec![]));
}

#[test]
fn repeated_button_reports_emit_one_event_per_transition() {
    let mut state = InputState::new();
    let held = Input::Buttons([false, false, true, false, false, false, false, true]);
    let released = Input::Buttons([false; 8]);
    let mut all = Vec::new();
    for _ in 0..3 {
        all.extend(state.apply(&held));
    }
    for _ in 0..4 {
        all.extend(state.apply(&released));
    }
    assert_eq!(
        all,
        vec![
            InputEvent::ButtonPressed(2),
            InputEvent::ButtonPressed(7),
            InputEvent::ButtonReleased(2),
            InputEvent::ButtonReleased(7),
        ]
    );
}

#[test]
fn encoder_press_edges_are_reported() {
    let mut state = InputState::new();
    let pressed = state.apply(&Input::EncoderPress([false, true, false, false]));
    assert_eq!(pressed, vec![InputEvent::EncoderPressed(1)]);
    assert_eq!(state.apply(&Input::EncoderPress([false, true, false, false])), vec![]);
    let released = state.apply(&Input::EncoderPress([false, false, false, false]));
    assert_eq!(released, vec![InputEvent::EncoderReleased(1)]);
}

#[test]
fn twists_accumulate_per_encoder() {
    let mut state = InputState::new();
    let events = state.apply(&Input::EncoderTwist([3, 0, -2, 0]));
    assert_eq!(
        events,
        vec![
            InputEvent::EncoderTwisted(0, 3),
            InputEvent::EncoderTwisted(2, -2),
        ]
    );
    state.apply(&Input::EncoderTwist([-1, 0, -5, 0]));
    assert_eq!(state.position(0), 2);
    assert_eq!(state.position(1), 0);
    assert_eq!(state.position(2), -7);
    assert_eq!(state.position(3), 0);
}

#[test]
fn twist_with_no_movement_emits_nothing() {
    let mut state = InputState::new();
    assert_eq!(state.apply(&Input::EncoderTwist([0, 0, 0, 0])), vec![]);
}

#[test]
fn rejected_report_leaves_state_unchanged() {
    let mut state = InputState::new();
    state.process(report(&[1, 0, 0, 0, 1])).unwrap();
    assert_eq!(
        state.process(report(&[1, 9, 0, 0, 0])),
        Err(ProtocolError::UnknownReportKind(9))
    );
    assert!(state.button_held(0));
}
