use soksak_sidecar_terminal_shitty::abi::Snapshot;
use soksak_sidecar_terminal_shitty::input::{
    concat_reports, pointer_fill, pointer_probe, pointer_request, wheel_plan, EncoderProbe,
    PointerRequest, WheelPlan,
};
use soksak_sidecar_terminal_shitty::terminal::{
    EnginePointerInput, EngineWheelInput, EngineWheelRoute, PointerButton, PointerPhase,
    SelectionModifiers,
};
use soksak_sidecar_terminal_shitty::text::message_with_code;

const MOUSE_CLICK: u32 = 1 << 3;
const MOUSE_DRAG: u32 = 1 << 4;
const MOUSE_MOTION: u32 = 1 << 5;
const SGR_MOUSE: u32 = 1 << 6;
const APP_CURSOR: u32 = 1 << 1;
const ALTERNATE_SCROLL: u32 = 1 << 9;
const ALTERNATE_SCREEN: u32 = 1 << 13;

fn live(modes: u32) -> Snapshot {
    Snapshot { modes, ..Snapshot::default() }
}

fn wheel(horizontal: i32, vertical: i32, route: EngineWheelRoute) -> EngineWheelInput {
    EngineWheelInput {
        row: 2,
        col: 1,
        horizontal,
        vertical,
        modifiers: SelectionModifiers::default(),
        route,
    }
}

fn press(button: i32, modifiers: u32) -> PointerRequest {
    PointerRequest { col: 1, row: 2, event: 0, button, modifiers }
}

fn reports(plan: Result<WheelPlan, String>) -> Vec<PointerRequest> {
    match plan.unwrap() {
        WheelPlan::Reports(requests) => requests,
        other => panic!("expected reports, got {other:?}"),
    }
}

fn keys(plan: Result<WheelPlan, String>) -> Vec<u8> {
    match plan.unwrap() {
        WheelPlan::Keys(bytes) => bytes,
        other => panic!("expected keys, got {other:?}"),
    }
}

#[test]
fn pointer_events_map_phase_button_and_modifier_bits() {
    let input = EnginePointerInput {
        col: 7,
        row: 3,
        phase: PointerPhase::Down,
        button: PointerButton::Left,
        modifiers: SelectionModifiers { shift: true, alt: false, control: true, meta: false },
    };
    assert_eq!(
        pointer_request(&input),
        PointerRequest { col: 7, row: 3, event: 0, button: 1, modifiers: 5 }
    );
    let release = EnginePointerInput { phase: PointerPhase::Up, button: PointerButton::Right, ..input };
    assert_eq!(pointer_request(&release).event, 1);
    assert_eq!(pointer_request(&release).button, 3);
    let motion = EnginePointerInput {
        phase: PointerPhase::Move,
        button: PointerButton::NoButton,
        modifiers: SelectionModifiers { shift: false, alt: true, control: false, meta: true },
        ..input
    };
    assert_eq!(
        pointer_request(&motion),
        PointerRequest { col: 7, row: 3, event: 2, button: 0, modifiers: 2 }
    );
    let middle = EnginePointerInput { button: PointerButton::Middle, ..input };
    assert_eq!(pointer_request(&middle).button, 2);
}

#[test]
fn meta_alone_sets_no_encoder_bit() {
    let input = EnginePointerInput {
        col: 0,
        row: 0,
        phase: PointerPhase::Down,
        button: PointerButton::Left,
        modifiers: SelectionModifiers { shift: false, alt: false, control: false, meta: true },
    };
    assert_eq!(pointer_request(&input).modifiers, 0);
}

#[test]
fn encoder_sizing_call_is_read_by_status_and_size() {
    assert_eq!(
        pointer_probe(-1, 0),
        EncoderProbe::Failed("Shitty mouse encoder failed: -1".to_string())
    );
    assert_eq!(
        pointer_probe(17, 4),
        EncoderProbe::Failed("Shitty mouse encoder failed: 17".to_string())
    );
    assert_eq!(pointer_probe(0, 0), EncoderProbe::Empty);
    assert_eq!(pointer_probe(-2, 0), EncoderProbe::Empty);
    assert_eq!(pointer_probe(-2, 12), EncoderProbe::Fill(12));
    assert_eq!(pointer_probe(0, 6), EncoderProbe::Fill(6));
}

#[test]
fn encoder_filling_call_keeps_what_was_written() {
    let buffer = b"\x1b[<0;8;4M".to_vec();
    assert_eq!(pointer_fill(0, buffer.clone(), 10), Ok(buffer.clone()));
    assert_eq!(pointer_fill(0, buffer.clone(), 3), Ok(b"\x1b[<".to_vec()));
    assert_eq!(pointer_fill(0, buffer.clone(), 40), Ok(buffer.clone()));
    assert_eq!(
        pointer_fill(-2, buffer, 3),
        Err("Shitty mouse encoder retry failed: -2".to_string())
    );
}

#[test]
fn status_codes_render_in_decimal() {
    assert_eq!(message_with_code("code ", 0), "code 0");
    assert_eq!(message_with_code("code ", 1234567890), "code 1234567890");
    assert_eq!(message_with_code("code ", i32::MIN), "code -2147483648");
    assert_eq!(message_with_code("", i32::MAX), "2147483647");
}

#[test]
fn mouse_report_wheel_steps_become_wheel_button_presses() {
    let snapshot = live(MOUSE_CLICK | SGR_MOUSE);
    assert_eq!(
        reports(wheel_plan(&wheel(0, -2, EngineWheelRoute::MouseReport), &snapshot)),
        vec![press(4, 0), press(4, 0)]
    );
    assert_eq!(
        reports(wheel_plan(&wheel(-1, 1, EngineWheelRoute::MouseReport), &snapshot)),
        vec![press(5, 0), press(6, 0)]
    );
    let mut right = wheel(2, 0, EngineWheelRoute::MouseReport);
    right.modifiers = SelectionModifiers { shift: true, alt: true, control: true, meta: true };
    assert_eq!(reports(wheel_plan(&right, &snapshot)), vec![press(7, 7), press(7, 7)]);
}

#[test]
fn drag_or_motion_reporting_also_carries_the_mouse_report_route() {
    for modes in [MOUSE_DRAG, MOUSE_MOTION] {
        let plan = wheel_plan(&wheel(0, 1, EngineWheelRoute::MouseReport), &live(modes));
        assert_eq!(reports(plan), vec![press(5, 0)]);
    }
}

#[test]
fn zero_wheel_steps_send_nothing() {
    assert!(reports(wheel_plan(&wheel(0, 0, EngineWheelRoute::MouseReport), &live(MOUSE_CLICK)))
        .is_empty());
    let alternate = live(ALTERNATE_SCREEN | ALTERNATE_SCROLL);
    assert!(keys(wheel_plan(&wheel(0, 0, EngineWheelRoute::AlternateScroll), &alternate)).is_empty());
}

#[test]
fn alternate_scroll_follows_the_live_cursor_encoding() {
    let normal = live(ALTERNATE_SCREEN | ALTERNATE_SCROLL);
    assert_eq!(
        keys(wheel_plan(&wheel(2, -2, EngineWheelRoute::AlternateScroll), &normal)),
        b"\x1b[A\x1b[A\x1b[C\x1b[C".to_vec()
    );
    let application = live(ALTERNATE_SCREEN | ALTERNATE_SCROLL | APP_CURSOR);
    assert_eq!(
        keys(wheel_plan(&wheel(-1, 1, EngineWheelRoute::AlternateScroll), &application)),
        b"\x1bOB\x1bOD".to_vec()
    );
    let mut held = wheel(0, -1, EngineWheelRoute::AlternateScroll);
    held.modifiers = SelectionModifiers { shift: true, alt: true, control: true, meta: true };
    assert_eq!(keys(wheel_plan(&held, &normal)), b"\x1b[A".to_vec());
}

#[test]
fn stale_wheel_routes_are_refused_with_wheel_mode_changed() {
    let mouse_error = wheel_plan(&wheel(0, -1, EngineWheelRoute::MouseReport), &live(SGR_MOUSE))
        .unwrap_err();
    assert!(mouse_error.starts_with("WHEEL_MODE_CHANGED:"), "{mouse_error}");

    let alternate_error = wheel_plan(
        &wheel(0, -1, EngineWheelRoute::AlternateScroll),
        &live(ALTERNATE_SCREEN | SGR_MOUSE),
    )
    .unwrap_err();
    assert!(alternate_error.starts_with("WHEEL_MODE_CHANGED:"), "{alternate_error}");

    let precedence_error = wheel_plan(
        &wheel(0, -1, EngineWheelRoute::AlternateScroll),
        &live(ALTERNATE_SCREEN | ALTERNATE_SCROLL | MOUSE_CLICK | SGR_MOUSE),
    )
    .unwrap_err();
    assert!(precedence_error.starts_with("WHEEL_MODE_CHANGED:"), "{precedence_error}");

    let primary_screen_error =
        wheel_plan(&wheel(0, 1, EngineWheelRoute::AlternateScroll), &live(ALTERNATE_SCROLL))
            .unwrap_err();
    assert!(primary_screen_error.starts_with("WHEEL_MODE_CHANGED:"));
}

#[test]
fn wheel_reports_are_sent_one_after_another() {
    let sent = concat_reports(&vec![
        b"\x1b[<65;2;3M".to_vec(),
        Vec::new(),
        b"\x1b[<66;2;3M".to_vec(),
    ]);
    assert_eq!(sent, b"\x1b[<65;2;3M\x1b[<66;2;3M".to_vec());
    assert!(concat_reports(&Vec::new()).is_empty());
}
