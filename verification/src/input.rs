//! Pointer and wheel input for the engine's live mouse encoder.
//!
//! The engine's encoder applies the current legacy, UTF-8, SGR or URXVT
//! protocol; this module decides what is handed to it, reads its two-call
//! buffer protocol, and decides which wheel routes are live.

use vstd::prelude::*;
use crate::abi::{
    Snapshot, flag32, SUCCESS, OUT_OF_SPACE, POINTER_PRESS, POINTER_RELEASE, POINTER_MOTION,
    MOUSE_MODIFIER_SHIFT, MOUSE_MODIFIER_ALT, MOUSE_MODIFIER_CONTROL, MODE_BIT_APPLICATION_CURSOR, MODE_BIT_ALTERNATE_SCREEN,
    WHEEL_BUTTON_UP, WHEEL_BUTTON_DOWN, WHEEL_BUTTON_LEFT, WHEEL_BUTTON_RIGHT,
};
use crate::engine::spec_modes;
use crate::terminal::{
    EnginePointerInput, EngineWheelInput, EngineWheelRoute, PointerButton, PointerPhase,
    SelectionModifiers, TerminalModes,
};
use crate::text::{decimal, message_with_code};

verus! {

/// One call of the engine's mouse encoder.
#[derive(Clone, Copy, Debug, PartialEq, Eq, Structural)]
pub struct PointerRequest {
    pub col: u16,
    pub row: u16,
    pub event: i32,
    pub button: i32,
    pub modifiers: u32,
}

/// The encoder's event code for a pointer phase.
pub open spec fn phase_code(phase: PointerPhase) -> i32 {
    match phase {
        PointerPhase::Down => POINTER_PRESS,
        PointerPhase::Up => POINTER_RELEASE,
        PointerPhase::Move => POINTER_MOTION,
    }
}

/// The encoder's button number for a pointer button.
pub open spec fn button_code(button: PointerButton) -> i32 {
    match button {
        PointerButton::NoButton => 0,
        PointerButton::Left => 1,
        PointerButton::Middle => 2,
        PointerButton::Right => 3,
    }
}

/// The encoder's modifier bits: Shift, Alt and Control; Meta has no bit.
pub open spec fn modifier_bits(modifiers: SelectionModifiers) -> u32 {
    ((if modifiers.shift { MOUSE_MODIFIER_SHIFT } else { 0 }) + (if modifiers.alt {
        MOUSE_MODIFIER_ALT
    } else {
        0
    }) + (if modifiers.control { MOUSE_MODIFIER_CONTROL } else { 0 })) as u32
}

fn encoder_modifiers(modifiers: SelectionModifiers) -> (bits: u32)
    ensures
        bits == modifier_bits(modifiers),
{
    let mut bits: u32 = 0;
    if modifiers.shift {
        bits = bits + MOUSE_MODIFIER_SHIFT;
    }
    if modifiers.alt {
        bits = bits + MOUSE_MODIFIER_ALT;
    }
    if modifiers.control {
        bits = bits + MOUSE_MODIFIER_CONTROL;
    }
    bits
}

/// The encoder call for a pointer event.
pub open spec fn spec_pointer_request(input: EnginePointerInput) -> PointerRequest {
    PointerRequest {
        col: input.col,
        row: input.row,
        event: phase_code(input.phase),
        button: button_code(input.button),
        modifiers: modifier_bits(input.modifiers),
    }
}

/// The encoder call for a pointer event.
pub fn pointer_request(input: &EnginePointerInput) -> (request: PointerRequest)
    ensures
        request == spec_pointer_request(*input),
        request.col == input.col,
        request.row == input.row,
        input.phase == PointerPhase::Down ==> request.event == 0,
        input.phase == PointerPhase::Up ==> request.event == 1,
        input.phase == PointerPhase::Move ==> request.event == 2,
        input.button == PointerButton::NoButton ==> request.button == 0,
        input.button == PointerButton::Left ==> request.button == 1,
        input.button == PointerButton::Middle ==> request.button == 2,
        input.button == PointerButton::Right ==> request.button == 3,
        request.modifiers == (if input.modifiers.shift { 1int } else { 0int }) + (if input.modifiers.alt {
            2int
        } else {
            0int
        }) + (if input.modifiers.control { 4int } else { 0int }),
{
    let event = match input.phase {
        PointerPhase::Down => POINTER_PRESS,
        PointerPhase::Up => POINTER_RELEASE,
        PointerPhase::Move => POINTER_MOTION,
    };
    let button: i32 = match input.button {
        PointerButton::NoButton => 0,
        PointerButton::Left => 1,
        PointerButton::Middle => 2,
        PointerButton::Right => 3,
    };
    PointerRequest {
        col: input.col,
        row: input.row,
        event,
        button,
        modifiers: encoder_modifiers(input.modifiers),
    }
}

/// What the first, sizing call of the encoder leads to.
#[derive(Debug, PartialEq, Eq)]
pub enum EncoderProbe {
    /// The encoder failed; the message says how.
    Failed(String),
    /// The event produces no bytes.
    Empty,
    /// Call again with a buffer of this many bytes.
    Fill(usize),
}

/// The status is one after which the sizing call's `required` can be used.
pub open spec fn probe_usable(status: i32) -> bool {
    status == SUCCESS || status == OUT_OF_SPACE
}

/// Reads the status and size that the sizing call (with no buffer) reported.
pub fn pointer_probe(status: i32, required: usize) -> (probe: EncoderProbe)
    ensures
        !probe_usable(status) ==> (probe matches EncoderProbe::Failed(message) && message@
            == "Shitty mouse encoder failed: "@ + decimal(status as int)),
        probe_usable(status) && required == 0 ==> probe is Empty,
        probe_usable(status) && required > 0 ==> probe == EncoderProbe::Fill(required),
        (status == 0 || status == -2) && required == 0 ==> probe is Empty,
        (status == 0 || status == -2) && required > 0 ==> probe == EncoderProbe::Fill(required),
        status != 0 && status != -2 ==> probe is Failed,
{
    if status != SUCCESS && status != OUT_OF_SPACE {
        EncoderProbe::Failed(message_with_code("Shitty mouse encoder failed: ", status))
    } else if required == 0 {
        EncoderProbe::Empty
    } else {
        EncoderProbe::Fill(required)
    }
}

/// The bytes kept from the filling call: its buffer cut to what it wrote.
pub open spec fn written_prefix(output: Seq<u8>, required: usize) -> Seq<u8> {
    if required < output.len() {
        output.take(required as int)
    } else {
        output
    }
}

/// Reads the outcome of the filling call, which wrote into `output`.
pub fn pointer_fill(status: i32, output: Vec<u8>, required: usize) -> (result: Result<Vec<u8>, String>)
    ensures
        status != SUCCESS ==> (result matches Err(message) && message@
            == "Shitty mouse encoder retry failed: "@ + decimal(status as int)),
        status == SUCCESS ==> (result matches Ok(bytes) && bytes@ == written_prefix(output@, required)),
        status == 0 ==> (result matches Ok(bytes) && bytes@.len() == (if required < output@.len() {
            required as int
        } else {
            output@.len() as int
        }) && forall|i: int| 0 <= i < bytes@.len() ==> #[trigger] bytes@[i] == output@[i]),
        status != 0 ==> result is Err,
{
    if status != SUCCESS {
        return Err(message_with_code("Shitty mouse encoder retry failed: ", status));
    }
    let mut output = output;
    output.truncate(required);
    Ok(output)
}

/// Click, drag or motion reporting is live.
pub open spec fn mouse_reporting(modes: TerminalModes) -> bool {
    modes.mouse_click || modes.mouse_drag || modes.mouse_motion
}

/// The engine's live modes still call for the selected wheel route.
pub open spec fn route_live(route: EngineWheelRoute, snapshot: Snapshot) -> bool {
    let modes = spec_modes(snapshot.modes);
    match route {
        EngineWheelRoute::MouseReport => mouse_reporting(modes),
        EngineWheelRoute::AlternateScroll => flag32(snapshot.modes, MODE_BIT_ALTERNATE_SCREEN)
            && modes.alternate_scroll && !mouse_reporting(modes),
    }
}

/// The refusal of a wheel route that is no longer live.
pub open spec fn refusal(route: EngineWheelRoute) -> Seq<char> {
    match route {
        EngineWheelRoute::MouseReport => "WHEEL_MODE_CHANGED: mouse reporting is no longer active"@,
        EngineWheelRoute::AlternateScroll => "WHEEL_MODE_CHANGED: alternate scroll is no longer live"@,
    }
}

/// The number of integral steps in a wheel delta.
pub open spec fn step_count(delta: i32) -> nat {
    if delta < 0 {
        (-delta) as nat
    } else {
        delta as nat
    }
}

/// The wheel button of a vertical delta: up for negative, down otherwise.
pub open spec fn vertical_button(delta: i32) -> i32 {
    if delta < 0 {
        WHEEL_BUTTON_UP
    } else {
        WHEEL_BUTTON_DOWN
    }
}

/// The wheel button of a horizontal delta: left for negative, right otherwise.
pub open spec fn horizontal_button(delta: i32) -> i32 {
    if delta < 0 {
        WHEEL_BUTTON_LEFT
    } else {
        WHEEL_BUTTON_RIGHT
    }
}

/// The encoder call for one wheel step: a press of a wheel button at the cell.
pub open spec fn wheel_report(input: EngineWheelInput, button: i32) -> PointerRequest {
    PointerRequest {
        col: input.col,
        row: input.row,
        event: POINTER_PRESS,
        button,
        modifiers: modifier_bits(input.modifiers),
    }
}

/// One encoder call per integral step: the vertical steps, then the horizontal ones.
pub open spec fn spec_wheel_reports(input: EngineWheelInput) -> Seq<PointerRequest> {
    Seq::new(step_count(input.vertical), |_i: int| wheel_report(input, vertical_button(input.vertical)))
        + Seq::new(
        step_count(input.horizontal),
        |_i: int| wheel_report(input, horizontal_button(input.horizontal)),
    )
}

/// A cursor key in normal (`ESC [`) or application (`ESC O`) encoding.
pub open spec fn cursor_key(final_byte: u8, application: bool) -> Seq<u8> {
    seq![0x1bu8, if application { 0x4fu8 } else { 0x5bu8 }, final_byte]
}

/// `bytes` repeated `count` times.
pub open spec fn repeat_bytes(bytes: Seq<u8>, count: nat) -> Seq<u8>
    decreases count,
{
    if count == 0 {
        Seq::empty()
    } else {
        repeat_bytes(bytes, (count - 1) as nat) + bytes
    }
}

/// The cursor key of a vertical delta: up (`A`) for negative, down (`B`) otherwise.
pub open spec fn vertical_key(delta: i32) -> u8 {
    if delta < 0 {
        0x41
    } else {
        0x42
    }
}

/// The cursor key of a horizontal delta: left (`D`) for negative, right (`C`) otherwise.
pub open spec fn horizontal_key(delta: i32) -> u8 {
    if delta < 0 {
        0x44
    } else {
        0x43
    }
}

/// One cursor key per integral step, vertical steps first, with no modifier bytes.
pub open spec fn spec_wheel_keys(input: EngineWheelInput, application: bool) -> Seq<u8> {
    repeat_bytes(cursor_key(vertical_key(input.vertical), application), step_count(input.vertical))
        + repeat_bytes(
        cursor_key(horizontal_key(input.horizontal), application),
        step_count(input.horizontal),
    )
}

/// What a live wheel route turns into.
#[derive(Debug, PartialEq, Eq)]
pub enum WheelPlan {
    /// Encoder calls, one per step, whose reports are sent in order.
    Reports(Vec<PointerRequest>),
    /// Bytes to send as they are.
    Keys(Vec<u8>),
}

/// `plan` is what the live route of `input` turns into.
pub open spec fn plan_fits(plan: WheelPlan, input: EngineWheelInput, snapshot: Snapshot) -> bool {
    match input.route {
        EngineWheelRoute::MouseReport => plan matches WheelPlan::Reports(requests) && requests@
            == spec_wheel_reports(input),
        EngineWheelRoute::AlternateScroll => plan matches WheelPlan::Keys(bytes) && bytes@
            == spec_wheel_keys(input, flag32(snapshot.modes, MODE_BIT_APPLICATION_CURSOR)),
    }
}

fn steps(delta: i32) -> (count: u32)
    ensures
        count == step_count(delta),
{
    if delta < 0 {
        (0i64 - delta as i64) as u32
    } else {
        delta as u32
    }
}

fn push_requests(requests: &mut Vec<PointerRequest>, request: PointerRequest, count: u32)
    ensures
        final(requests)@ == old(requests)@ + Seq::new(count as nat, |_i: int| request),
{
    let mut done: u32 = 0;
    while done < count
        invariant
            done <= count,
            requests@ =~= old(requests)@ + Seq::new(done as nat, |_i: int| request),
        decreases count - done,
    {
        requests.push(request);
        done = done + 1;
    }
}

fn push_keys(bytes: &mut Vec<u8>, final_byte: u8, application: bool, count: u32)
    ensures
        final(bytes)@ == old(bytes)@ + repeat_bytes(cursor_key(final_byte, application), count as nat),
{
    let introducer: u8 = if application { 0x4f } else { 0x5b };
    let ghost key = cursor_key(final_byte, application);
    let mut done: u32 = 0;
    while done < count
        invariant
            done <= count,
            key == cursor_key(final_byte, application),
            introducer == (if application { 0x4fu8 } else { 0x5bu8 }),
            bytes@ =~= old(bytes)@ + repeat_bytes(key, done as nat),
        decreases count - done,
    {
        let ghost before = bytes@;
        bytes.push(0x1b);
        bytes.push(introducer);
        bytes.push(final_byte);
        assert(repeat_bytes(key, (done + 1) as nat) == repeat_bytes(key, done as nat) + key);
        assert(bytes@ =~= before + key);
        done = done + 1;
    }
}

/// Turns wheel steps into what the selected route sends, reading the route's
/// live facts from a fresh snapshot. A route that the live modes no longer
/// call for is refused, not reinterpreted.
pub fn wheel_plan(input: &EngineWheelInput, snapshot: &Snapshot) -> (plan: Result<WheelPlan, String>)
    ensures
        plan is Ok <==> route_live(input.route, *snapshot),
        plan matches Err(message) ==> message@ == refusal(input.route),
        plan matches Ok(p) ==> plan_fits(p, *input, *snapshot),
        plan is Ok && input.route == EngineWheelRoute::MouseReport ==> plan matches Ok(
            WheelPlan::Reports(_),
        ),
        plan is Ok && input.route == EngineWheelRoute::AlternateScroll ==> plan matches Ok(
            WheelPlan::Keys(_),
        ),
        plan matches Ok(WheelPlan::Reports(requests)) ==> requests@ == spec_wheel_reports(*input),
        plan matches Ok(WheelPlan::Keys(bytes)) ==> bytes@ == spec_wheel_keys(
            *input,
            (snapshot.modes >> 1u32) & 1u32 == 1u32,
        ),
        plan matches Ok(WheelPlan::Reports(requests)) ==> {
            &&& input.route == EngineWheelRoute::MouseReport
            &&& requests@.len() == (if input.vertical < 0 {
                -(input.vertical as int)
            } else {
                input.vertical as int
            }) + (if input.horizontal < 0 {
                -(input.horizontal as int)
            } else {
                input.horizontal as int
            })
        },
        plan matches Ok(WheelPlan::Keys(bytes)) ==> {
            &&& input.route == EngineWheelRoute::AlternateScroll
            &&& bytes@.len() == 3 * ((if input.vertical < 0 {
                -(input.vertical as int)
            } else {
                input.vertical as int
            }) + (if input.horizontal < 0 {
                -(input.horizontal as int)
            } else {
                input.horizontal as int
            }))
        },
{
    let modes = snapshot.modes();
    let reporting = modes.mouse_click || modes.mouse_drag || modes.mouse_motion;
    match input.route {
        EngineWheelRoute::MouseReport => {
            if !reporting {
                return Err(String::from_str("WHEEL_MODE_CHANGED: mouse reporting is no longer active"));
            }
            let vertical: i32 = if input.vertical < 0 { WHEEL_BUTTON_UP } else { WHEEL_BUTTON_DOWN };
            let horizontal: i32 = if input.horizontal < 0 {
                WHEEL_BUTTON_LEFT
            } else {
                WHEEL_BUTTON_RIGHT
            };
            let modifiers = encoder_modifiers(input.modifiers);
            let mut requests: Vec<PointerRequest> = Vec::new();
            push_requests(
                &mut requests,
                PointerRequest { col: input.col, row: input.row, event: POINTER_PRESS, button: vertical, modifiers },
                steps(input.vertical),
            );
            push_requests(
                &mut requests,
                PointerRequest { col: input.col, row: input.row, event: POINTER_PRESS, button: horizontal, modifiers },
                steps(input.horizontal),
            );
            assert(requests@ =~= spec_wheel_reports(*input));
            proof {
                wheel_reports_are_one_press_per_step(*input, 0);
            }
            Ok(WheelPlan::Reports(requests))
        },
        EngineWheelRoute::AlternateScroll => {
            if !(snapshot.alt_active() && modes.alternate_scroll && !reporting) {
                return Err(String::from_str("WHEEL_MODE_CHANGED: alternate scroll is no longer live"));
            }
            let vertical: u8 = if input.vertical < 0 { 0x41 } else { 0x42 };
            let horizontal: u8 = if input.horizontal < 0 { 0x44 } else { 0x43 };
            let mut bytes: Vec<u8> = Vec::new();
            push_keys(&mut bytes, vertical, modes.app_cursor, steps(input.vertical));
            push_keys(&mut bytes, horizontal, modes.app_cursor, steps(input.horizontal));
            assert(bytes@ =~= spec_wheel_keys(*input, flag32(snapshot.modes, MODE_BIT_APPLICATION_CURSOR)));
            proof {
                alternate_scroll_ignores_modifiers(
                    *input,
                    input.modifiers,
                    flag32(snapshot.modes, MODE_BIT_APPLICATION_CURSOR),
                );
            }
            Ok(WheelPlan::Keys(bytes))
        },
    }
}

/// The reports of a wheel route's encoder calls, sent one after another.
pub fn concat_reports(reports: &Vec<Vec<u8>>) -> (bytes: Vec<u8>)
    ensures
        bytes@ == reports@.map_values(|report: Vec<u8>| report@).flatten(),
{
    let mut bytes: Vec<u8> = Vec::new();
    let mut index: usize = 0;
    while index < reports.len()
        invariant
            index <= reports@.len(),
            bytes@ == reports@.subrange(0, index as int).map_values(|report: Vec<u8>| report@).flatten(),
        decreases reports@.len() - index,
    {
        let report = &reports[index];
        let mut offset: usize = 0;
        let ghost before = bytes@;
        while offset < report.len()
            invariant
                offset <= report@.len(),
                bytes@ =~= before + report@.subrange(0, offset as int),
            decreases report@.len() - offset,
        {
            bytes.push(report[offset]);
            offset = offset + 1;
        }
        proof {
            let done = reports@.subrange(0, index as int).map_values(|report: Vec<u8>| report@);
            let next = reports@.subrange(0, index + 1).map_values(|report: Vec<u8>| report@);
            assert(next =~= done.push(report@));
            done.lemma_flatten_push(report@);
            assert(report@.subrange(0, report@.len() as int) =~= report@);
        }
        index = index + 1;
    }
    assert(reports@.subrange(0, reports@.len() as int) =~= reports@);
    bytes
}

/// Meta has no bit in the mouse protocols: it does not alter an encoder call.
pub proof fn meta_does_not_alter_pointer_report(input: EnginePointerInput, meta: bool)
    ensures
        spec_pointer_request(input) == spec_pointer_request(
            (EnginePointerInput {
                modifiers: SelectionModifiers { meta, ..input.modifiers },
                ..input
            }),
        ),
{
}

/// Meta does not alter wheel input on either route: the live-route decision,
/// the wheel reports and the cursor keys are the same with or without it.
pub proof fn meta_does_not_alter_wheel_input(input: EngineWheelInput, meta: bool, snapshot: Snapshot)
    ensures
        ({
            let other = EngineWheelInput {
                modifiers: SelectionModifiers { meta, ..input.modifiers },
                ..input
            };
            &&& route_live(other.route, snapshot) == route_live(input.route, snapshot)
            &&& spec_wheel_reports(other) == spec_wheel_reports(input)
            &&& spec_wheel_keys(other, flag32(snapshot.modes, MODE_BIT_APPLICATION_CURSOR))
                == spec_wheel_keys(input, flag32(snapshot.modes, MODE_BIT_APPLICATION_CURSOR))
        }),
{
    let other = EngineWheelInput {
        modifiers: SelectionModifiers { meta, ..input.modifiers },
        ..input
    };
    assert(spec_wheel_reports(other) =~= spec_wheel_reports(input));
}

/// Repetition gives one native report per integral step: a press of wheel
/// button 4 or 5 for each vertical step, then of 6 or 7 for each horizontal
/// step, all at the input's cell and with its Shift/Alt/Control bits.
pub proof fn one_report_per_wheel_step(input: EngineWheelInput)
    ensures
        spec_wheel_reports(input).len() == step_count(input.vertical) + step_count(input.horizontal),
        forall|i: int|
            0 <= i < spec_wheel_reports(input).len() ==> {
                let report = #[trigger] spec_wheel_reports(input)[i];
                &&& report.event == POINTER_PRESS
                &&& report.col == input.col
                &&& report.row == input.row
                &&& report.modifiers == modifier_bits(input.modifiers)
                &&& report.button == (if i < step_count(input.vertical) {
                    vertical_button(input.vertical)
                } else {
                    horizontal_button(input.horizontal)
                })
            },
{
}

proof fn lemma_repeat_len(bytes: Seq<u8>, count: nat)
    ensures
        repeat_bytes(bytes, count).len() == bytes.len() * count,
    decreases count,
{
    if count > 0 {
        lemma_repeat_len(bytes, (count - 1) as nat);
        assert(bytes.len() * count == bytes.len() * (count - 1) + bytes.len()) by (nonlinear_arith);
    } else {
        assert(bytes.len() * count == 0) by (nonlinear_arith)
            requires
                count == 0,
        ;
    }
}

/// The alternate-scroll route adds no modifier bytes: its cursor keys do not
/// depend on the held modifiers, and each integral step is one three-byte key.
pub proof fn alternate_scroll_ignores_modifiers(
    input: EngineWheelInput,
    modifiers: SelectionModifiers,
    application: bool,
)
    ensures
        spec_wheel_keys((EngineWheelInput { modifiers, ..input }), application) == spec_wheel_keys(
            input,
            application,
        ),
        spec_wheel_keys(input, application).len() == 3 * (step_count(input.vertical) + step_count(
            input.horizontal,
        )),
{
    lemma_repeat_len(
        cursor_key(vertical_key(input.vertical), application),
        step_count(input.vertical),
    );
    lemma_repeat_len(
        cursor_key(horizontal_key(input.horizontal), application),
        step_count(input.horizontal),
    );
    assert(cursor_key(vertical_key(input.vertical), application).len() == 3);
    assert(cursor_key(horizontal_key(input.horizontal), application).len() == 3);
}

/// Live mouse reporting has priority over alternate scroll: while click, drag
/// or motion reporting is on, the mouse-report route is live and the
/// alternate-scroll route is refused.
pub proof fn mouse_reporting_takes_precedence(snapshot: Snapshot)
    requires
        mouse_reporting(spec_modes(snapshot.modes)),
    ensures
        route_live(EngineWheelRoute::MouseReport, snapshot),
        !route_live(EngineWheelRoute::AlternateScroll, snapshot),
{
}

/// Every refusal of a stale wheel route starts with `WHEEL_MODE_CHANGED:`.
pub proof fn stale_routes_are_refused_as_wheel_mode_changed(route: EngineWheelRoute)
    ensures
        refusal(route).len() >= 19,
        refusal(route).take(19) == "WHEEL_MODE_CHANGED:"@,
{
    reveal_strlit("WHEEL_MODE_CHANGED:");
    reveal_strlit("WHEEL_MODE_CHANGED: mouse reporting is no longer active");
    reveal_strlit("WHEEL_MODE_CHANGED: alternate scroll is no longer live");
    assert(refusal(route).take(19) =~= "WHEEL_MODE_CHANGED:"@);
}

/// The encoder call for a pointer event carries the event's cell, the event
/// code of its phase (press 0, release 1, motion 2), the number of its button
/// (none 0, left 1, middle 2, right 3) whatever the phase, so that motion with a
/// held button is reported as a drag, and the sum of the Shift (1), Alt (2) and
/// Control (4) bits.
pub proof fn pointer_requests_carry_phase_button_and_modifiers(
    input: EnginePointerInput,
    phase: PointerPhase,
)
    ensures
        spec_pointer_request(input).col == input.col,
        spec_pointer_request(input).row == input.row,
        input.phase == PointerPhase::Down ==> spec_pointer_request(input).event == 0,
        input.phase == PointerPhase::Up ==> spec_pointer_request(input).event == 1,
        input.phase == PointerPhase::Move ==> spec_pointer_request(input).event == 2,
        input.button == PointerButton::NoButton ==> spec_pointer_request(input).button == 0,
        input.button == PointerButton::Left ==> spec_pointer_request(input).button == 1,
        input.button == PointerButton::Middle ==> spec_pointer_request(input).button == 2,
        input.button == PointerButton::Right ==> spec_pointer_request(input).button == 3,
        spec_pointer_request((EnginePointerInput { phase, ..input })).button == spec_pointer_request(
            input,
        ).button,
        spec_pointer_request(input).modifiers == (if input.modifiers.shift { 1int } else { 0int })
            + (if input.modifiers.alt { 2int } else { 0int }) + (if input.modifiers.control {
            4int
        } else {
            0int
        }),
{
}

/// A wheel route is live exactly as the mode word says: mouse reports while any
/// of click, drag or motion reporting (bits 3, 4, 5) is on; alternate scroll
/// while the alternate screen (bit 13) and DEC 1007 (bit 9) are on and none of
/// the mouse-reporting bits is.
pub proof fn live_routes_follow_the_mode_bits(snapshot: Snapshot)
    ensures
        route_live(EngineWheelRoute::MouseReport, snapshot) == (((snapshot.modes >> 3u32) & 1u32
            == 1u32) || ((snapshot.modes >> 4u32) & 1u32 == 1u32) || ((snapshot.modes >> 5u32) & 1u32
            == 1u32)),
        route_live(EngineWheelRoute::AlternateScroll, snapshot) == (((snapshot.modes >> 13u32) & 1u32
            == 1u32) && ((snapshot.modes >> 9u32) & 1u32 == 1u32) && !((snapshot.modes >> 3u32) & 1u32
            == 1u32) && !((snapshot.modes >> 4u32) & 1u32 == 1u32) && !((snapshot.modes >> 5u32)
            & 1u32 == 1u32)),
{
}

/// The mouse-report route makes |vertical| + |horizontal| encoder calls, one
/// per integral step: first |vertical| presses of button 4 (up, for a negative
/// delta) or 5 (down), then |horizontal| presses of button 6 (left, for a
/// negative delta) or 7 (right), each at the input's cell.
pub proof fn wheel_reports_are_one_press_per_step(input: EngineWheelInput, i: int)
    ensures
        spec_wheel_reports(input).len() == (if input.vertical < 0 {
            -(input.vertical as int)
        } else {
            input.vertical as int
        }) + (if input.horizontal < 0 {
            -(input.horizontal as int)
        } else {
            input.horizontal as int
        }),
        0 <= i < spec_wheel_reports(input).len() ==> {
            let report = spec_wheel_reports(input)[i];
            &&& report.event == 0
            &&& report.col == input.col
            &&& report.row == input.row
            &&& report.modifiers == (if input.modifiers.shift { 1int } else { 0int }) + (
            if input.modifiers.alt {
                2int
            } else {
                0int
            }) + (if input.modifiers.control { 4int } else { 0int })
            &&& report.button == (if i < (if input.vertical < 0 {
                -(input.vertical as int)
            } else {
                input.vertical as int
            }) {
                if input.vertical < 0 {
                    4int
                } else {
                    5int
                }
            } else {
                if input.horizontal < 0 {
                    6int
                } else {
                    7int
                }
            })
        },
{
}

proof fn lemma_repeat_key(key: Seq<u8>, count: nat, j: int)
    requires
        key.len() == 3,
        0 <= j < count,
    ensures
        repeat_bytes(key, count).subrange(3 * j, 3 * j + 3) == key,
    decreases count,
{
    lemma_repeat_len(key, (count - 1) as nat);
    let prefix = repeat_bytes(key, (count - 1) as nat);
    assert(prefix.len() == 3 * (count - 1));
    assert(repeat_bytes(key, count) == prefix + key);
    if j == count - 1 {
        assert(repeat_bytes(key, count).subrange(3 * j, 3 * j + 3) =~= key);
    } else {
        lemma_repeat_key(key, (count - 1) as nat, j);
        assert(repeat_bytes(key, count).subrange(3 * j, 3 * j + 3) =~= prefix.subrange(
            3 * j,
            3 * j + 3,
        ));
    }
}

/// The alternate-scroll route sends 3 * (|vertical| + |horizontal|) bytes: one
/// cursor key per integral step, first |vertical| keys up (`A`, for a negative
/// delta) or down (`B`), then |horizontal| keys left (`D`, for a negative delta)
/// or right (`C`), each `ESC O` in application cursor mode and `ESC [` otherwise.
pub proof fn wheel_keys_are_one_cursor_key_per_step(
    input: EngineWheelInput,
    application: bool,
    j: int,
)
    ensures
        ({
            let up = if input.vertical < 0 {
                -(input.vertical as int)
            } else {
                input.vertical as int
            };
            let across = if input.horizontal < 0 {
                -(input.horizontal as int)
            } else {
                input.horizontal as int
            };
            let keys = spec_wheel_keys(input, application);
            let introducer: u8 = if application { 0x4f } else { 0x5b };
            &&& keys.len() == 3 * (up + across)
            &&& 0 <= j < up ==> keys.subrange(3 * j, 3 * j + 3) == seq![
                0x1bu8,
                introducer,
                if input.vertical < 0 { 0x41u8 } else { 0x42u8 },
            ]
            &&& 0 <= j < across ==> keys.subrange(3 * (up + j), 3 * (up + j) + 3) == seq![
                0x1bu8,
                introducer,
                if input.horizontal < 0 { 0x44u8 } else { 0x43u8 },
            ]
        }),
{
    let vertical = cursor_key(vertical_key(input.vertical), application);
    let horizontal = cursor_key(horizontal_key(input.horizontal), application);
    assert(vertical.len() == 3);
    assert(horizontal.len() == 3);
    lemma_two_key_runs(
        vertical,
        horizontal,
        step_count(input.vertical),
        step_count(input.horizontal),
        j,
    );
}

proof fn lemma_two_key_runs(first: Seq<u8>, second: Seq<u8>, up: nat, across: nat, j: int)
    requires
        first.len() == 3,
        second.len() == 3,
    ensures
        (repeat_bytes(first, up) + repeat_bytes(second, across)).len() == 3 * (up + across),
        0 <= j < up ==> (repeat_bytes(first, up) + repeat_bytes(second, across)).subrange(
            3 * j,
            3 * j + 3,
        ) == first,
        0 <= j < across ==> (repeat_bytes(first, up) + repeat_bytes(second, across)).subrange(
            3 * (up + j),
            3 * (up + j) + 3,
        ) == second,
{
    let head = repeat_bytes(first, up);
    let tail = repeat_bytes(second, across);
    lemma_repeat_len(first, up);
    lemma_repeat_len(second, across);
    if 0 <= j < up {
        lemma_repeat_key(first, up, j);
        assert((head + tail).subrange(3 * j, 3 * j + 3) =~= head.subrange(3 * j, 3 * j + 3));
    }
    if 0 <= j < across {
        lemma_repeat_key(second, across, j);
        assert((head + tail).subrange(3 * (up + j), 3 * (up + j) + 3) =~= tail.subrange(
            3 * j,
            3 * j + 3,
        ));
    }
}

} // verus!
