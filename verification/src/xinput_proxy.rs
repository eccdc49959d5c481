//! Event translation: maps the physical controller's digital key and absolute
//! axis events to actions on the virtual X-Input style controller.

use vstd::prelude::*;
use vstd::arithmetic::div_mod::lemma_div_is_ordered;
use vstd::arithmetic::div_mod::lemma_fundamental_div_mod_converse;

verus! {

/// Rounds n / 4095 to the nearest integer, halves away from zero.
/// 4095 is twice the half-span 2047.5 of the raw analog range, so
/// (raw - 2048) / 2047.5 * 32767 == (raw - 2048) * 65534 / 4095 exactly.
pub open spec fn round_half_div_4095(n: int) -> int {
    if n >= 0 {
        (n + 2047) / 4095
    } else {
        -((-n + 2047) / 4095)
    }
}

/// The normalization rule for one analog sample (domain [0, 4095], nominal
/// center 2048): shift the center to zero, collapse the deadzone (the samples
/// with |raw - 2048| / 2047.5 < 0.03, exactly those with |raw - 2048| <= 61),
/// clamp to one unit of half-span, scale to [-32767, 32767] with rounding,
/// and finally negate for an inverted axis.
pub open spec fn normalize_spec(raw: int, invert: bool) -> int {
    let d = raw - 2048;
    let magnitude = if -61 <= d && d <= 61 {
        0int
    } else if d >= 2048 {
        32767int
    } else if d <= -2048 {
        -32767int
    } else {
        round_half_div_4095(d * 65534)
    };
    if invert {
        -magnitude
    } else {
        magnitude
    }
}

/// Scales one raw thumbstick sample (domain [0, 4095], center 2048) to the
/// virtual device's signed range [-32767, 32767], applying the deadzone,
/// clamping, and the axis's inversion flag. Out-of-domain samples clamp.
pub fn normalize_analog_thumbstick_value(current_thumbstick_value: i32, invert: bool) -> (r: i32)
    ensures
        r as int == normalize_spec(current_thumbstick_value as int, invert),
        -32767 <= r <= 32767,
{
    let d: i64 = (current_thumbstick_value as i64) - 2048;
    let magnitude: i64 = if -61 <= d && d <= 61 {
        0
    } else if d >= 2048 {
        32767
    } else if d <= -2048 {
        -32767
    } else {
        let a: u64 = if d >= 0 { d as u64 } else { (-d) as u64 };
        let q: u64 = (a * 65534 + 2047) / 4095;
        proof {
            lemma_div_is_ordered((a * 65534 + 2047) as int, 2047int * 65534 + 2047, 4095);
        }
        if d >= 0 { q as i64 } else { -(q as i64) }
    };
    let r: i64 = if invert { -magnitude } else { magnitude };
    r as i32
}

proof fn lemma_round_half_div_4095_mono(n1: int, n2: int)
    requires
        n1 <= n2,
    ensures
        round_half_div_4095(n1) <= round_half_div_4095(n2),
{
    if n1 >= 0 {
        lemma_div_is_ordered(n1 + 2047, n2 + 2047, 4095);
    } else if n2 < 0 {
        lemma_div_is_ordered(-n2 + 2047, -n1 + 2047, 4095);
    } else {
        lemma_div_is_ordered(0, -n1 + 2047, 4095);
        lemma_div_is_ordered(0, n2 + 2047, 4095);
        lemma_fundamental_div_mod_converse(0, 4095, 0, 0);
    }
}

/// The rounded scaling of the extreme in-domain displacements: 2047 * 65534 / 4095
/// rounds to 32759, the largest magnitude an unclamped sample can reach.
proof fn lemma_round_half_div_4095_extremes()
    ensures
        round_half_div_4095(2047int * 65534) == 32759,
        round_half_div_4095(-2047int * 65534) == -32759,
        round_half_div_4095(0) == 0,
{
    lemma_fundamental_div_mod_converse(2047int * 65534 + 2047, 4095, 32759, 2040);
    lemma_fundamental_div_mod_converse(2047, 4095, 0, 2047);
}

/// Every raw sample within the deadzone radius of the center normalizes to
/// exactly 0, whatever the inversion flag.
pub proof fn lemma_normalize_deadzone(raw: int, invert: bool)
    requires
        -61 <= raw - 2048 <= 61,
    ensures
        normalize_spec(raw, invert) == 0,
{
}

/// The inverted variant of normalization is the exact negation of the
/// non-inverted one, on every raw sample (rounding is symmetric about zero,
/// so the deadzone needs no exception).
pub proof fn lemma_normalize_inverted(raw: int)
    ensures
        normalize_spec(raw, true) == -normalize_spec(raw, false),
{
}

/// Normalization without inversion is monotonic non-decreasing in the raw
/// sample; with inversion it is therefore monotonic non-increasing.
pub proof fn lemma_normalize_monotonic(raw1: int, raw2: int)
    requires
        raw1 <= raw2,
    ensures
        normalize_spec(raw1, false) <= normalize_spec(raw2, false),
        normalize_spec(raw2, true) <= normalize_spec(raw1, true),
{
    let d1 = raw1 - 2048;
    let d2 = raw2 - 2048;
    lemma_round_half_div_4095_extremes();
    if -2047 <= d1 <= 2047 && !(-61 <= d1 <= 61) {
        lemma_round_half_div_4095_mono(-2047int * 65534, d1 * 65534);
        lemma_round_half_div_4095_mono(d1 * 65534, 2047int * 65534);
        if d1 <= 0 {
            lemma_round_half_div_4095_mono(d1 * 65534, 0);
        } else {
            lemma_round_half_div_4095_mono(0, d1 * 65534);
        }
    }
    if -2047 <= d2 <= 2047 && !(-61 <= d2 <= 61) {
        lemma_round_half_div_4095_mono(-2047int * 65534, d2 * 65534);
        lemma_round_half_div_4095_mono(d2 * 65534, 2047int * 65534);
        if d2 <= 0 {
            lemma_round_half_div_4095_mono(d2 * 65534, 0);
        } else {
            lemma_round_half_div_4095_mono(0, d2 * 65534);
        }
    }
    lemma_round_half_div_4095_mono(d1 * 65534, d2 * 65534);
    lemma_normalize_inverted(raw1);
    lemma_normalize_inverted(raw2);
}

/// The closed set of digital buttons the virtual controller exposes.
#[derive(Clone, Copy, PartialEq, Eq, Structural, Debug)]
pub enum GamePad {
    South,
    East,
    West,
    North,
    Select,
    Start,
    TL,
    TL2,
    TR,
    TR2,
    Mode,
    Z,
}

/// The closed set of absolute position axes (two per thumbstick).
#[derive(Clone, Copy, PartialEq, Eq, Structural, Debug)]
pub enum Position {
    X,
    Y,
    RX,
    RY,
}

/// The closed set of hat axes (the d-pad, one signed axis per direction pair).
#[derive(Clone, Copy, PartialEq, Eq, Structural, Debug)]
pub enum Hat {
    X0,
    Y0,
}

/// The class of a physical input event, as the input subsystem reports it.
#[derive(Clone, Copy, PartialEq, Eq, Structural, Debug)]
pub enum EventClass {
    Key,
    Absolute,
    Other,
}

/// One physical input event: a digital key transition or an absolute-axis
/// sample, with its raw code and value.
#[derive(Clone, Copy, PartialEq, Eq, Structural, Debug)]
pub struct PhysicalEvent {
    pub class: EventClass,
    pub code: i32,
    pub value: i32,
}

/// One write the translation emits toward the virtual device. `Synchronize`
/// marks the end of one atomic frame of writes.
#[derive(Clone, Copy, PartialEq, Eq, Structural, Debug)]
pub enum VirtualAction {
    Press(GamePad),
    Release(GamePad),
    Position(Position, i32),
    Hat(Hat, i32),
    Synchronize,
}

pub const PHYSICAL_LEFT_THUMBSTICK_X_AXIS_EVENT_CODE: i32 = 0;

pub const PHYSICAL_LEFT_THUMBSTICK_Y_AXIS_EVENT_CODE: i32 = 1;

pub const PHYSICAL_RIGHT_THUMB_STICK_X_AXIS_EVENT_CODE: i32 = 3;

pub const PHYSICAL_RIGHT_THUMBSTICK_Y_AXIS_EVENT_CODE: i32 = 5;

pub const KEY_DPAD_UP: i32 = 312;

pub const KEY_DPAD_RIGHT: i32 = 313;

pub const KEY_DPAD_LEFT: i32 = 314;

pub const KEY_DPAD_DOWN: i32 = 315;

pub const D_PAD_ANALOG_RELEASED: i32 = 0;

pub const D_PAD_ANALOG_POS: i32 = 1;

pub const D_PAD_ANALOG_NEG: i32 = -1;

/// The button table: 12 physical key codes, each mapped 1:1 to a virtual
/// button. Any other code is absent.
pub open spec fn gamepad_button_of(code: int) -> Option<GamePad> {
    if code == 304 {
        Some(GamePad::South)
    } else if code == 305 {
        Some(GamePad::East)
    } else if code == 307 {
        Some(GamePad::West)
    } else if code == 306 {
        Some(GamePad::North)
    } else if code == 318 {
        Some(GamePad::Select)
    } else if code == 310 {
        Some(GamePad::Start)
    } else if code == 316 {
        Some(GamePad::TL)
    } else if code == 317 {
        Some(GamePad::TL2)
    } else if code == 308 {
        Some(GamePad::TR)
    } else if code == 309 {
        Some(GamePad::TR2)
    } else if code == 704 {
        Some(GamePad::Mode)
    } else if code == 705 {
        Some(GamePad::Z)
    } else {
        None
    }
}

/// The d-pad table: 4 physical key codes, each mapped to a hat axis and a
/// signed direction. Any other code is absent.
pub open spec fn dpad_of(code: int) -> Option<(Hat, i32)> {
    if code == KEY_DPAD_UP as int {
        Some((Hat::Y0, D_PAD_ANALOG_POS))
    } else if code == KEY_DPAD_DOWN as int {
        Some((Hat::Y0, D_PAD_ANALOG_NEG))
    } else if code == KEY_DPAD_RIGHT as int {
        Some((Hat::X0, D_PAD_ANALOG_POS))
    } else if code == KEY_DPAD_LEFT as int {
        Some((Hat::X0, D_PAD_ANALOG_NEG))
    } else {
        None
    }
}

/// The axis table: 4 physical absolute-axis codes, each mapped to a virtual
/// position axis with an inversion flag (both Y axes inverted so "up" is
/// positive on the virtual device). Any other code is absent.
pub open spec fn thumbstick_of(code: int) -> Option<(Position, bool)> {
    if code == PHYSICAL_LEFT_THUMBSTICK_X_AXIS_EVENT_CODE as int {
        Some((Position::X, false))
    } else if code == PHYSICAL_LEFT_THUMBSTICK_Y_AXIS_EVENT_CODE as int {
        Some((Position::Y, true))
    } else if code == PHYSICAL_RIGHT_THUMB_STICK_X_AXIS_EVENT_CODE as int {
        Some((Position::RX, false))
    } else if code == PHYSICAL_RIGHT_THUMBSTICK_Y_AXIS_EVENT_CODE as int {
        Some((Position::RY, true))
    } else {
        None
    }
}

/// The action the button table yields for one key transition, if any.
pub open spec fn gamepad_key_action(code: int, pressed: bool) -> Option<VirtualAction> {
    match gamepad_button_of(code) {
        Some(button) => Some(
            if pressed {
                VirtualAction::Press(button)
            } else {
                VirtualAction::Release(button)
            },
        ),
        None => None,
    }
}

/// The action the d-pad table yields for one key transition, if any: the
/// signed direction on press, neutral (0) on release.
pub open spec fn dpad_key_action(code: int, pressed: bool) -> Option<VirtualAction> {
    match dpad_of(code) {
        Some((axis, direction)) => Some(
            VirtualAction::Hat(axis, if pressed { direction } else { 0i32 }),
        ),
        None => None,
    }
}

/// The action the axis table yields for one absolute sample, if any.
pub open spec fn thumbstick_action(code: int, value: int) -> Option<VirtualAction> {
    match thumbstick_of(code) {
        Some((axis, invert)) => Some(
            VirtualAction::Position(axis, normalize_spec(value, invert) as i32),
        ),
        None => None,
    }
}

pub open spec fn opt_action_seq(o: Option<VirtualAction>) -> Seq<VirtualAction> {
    match o {
        Some(a) => seq![a],
        None => Seq::empty(),
    }
}

/// All actions one key event yields: the button table is consulted first,
/// then the d-pad table; the two are independent and non-exclusive.
pub open spec fn key_actions(code: int, value: int) -> Seq<VirtualAction> {
    opt_action_seq(gamepad_key_action(code, value != 0)) + opt_action_seq(
        dpad_key_action(code, value != 0),
    )
}

/// All actions one physical event yields: key events go through the button
/// and d-pad tables, absolute events through the axis table, and every other
/// event class is silently dropped.
pub open spec fn event_actions(event: PhysicalEvent) -> Seq<VirtualAction> {
    match event.class {
        EventClass::Key => key_actions(event.code as int, event.value as int),
        EventClass::Absolute => opt_action_seq(
            thumbstick_action(event.code as int, event.value as int),
        ),
        EventClass::Other => Seq::empty(),
    }
}

/// All actions a batch of events yields, in arrival order.
pub open spec fn all_event_actions(events: Seq<PhysicalEvent>) -> Seq<VirtualAction>
    decreases events.len(),
{
    if events.len() == 0 {
        Seq::empty()
    } else {
        all_event_actions(events.drop_last()) + event_actions(events.last())
    }
}

/// What one fetched batch emits: each event's actions in arrival order,
/// closed by exactly one synchronize marking the frame.
pub open spec fn batch_actions(events: Seq<PhysicalEvent>) -> Seq<VirtualAction> {
    all_event_actions(events).push(VirtualAction::Synchronize)
}

/// Translates event batches to virtual-device writes. The steady-state loop
/// around it — fetching batches from the physical device and performing the
/// emitted actions — is the caller's.
pub struct XInputProxy {}

impl XInputProxy {
    /// Looks a physical key code up in the button table.
    pub fn get_gamepad_key_event(key_event_code: i32) -> (r: Option<GamePad>)
        ensures
            r == gamepad_button_of(key_event_code as int),
    {
        match key_event_code {
            304 => Some(GamePad::South),
            305 => Some(GamePad::East),
            307 => Some(GamePad::West),
            306 => Some(GamePad::North),
            318 => Some(GamePad::Select),
            310 => Some(GamePad::Start),
            316 => Some(GamePad::TL),
            317 => Some(GamePad::TL2),
            308 => Some(GamePad::TR),
            309 => Some(GamePad::TR2),
            704 => Some(GamePad::Mode),
            705 => Some(GamePad::Z),
            _ => None,
        }
    }

    /// Looks a physical key code up in the d-pad table.
    pub fn get_dpad_key_event(code: i32) -> (r: Option<(Hat, i32)>)
        ensures
            r == dpad_of(code as int),
    {
        match code {
            312 => Some((Hat::Y0, 1)),
            315 => Some((Hat::Y0, -1)),
            313 => Some((Hat::X0, 1)),
            314 => Some((Hat::X0, -1)),
            _ => None,
        }
    }

    /// Looks a physical absolute-axis code up in the axis table.
    pub fn get_thumbstick_event(code: i32) -> (r: Option<(Position, bool)>)
        ensures
            r == thumbstick_of(code as int),
    {
        match code {
            0 => Some((Position::X, false)),
            1 => Some((Position::Y, true)),
            3 => Some((Position::RX, false)),
            5 => Some((Position::RY, true)),
            _ => None,
        }
    }

    /// The virtual press or release one key transition owes the button table.
    pub fn handle_gamepad_key_event(code: i32, pressed: bool) -> (r: Option<VirtualAction>)
        ensures
            r == gamepad_key_action(code as int, pressed),
    {
        match Self::get_gamepad_key_event(code) {
            Some(button) => Some(
                if pressed {
                    VirtualAction::Press(button)
                } else {
                    VirtualAction::Release(button)
                },
            ),
            None => None,
        }
    }

    /// The hat-axis write one key transition owes the d-pad table: the mapped
    /// signed direction on press, neutral on release — last command wins.
    pub fn handle_dpad_key_event(key_event_code: i32, is_pressed: bool) -> (r: Option<
        VirtualAction,
    >)
        ensures
            r == dpad_key_action(key_event_code as int, is_pressed),
    {
        match Self::get_dpad_key_event(key_event_code) {
            Some((axis, direction)) => Some(
                VirtualAction::Hat(
                    axis,
                    if is_pressed {
                        direction
                    } else {
                        D_PAD_ANALOG_RELEASED
                    },
                ),
            ),
            None => None,
        }
    }

    /// The position write one absolute sample owes the axis table, with the
    /// sample normalized to the virtual range.
    pub fn handle_thumbstick_event(event_code: i32, event_value: i32) -> (r: Option<VirtualAction>)
        ensures
            r == thumbstick_action(event_code as int, event_value as int),
    {
        match Self::get_thumbstick_event(event_code) {
            Some((axis, invert)) => Some(
                VirtualAction::Position(
                    axis,
                    normalize_analog_thumbstick_value(event_value, invert),
                ),
            ),
            None => None,
        }
    }

    /// All actions one key event yields, pressed if its value is non-zero:
    /// the button table's action first, then the d-pad table's.
    pub fn handle_key_event(code: i32, value: i32) -> (r: Vec<VirtualAction>)
        ensures
            r@ == key_actions(code as int, value as int),
    {
        let is_key_pressed = value != 0;
        let mut actions: Vec<VirtualAction> = Vec::new();
        if let Some(action) = Self::handle_gamepad_key_event(code, is_key_pressed) {
            actions.push(action);
        }
        if let Some(action) = Self::handle_dpad_key_event(code, is_key_pressed) {
            actions.push(action);
        }
        proof {
            assert(actions@ =~= key_actions(code as int, value as int));
        }
        actions
    }

    /// All actions one physical event yields; event classes this bridge does
    /// not model yield none.
    pub fn handle_event(event: &PhysicalEvent) -> (r: Vec<VirtualAction>)
        ensures
            r@ == event_actions(*event),
    {
        match event.class {
            EventClass::Key => Self::handle_key_event(event.code, event.value),
            EventClass::Absolute => {
                let mut actions: Vec<VirtualAction> = Vec::new();
                if let Some(action) = Self::handle_thumbstick_event(event.code, event.value) {
                    actions.push(action);
                }
                proof {
                    assert(actions@ =~= event_actions(*event));
                }
                actions
            },
            EventClass::Other => Vec::new(),
        }
    }

    /// Translates one fetched batch: every event's actions in arrival order,
    /// then exactly one synchronize closing the frame.
    pub fn process_batch(events: &Vec<PhysicalEvent>) -> (r: Vec<VirtualAction>)
        ensures
            r@ == batch_actions(events@),
    {
        let mut actions: Vec<VirtualAction> = Vec::new();
        let mut i: usize = 0;
        while i < events.len()
            invariant
                i <= events.len(),
                actions@ == all_event_actions(events@.take(i as int)),
            decreases events.len() - i,
        {
            let mut event_emitted = Self::handle_event(&events[i]);
            actions.append(&mut event_emitted);
            proof {
                assert(events@.take(i + 1int).drop_last() =~= events@.take(i as int));
                assert(events@.take(i + 1int).last() == events@[i as int]);
            }
            i = i + 1;
        }
        proof {
            assert(events@.take(events@.len() as int) =~= events@);
        }
        actions.push(VirtualAction::Synchronize);
        actions
    }
}

proof fn lemma_event_actions_no_synchronize(event: PhysicalEvent, i: int)
    requires
        0 <= i < event_actions(event).len(),
    ensures
        event_actions(event)[i] != VirtualAction::Synchronize,
{
}

/// Exactly one synchronize per translated batch, never omitted: the closing
/// action is the synchronize, and no event's own actions contain one.
pub proof fn lemma_one_synchronize_per_batch(events: Seq<PhysicalEvent>)
    ensures
        batch_actions(events).last() == VirtualAction::Synchronize,
        forall|i: int|
            0 <= i < all_event_actions(events).len() ==> all_event_actions(events)[i]
                != VirtualAction::Synchronize,
    decreases events.len(),
{
    if events.len() > 0 {
        lemma_one_synchronize_per_batch(events.drop_last());
        let prefix = all_event_actions(events.drop_last());
        assert forall|i: int|
            0 <= i < all_event_actions(events).len() implies all_event_actions(events)[i]
            != VirtualAction::Synchronize by {
            if i >= prefix.len() {
                lemma_event_actions_no_synchronize(events.last(), i - prefix.len());
            }
        }
    }
}

/// The value a hat axis holds after a sequence of actions is applied to a
/// virtual device whose axis held `init`: the last write to that axis wins,
/// and no other action touches it.
pub open spec fn hat_value_after(actions: Seq<VirtualAction>, axis: Hat, init: i32) -> i32
    decreases actions.len(),
{
    if actions.len() == 0 {
        init
    } else {
        match actions.last() {
            VirtualAction::Hat(a, v) => if a == axis {
                v
            } else {
                hat_value_after(actions.drop_last(), axis, init)
            },
            _ => hat_value_after(actions.drop_last(), axis, init),
        }
    }
}

/// Every button-table code, pressed then released, yields exactly one virtual
/// press followed by exactly one virtual release on its mapped button — and,
/// the emitted sequences being exactly those singletons, nothing on any other
/// control.
pub proof fn lemma_button_press_release(code: int, press_value: int, button: GamePad)
    requires
        gamepad_button_of(code) == Some(button),
        press_value != 0,
    ensures
        key_actions(code, press_value) =~= seq![VirtualAction::Press(button)],
        key_actions(code, 0) =~= seq![VirtualAction::Release(button)],
{
    assert(dpad_of(code) is None);
}

/// Each d-pad code sets its hat axis to the table's signed direction on press
/// and resets it to 0 on release, and those singletons are all it emits.
pub proof fn lemma_dpad_press_release(code: int, press_value: int, axis: Hat, direction: i32)
    requires
        dpad_of(code) == Some((axis, direction)),
        press_value != 0,
    ensures
        key_actions(code, press_value) =~= seq![VirtualAction::Hat(axis, direction)],
        key_actions(code, 0) =~= seq![VirtualAction::Hat(axis, 0i32)],
{
    assert(gamepad_button_of(code) is None);
}

/// No accumulation on a hat axis: pressing one d-pad direction and then a
/// second key on the same axis leaves the axis at the latest command's value,
/// whatever the axis held before and whatever the first press set.
pub proof fn lemma_dpad_last_command_wins(
    code1: int,
    code2: int,
    press_value1: int,
    press_value2: int,
    axis: Hat,
    direction1: i32,
    direction2: i32,
    init: i32,
)
    requires
        dpad_of(code1) == Some((axis, direction1)),
        dpad_of(code2) == Some((axis, direction2)),
        press_value1 != 0,
        press_value2 != 0,
    ensures
        hat_value_after(
            key_actions(code1, press_value1) + key_actions(code2, press_value2),
            axis,
            init,
        ) == direction2,
{
    lemma_dpad_press_release(code1, press_value1, axis, direction1);
    lemma_dpad_press_release(code2, press_value2, axis, direction2);
    let both = key_actions(code1, press_value1) + key_actions(code2, press_value2);
    assert(both.last() == VirtualAction::Hat(axis, direction2));
}

} // verus!
