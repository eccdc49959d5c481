//! The virtual controller's fixed capability surface, declared once: name,
//! reference identity, 12 buttons, 4 position axes, 2 hat axes. The caller
//! that registers the device with the host does so fail-fast from this layout
//! and never exposes a partially configured device.

use vstd::prelude::*;
use crate::xinput_proxy::EventClass;
use crate::xinput_proxy::GamePad;
use crate::xinput_proxy::Hat;
use crate::xinput_proxy::PhysicalEvent;
use crate::xinput_proxy::Position;
use crate::xinput_proxy::VirtualAction;
use crate::xinput_proxy::event_actions;
use crate::xinput_serial_device_details::XBOX_360_CONTROLLER_PRODUCT_ID;
use crate::xinput_serial_device_details::XBOX_VENDOR_ID;

verus! {

pub open spec fn controller_name_spec() -> Seq<char> {
    "Switch 2 Pro Controller [X-Input]"@
}

/// The 12 declared buttons, in registration order.
pub open spec fn v_input_buttons_spec() -> Seq<GamePad> {
    seq![
        GamePad::South,
        GamePad::East,
        GamePad::North,
        GamePad::West,
        GamePad::Select,
        GamePad::Start,
        GamePad::TL,
        GamePad::TR,
        GamePad::TL2,
        GamePad::TR2,
        GamePad::Mode,
        GamePad::Z,
    ]
}

/// The 4 declared absolute position axes, in registration order.
pub open spec fn v_input_axes_spec() -> Seq<Position> {
    seq![Position::X, Position::Y, Position::RX, Position::RY]
}

/// The 2 declared hat axes, in registration order.
pub open spec fn v_input_hats_spec() -> Seq<Hat> {
    seq![Hat::X0, Hat::Y0]
}

/// The closed writable surface of the virtual controller, fixed at creation:
/// what the registration declares and the only controls the translation may
/// ever drive.
pub struct VirtualDeviceLayout {
    pub name: String,
    pub vendor: u16,
    pub product: u16,
    pub buttons: Vec<GamePad>,
    pub axes: Vec<Position>,
    pub hats: Vec<Hat>,
}

impl VirtualDeviceLayout {
    pub open spec fn wf(&self) -> bool {
        &&& self.name@ == controller_name_spec()
        &&& self.vendor == XBOX_VENDOR_ID
        &&& self.product == XBOX_360_CONTROLLER_PRODUCT_ID
        &&& self.buttons@ == v_input_buttons_spec()
        &&& self.axes@ == v_input_axes_spec()
        &&& self.hats@ == v_input_hats_spec()
    }
}

/// Whether one emitted action only touches controls the layout declares.
pub open spec fn control_declared(layout: VirtualDeviceLayout, action: VirtualAction) -> bool {
    match action {
        VirtualAction::Press(button) => layout.buttons@.contains(button),
        VirtualAction::Release(button) => layout.buttons@.contains(button),
        VirtualAction::Position(axis, _) => layout.axes@.contains(axis),
        VirtualAction::Hat(axis, _) => layout.hats@.contains(axis),
        VirtualAction::Synchronize => true,
    }
}

/// Declares the virtual device's capability surface.
pub struct VirtualXInputDeviceBuilder {}

impl VirtualXInputDeviceBuilder {
    /// The one declaration of the virtual controller: its name, the reference
    /// 360-style identity, and the exact closed control set, in registration
    /// order.
    pub fn build() -> (r: VirtualDeviceLayout)
        ensures
            r.wf(),
    {
        let mut buttons: Vec<GamePad> = Vec::new();
        buttons.push(GamePad::South);
        buttons.push(GamePad::East);
        buttons.push(GamePad::North);
        buttons.push(GamePad::West);
        buttons.push(GamePad::Select);
        buttons.push(GamePad::Start);
        buttons.push(GamePad::TL);
        buttons.push(GamePad::TR);
        buttons.push(GamePad::TL2);
        buttons.push(GamePad::TR2);
        buttons.push(GamePad::Mode);
        buttons.push(GamePad::Z);
        let mut axes: Vec<Position> = Vec::new();
        axes.push(Position::X);
        axes.push(Position::Y);
        axes.push(Position::RX);
        axes.push(Position::RY);
        let mut hats: Vec<Hat> = Vec::new();
        hats.push(Hat::X0);
        hats.push(Hat::Y0);
        proof {
            assert(buttons@ =~= v_input_buttons_spec());
            assert(axes@ =~= v_input_axes_spec());
            assert(hats@ =~= v_input_hats_spec());
        }
        VirtualDeviceLayout {
            name: "Switch 2 Pro Controller [X-Input]".to_owned(),
            vendor: XBOX_VENDOR_ID,
            product: XBOX_360_CONTROLLER_PRODUCT_ID,
            buttons,
            axes,
            hats,
        }
    }
}

proof fn lemma_button_declared(button: GamePad)
    ensures
        v_input_buttons_spec().contains(button),
{
    let declared = v_input_buttons_spec();
    match button {
        GamePad::South => assert(declared[0] == button),
        GamePad::East => assert(declared[1] == button),
        GamePad::North => assert(declared[2] == button),
        GamePad::West => assert(declared[3] == button),
        GamePad::Select => assert(declared[4] == button),
        GamePad::Start => assert(declared[5] == button),
        GamePad::TL => assert(declared[6] == button),
        GamePad::TR => assert(declared[7] == button),
        GamePad::TL2 => assert(declared[8] == button),
        GamePad::TR2 => assert(declared[9] == button),
        GamePad::Mode => assert(declared[10] == button),
        GamePad::Z => assert(declared[11] == button),
    }
}

proof fn lemma_axis_declared(axis: Position)
    ensures
        v_input_axes_spec().contains(axis),
{
    let declared = v_input_axes_spec();
    match axis {
        Position::X => assert(declared[0] == axis),
        Position::Y => assert(declared[1] == axis),
        Position::RX => assert(declared[2] == axis),
        Position::RY => assert(declared[3] == axis),
    }
}

proof fn lemma_hat_declared(axis: Hat)
    ensures
        v_input_hats_spec().contains(axis),
{
    let declared = v_input_hats_spec();
    match axis {
        Hat::X0 => assert(declared[0] == axis),
        Hat::Y0 => assert(declared[1] == axis),
    }
}

/// The declared capability set covers every control the translation ever
/// writes: whatever physical event arrives, each action it yields only
/// touches a declared button, axis or hat (or is the frame synchronize).
pub proof fn lemma_translation_writes_only_declared_controls(
    layout: VirtualDeviceLayout,
    event: PhysicalEvent,
    i: int,
)
    requires
        layout.wf(),
        0 <= i < event_actions(event).len(),
    ensures
        control_declared(layout, event_actions(event)[i]),
{
    assert forall|button: GamePad| #[trigger] v_input_buttons_spec().contains(button) by {
        lemma_button_declared(button);
    }
    assert forall|axis: Position| #[trigger] v_input_axes_spec().contains(axis) by {
        lemma_axis_declared(axis);
    }
    assert forall|axis: Hat| #[trigger] v_input_hats_spec().contains(axis) by {
        lemma_hat_declared(axis);
    }
}

} // verus!
