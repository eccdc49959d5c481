use procon2_xinput::runtime_error::RuntimeError;
use procon2_xinput::xinput_proxy::GamePad;
use procon2_xinput::xinput_proxy::Hat;
use procon2_xinput::xinput_proxy::Position;
use procon2_xinput::xinput_virtual_device_builder::VirtualXInputDeviceBuilder;

#[test]
fn layout_declares_the_exact_capability_surface() {
    let layout = VirtualXInputDeviceBuilder::build();
    assert_eq!(layout.name, "Switch 2 Pro Controller [X-Input]");
    assert_eq!(layout.vendor, 0x045E);
    assert_eq!(layout.product, 0x028E);
    assert_eq!(
        layout.buttons,
        vec![
            GamePad::South,
            GamePad::East,
            GamePad::North,
            GamePad::West,
            GamePad::Select,
            GamePad::Start,
            GamePad::TL,
            GamePad::TR,
            GamePad::TL2,
            GamePad::TR2,
            GamePad::Mode,
            GamePad::Z,
        ],
    );
    assert_eq!(layout.axes, vec![Position::X, Position::Y, Position::RX, Position::RY]);
    assert_eq!(layout.hats, vec![Hat::X0, Hat::Y0]);
}

#[test]
fn runtime_error_carries_its_message() {
    assert_eq!(RuntimeError::Custom("no endpoint".to_string()).message(), "no endpoint");
    assert_eq!(RuntimeError::Usb("busy".to_string()).message(), "busy");
    assert_eq!(RuntimeError::Io("closed".to_string()).message(), "closed");
    assert_eq!(RuntimeError::Uinput("denied".to_string()).message(), "denied");
}
