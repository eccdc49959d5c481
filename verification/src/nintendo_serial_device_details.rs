//! The physical controller family's USB identity and its vendor-proprietary
//! initialization commands.

use vstd::prelude::*;

verus! {

pub const VID_NINTENDO: u16 = 0x057E;

pub const PID_JOYCON2_R: u16 = 0x2066;

pub const PID_JOYCON2_L: u16 = 0x2067;

pub const PID_PROCON2: u16 = 0x2069;

pub const PID_GCNSO: u16 = 0x2073;

/// The candidate product IDs tried, in order, when opening the controller.
pub open spec fn nintendo_switch_2_device_pids_spec() -> Seq<u16> {
    seq![PID_JOYCON2_R, PID_JOYCON2_L, PID_PROCON2, PID_GCNSO]
}

pub fn nintendo_switch_2_device_pids() -> (r: Vec<u16>)
    ensures
        r@ == nintendo_switch_2_device_pids_spec(),
{
    let mut pids: Vec<u16> = Vec::new();
    pids.push(PID_JOYCON2_R);
    pids.push(PID_JOYCON2_L);
    pids.push(PID_PROCON2);
    pids.push(PID_GCNSO);
    proof {
        assert(pids@ =~= nintendo_switch_2_device_pids_spec());
    }
    pids
}

/// The first initialization command: switch the controller to its extended
/// HID output mode. Opaque to this bridge; reproduced bit-exact.
pub open spec fn command_init_hid_output_spec() -> Seq<u8> {
    seq![
        0x03u8,
        0x91u8,
        0x00u8,
        0x0du8,
        0x00u8,
        0x08u8,
        0x00u8,
        0x00u8,
        0x01u8,
        0x00u8,
        0xFFu8,
        0xFFu8,
        0xFFu8,
        0xFFu8,
        0xFFu8,
        0xFFu8,
    ]
}

pub fn command_init_hid_output() -> (r: Vec<u8>)
    ensures
        r@ == command_init_hid_output_spec(),
{
    let mut command: Vec<u8> = Vec::new();
    command.push(0x03);
    command.push(0x91);
    command.push(0x00);
    command.push(0x0d);
    command.push(0x00);
    command.push(0x08);
    command.push(0x00);
    command.push(0x00);
    command.push(0x01);
    command.push(0x00);
    command.push(0xFF);
    command.push(0xFF);
    command.push(0xFF);
    command.push(0xFF);
    command.push(0xFF);
    command.push(0xFF);
    proof {
        assert(command@ =~= command_init_hid_output_spec());
    }
    command
}

/// The second initialization command: light the player-one indicator.
/// Opaque to this bridge; reproduced bit-exact.
pub open spec fn command_set_player_one_led_spec() -> Seq<u8> {
    seq![
        0x09u8,
        0x91u8,
        0x00u8,
        0x07u8,
        0x00u8,
        0x08u8,
        0x00u8,
        0x00u8,
        0x01u8,
        0x00u8,
        0x00u8,
        0x00u8,
        0x00u8,
        0x00u8,
        0x00u8,
        0x00u8,
    ]
}

pub fn command_set_player_one_led() -> (r: Vec<u8>)
    ensures
        r@ == command_set_player_one_led_spec(),
{
    let mut command: Vec<u8> = Vec::new();
    command.push(0x09);
    command.push(0x91);
    command.push(0x00);
    command.push(0x07);
    command.push(0x00);
    command.push(0x08);
    command.push(0x00);
    command.push(0x00);
    command.push(0x01);
    command.push(0x00);
    command.push(0x00);
    command.push(0x00);
    command.push(0x00);
    command.push(0x00);
    command.push(0x00);
    command.push(0x00);
    proof {
        assert(command@ =~= command_set_player_one_led_spec());
    }
    command
}

} // verus!
