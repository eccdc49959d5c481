//! The physical controller's one-time initialization: open the USB pipe and
//! send the two vendor commands, in order, with the handshake's failure rules.
//!
//! The sequence alternates USB I/O with decisions, so it is a state machine:
//! `init_action` names the I/O step the caller owes the current state, and
//! `ProCon2DeviceManager::init_hid_output` consumes that step's outcome and
//! moves on, ending `Complete` or `Failed`.

use vstd::prelude::*;
use crate::nintendo_serial_device_details::VID_NINTENDO;
use crate::nintendo_serial_device_details::command_init_hid_output;
use crate::nintendo_serial_device_details::command_init_hid_output_spec;
use crate::nintendo_serial_device_details::command_set_player_one_led;
use crate::nintendo_serial_device_details::command_set_player_one_led_spec;
use crate::nintendo_serial_device_details::nintendo_switch_2_device_pids;
use crate::nintendo_serial_device_details::nintendo_switch_2_device_pids_spec;
use crate::runtime_error::RuntimeError;
use crate::usb_pipe::PipeAction;
use crate::usb_pipe::PipeEvent;
use crate::usb_pipe::PipeOpenState;
use crate::usb_pipe::UsbPipe;
use crate::usb_pipe::open_step_rel;
use crate::usb_pipe::pipe_action_spec;

verus! {

/// Where the initialization handshake stands: opening the pipe, sending the
/// extended-output command, sending the player-one indicator command, or
/// finished.
pub enum InitState {
    OpeningPipe(PipeOpenState),
    SendingInitCommand(UsbPipe),
    SendingLedCommand(UsbPipe),
    Complete,
    Failed(RuntimeError),
}

/// The outcome of one performed `InitAction`, fed back into the machine.
pub enum InitEvent {
    Pipe(PipeEvent),
    /// The bulk write finished, with the count of bytes written.
    WriteOk(usize),
    /// The bulk write failed, with the transport error's text.
    WriteErr(String),
}

/// The next piece of USB I/O the caller must perform for the machine.
pub enum InitAction {
    Pipe(PipeAction),
    /// Bulk-write `data` to the pipe's OUT endpoint, bounded by the write
    /// timeout and followed by the inter-command spacing.
    Write { endpoint: u8, data: Vec<u8> },
}

impl InitState {
    pub open spec fn wf(&self) -> bool {
        match self {
            InitState::OpeningPipe(s) => s.wf(nintendo_switch_2_device_pids_spec())
                && !s.is_terminal(),
            _ => true,
        }
    }

    pub open spec fn is_terminal(&self) -> bool {
        self is Complete || self is Failed
    }

    /// Which event the state is waiting for; terminal states wait for none.
    pub open spec fn expects(&self, event: InitEvent) -> bool {
        match self {
            InitState::OpeningPipe(s) => event matches InitEvent::Pipe(e) && s.expects(e),
            InitState::SendingInitCommand(_) => event is WriteOk || event is WriteErr,
            InitState::SendingLedCommand(_) => event is WriteOk || event is WriteErr,
            InitState::Complete => false,
            InitState::Failed(_) => false,
        }
    }
}

/// The initialization handshake's transition table: pipe events drive the
/// inner open machine, whose terminal states fold into this one; a successful
/// write advances to the next command; a failed write fails the handshake.
pub open spec fn init_step_rel(pre: InitState, event: InitEvent, post: InitState) -> bool {
    match (pre, event) {
        (InitState::OpeningPipe(s), InitEvent::Pipe(e)) => match post {
            InitState::OpeningPipe(s2) => open_step_rel(
                s,
                e,
                nintendo_switch_2_device_pids_spec(),
                s2,
            ) && !s2.is_terminal(),
            InitState::SendingInitCommand(pipe) => open_step_rel(
                s,
                e,
                nintendo_switch_2_device_pids_spec(),
                PipeOpenState::Done(pipe),
            ),
            InitState::Failed(err) => open_step_rel(
                s,
                e,
                nintendo_switch_2_device_pids_spec(),
                PipeOpenState::Failed(err),
            ),
            _ => false,
        },
        (InitState::SendingInitCommand(pipe), InitEvent::WriteOk(_)) => post
            == InitState::SendingLedCommand(pipe),
        (InitState::SendingInitCommand(_), InitEvent::WriteErr(m)) => post
            matches InitState::Failed(e) && e matches RuntimeError::Usb(m2) && m2@ == m@,
        (InitState::SendingLedCommand(_), InitEvent::WriteOk(_)) => post == InitState::Complete,
        (InitState::SendingLedCommand(_), InitEvent::WriteErr(m)) => post
            matches InitState::Failed(e) && e matches RuntimeError::Usb(m2) && m2@ == m@,
        _ => false,
    }
}

/// What I/O each state owes: the inner open machine's action while opening,
/// then one bulk write per command, in strict order — the extended-output
/// command first, the player-one indicator second.
pub open spec fn init_action_rel(state: InitState, r: Option<InitAction>) -> bool {
    match state {
        InitState::OpeningPipe(s) => r matches Some(a) && a matches InitAction::Pipe(p) && Some(p)
            == pipe_action_spec(s, nintendo_switch_2_device_pids_spec(), VID_NINTENDO),
        InitState::SendingInitCommand(pipe) => r matches Some(a) && a matches InitAction::Write {
            endpoint,
            data,
        } && endpoint == pipe.serial_tx && data@ == command_init_hid_output_spec(),
        InitState::SendingLedCommand(pipe) => r matches Some(a) && a matches InitAction::Write {
            endpoint,
            data,
        } && endpoint == pipe.serial_tx && data@ == command_set_player_one_led_spec(),
        InitState::Complete => r is None,
        InitState::Failed(_) => r is None,
    }
}

/// Owns the one-time setup of the physical controller.
pub struct ProCon2DeviceManager {}

impl ProCon2DeviceManager {
    /// Where the initialization handshake starts: probing the first candidate
    /// product ID against the Nintendo vendor ID.
    pub fn init_hid_output_start() -> (r: InitState)
        ensures
            r == InitState::OpeningPipe(PipeOpenState::Probing { pid_index: 0usize }),
            r.wf(),
    {
        let pids = nintendo_switch_2_device_pids();
        InitState::OpeningPipe(PipeOpenState::start(&pids))
    }

    /// The I/O step the caller owes the current state; none once terminal.
    pub fn init_action(state: &InitState) -> (r: Option<InitAction>)
        requires
            state.wf(),
        ensures
            init_action_rel(*state, r),
    {
        match state {
            InitState::OpeningPipe(s) => {
                let pids = nintendo_switch_2_device_pids();
                match s.action(&pids, VID_NINTENDO) {
                    Some(a) => Some(InitAction::Pipe(a)),
                    None => unreached(),
                }
            },
            InitState::SendingInitCommand(pipe) => Some(
                InitAction::Write { endpoint: pipe.serial_tx, data: command_init_hid_output() },
            ),
            InitState::SendingLedCommand(pipe) => Some(
                InitAction::Write { endpoint: pipe.serial_tx, data: command_set_player_one_led() },
            ),
            InitState::Complete => None,
            InitState::Failed(_) => None,
        }
    }

    /// One step of the initialization handshake: consumes the outcome of the
    /// state's action and moves to the state the transition table owes. Any
    /// pipe-open failure or write failure fails the whole handshake; success
    /// everywhere ends `Complete` after exactly the two commands, in order.
    pub fn init_hid_output(state: InitState, event: InitEvent) -> (next: InitState)
        requires
            state.wf(),
            state.expects(event),
        ensures
            init_step_rel(state, event, next),
            next.wf(),
    {
        match (state, event) {
            (InitState::OpeningPipe(s), InitEvent::Pipe(e)) => {
                let pids = nintendo_switch_2_device_pids();
                let stepped = UsbPipe::open_usb_pipe(s, e, &pids);
                match stepped {
                    PipeOpenState::Done(pipe) => InitState::SendingInitCommand(pipe),
                    PipeOpenState::Failed(err) => InitState::Failed(err),
                    other => InitState::OpeningPipe(other),
                }
            },
            (InitState::SendingInitCommand(pipe), InitEvent::WriteOk(_)) => {
                InitState::SendingLedCommand(pipe)
            },
            (InitState::SendingInitCommand(_), InitEvent::WriteErr(m)) => {
                InitState::Failed(RuntimeError::Usb(m))
            },
            (InitState::SendingLedCommand(_), InitEvent::WriteOk(_)) => InitState::Complete,
            (InitState::SendingLedCommand(_), InitEvent::WriteErr(m)) => {
                InitState::Failed(RuntimeError::Usb(m))
            },
            _ => unreached(),
        }
    }
}

} // verus!
