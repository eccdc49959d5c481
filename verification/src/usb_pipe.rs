//! The USB transport pipe: one device handle, one claimed interface, one bulk
//! OUT endpoint (tx) and one bulk IN endpoint (rx).
//!
//! Opening the pipe alternates USB I/O with decisions, so it is a state
//! machine here: `PipeOpenState::action` names the next I/O step the caller
//! must perform, and `UsbPipe::open_usb_pipe` consumes that step's outcome and
//! moves to the next state, ending in `Done` with the pipe's endpoints or in
//! `Failed` with the error the protocol owes.

use vstd::prelude::*;
use crate::runtime_error::RuntimeError;

verus! {

/// The interface the protocol commands travel on.
pub const SERIAL_INTERFACE_NUMBER: u8 = 1;

/// Bound on one bulk write, in milliseconds.
pub const USB_WRITE_TIMEOUT_MS: u64 = 200;

/// Required spacing between consecutive protocol commands, in milliseconds.
pub const USB_COMMAND_SPACING_MS: u64 = 10;

/// A USB endpoint's transfer type, as its descriptor declares it.
#[derive(Clone, Copy, PartialEq, Eq, Structural, Debug)]
pub enum TransferKind {
    Control,
    Isochronous,
    Bulk,
    Interrupt,
}

/// A USB endpoint's direction, seen from the host.
#[derive(Clone, Copy, PartialEq, Eq, Structural, Debug)]
pub enum EndpointDirection {
    Out,
    In,
}

/// What one endpoint descriptor says, reduced to the fields the selection
/// rule reads.
#[derive(Clone, Copy, PartialEq, Eq, Structural, Debug)]
pub struct EndpointDesc {
    pub interface_number: u8,
    pub transfer: TransferKind,
    pub direction: EndpointDirection,
    pub address: u8,
}

/// The opened transport: the claimed interface and the two selected bulk
/// endpoint addresses. The device handle itself stays with the caller that
/// performed the I/O actions.
#[derive(Clone, Copy, PartialEq, Eq, Structural, Debug)]
pub struct UsbPipe {
    pub serial_interface: u8,
    pub serial_tx: u8,
    pub serial_rx: u8,
}

pub open spec fn no_device_found_msg() -> Seq<char> {
    "No Device Found Matching PIDs & VID"@
}

pub open spec fn no_write_endpoint_msg() -> Seq<char> {
    "No Serial WRITE Endpoint Found"@
}

pub open spec fn no_read_endpoint_msg() -> Seq<char> {
    "No Serial READ  Endpoint Found"@
}

pub open spec fn is_bulk_endpoint(e: EndpointDesc, iface: u8, dir: EndpointDirection) -> bool {
    e.interface_number == iface && e.transfer is Bulk && e.direction == dir
}

/// The address of the last bulk endpoint of the given direction on the given
/// interface, if any: when several exist, the last one encountered wins.
pub open spec fn last_bulk_endpoint_address(
    eps: Seq<EndpointDesc>,
    iface: u8,
    dir: EndpointDirection,
) -> Option<u8>
    decreases eps.len(),
{
    if eps.len() == 0 {
        None
    } else if is_bulk_endpoint(eps.last(), iface, dir) {
        Some(eps.last().address)
    } else {
        last_bulk_endpoint_address(eps.drop_last(), iface, dir)
    }
}

/// What endpoint selection owes: both bulk directions found on the interface,
/// or a descriptive error naming the first missing direction (write first).
pub open spec fn select_endpoints_rel(
    eps: Seq<EndpointDesc>,
    iface: u8,
    r: Result<(u8, u8), RuntimeError>,
) -> bool {
    match (
        last_bulk_endpoint_address(eps, iface, EndpointDirection::Out),
        last_bulk_endpoint_address(eps, iface, EndpointDirection::In),
    ) {
        (Some(tx), Some(rx)) => r == Result::<(u8, u8), RuntimeError>::Ok((tx, rx)),
        (None, _) => r matches Err(e) && e matches RuntimeError::Custom(m) && m@
            == no_write_endpoint_msg(),
        (Some(_), None) => r matches Err(e) && e matches RuntimeError::Custom(m) && m@
            == no_read_endpoint_msg(),
    }
}

/// Walks the endpoint descriptors in order and selects the bulk OUT (tx) and
/// bulk IN (rx) addresses on the given interface; among several of one
/// direction the last encountered wins. Fails, naming the direction, when
/// either is absent.
pub fn select_endpoints(endpoints: &Vec<EndpointDesc>, interface_number: u8) -> (r: Result<
    (u8, u8),
    RuntimeError,
>)
    ensures
        select_endpoints_rel(endpoints@, interface_number, r),
{
    let mut serial_tx: Option<u8> = None;
    let mut serial_rx: Option<u8> = None;
    let mut i: usize = 0;
    while i < endpoints.len()
        invariant
            i <= endpoints.len(),
            serial_tx == last_bulk_endpoint_address(
                endpoints@.take(i as int),
                interface_number,
                EndpointDirection::Out,
            ),
            serial_rx == last_bulk_endpoint_address(
                endpoints@.take(i as int),
                interface_number,
                EndpointDirection::In,
            ),
        decreases endpoints.len() - i,
    {
        let ep = endpoints[i];
        if ep.interface_number == interface_number && ep.transfer == TransferKind::Bulk {
            match ep.direction {
                EndpointDirection::Out => serial_tx = Some(ep.address),
                EndpointDirection::In => serial_rx = Some(ep.address),
            }
        }
        proof {
            assert(endpoints@.take(i + 1int).drop_last() =~= endpoints@.take(i as int));
            assert(endpoints@.take(i + 1int).last() == endpoints@[i as int]);
        }
        i = i + 1;
    }
    proof {
        assert(endpoints@.take(endpoints@.len() as int) =~= endpoints@);
    }
    match (serial_tx, serial_rx) {
        (Some(tx), Some(rx)) => Ok((tx, rx)),
        (None, _) => Err(RuntimeError::Custom("No Serial WRITE Endpoint Found".to_owned())),
        (Some(_), None) => Err(RuntimeError::Custom("No Serial READ  Endpoint Found".to_owned())),
    }
}

/// Where the open handshake stands. `Probing` tries candidate product IDs in
/// order; the driver check, the claim and the descriptor walk follow; `Done`
/// and `Failed` are terminal.
pub enum PipeOpenState {
    Probing { pid_index: usize },
    CheckingDriver,
    Detaching,
    Claiming,
    ReadingConfig,
    Done(UsbPipe),
    Failed(RuntimeError),
}

/// The outcome of one performed `PipeAction`, fed back into the machine.
pub enum PipeEvent {
    /// Whether the device with the tried product ID opened.
    Opened(bool),
    /// Whether a kernel driver is bound to the interface (a failed query
    /// counts as not bound).
    DriverActive(bool),
    /// The detach attempt finished; its outcome is tolerated either way.
    Detached,
    ClaimOk,
    /// The claim failed, with the transport error's text.
    ClaimErr(String),
    /// The configuration descriptors were read; every endpoint of every
    /// interface, in descriptor order.
    Config(Vec<EndpointDesc>),
    /// Reading the device or configuration descriptor failed.
    ConfigErr(String),
}

/// The next piece of USB I/O the caller must perform for the machine.
#[derive(Clone, Copy, PartialEq, Eq, Structural, Debug)]
pub enum PipeAction {
    TryOpen { vid: u16, pid: u16 },
    QueryKernelDriver { interface_number: u8 },
    DetachKernelDriver { interface_number: u8 },
    ClaimInterface { interface_number: u8 },
    ReadConfig,
}

impl PipeOpenState {
    pub open spec fn wf(&self, pids: Seq<u16>) -> bool {
        self matches PipeOpenState::Probing { pid_index } ==> pid_index < pids.len()
    }

    pub open spec fn is_terminal(&self) -> bool {
        self is Done || self is Failed
    }

    /// Which event the state is waiting for; terminal states wait for none.
    pub open spec fn expects(&self, event: PipeEvent) -> bool {
        match self {
            PipeOpenState::Probing { .. } => event is Opened,
            PipeOpenState::CheckingDriver => event is DriverActive,
            PipeOpenState::Detaching => event is Detached,
            PipeOpenState::Claiming => event is ClaimOk || event is ClaimErr,
            PipeOpenState::ReadingConfig => event is Config || event is ConfigErr,
            PipeOpenState::Done(_) => false,
            PipeOpenState::Failed(_) => false,
        }
    }

    /// Where the handshake starts: probing the first candidate product ID, or
    /// already failed when there is no candidate at all.
    pub fn start(pids: &Vec<u16>) -> (r: PipeOpenState)
        ensures
            pids@.len() > 0 ==> r == (PipeOpenState::Probing { pid_index: 0usize }),
            pids@.len() == 0 ==> (r matches PipeOpenState::Failed(e) && e
                matches RuntimeError::Custom(m) && m@ == no_device_found_msg()),
            r.wf(pids@),
    {
        if pids.len() > 0 {
            PipeOpenState::Probing { pid_index: 0 }
        } else {
            PipeOpenState::Failed(
                RuntimeError::Custom("No Device Found Matching PIDs & VID".to_owned()),
            )
        }
    }

    /// The I/O step the caller owes this state, over the candidate product
    /// IDs and the vendor ID; terminal states owe none.
    pub fn action(&self, pids: &Vec<u16>, vid: u16) -> (r: Option<PipeAction>)
        requires
            self.wf(pids@),
        ensures
            r == pipe_action_spec(*self, pids@, vid),
    {
        match self {
            PipeOpenState::Probing { pid_index } => Some(
                PipeAction::TryOpen { vid, pid: pids[*pid_index] },
            ),
            PipeOpenState::CheckingDriver => Some(
                PipeAction::QueryKernelDriver { interface_number: SERIAL_INTERFACE_NUMBER },
            ),
            PipeOpenState::Detaching => Some(
                PipeAction::DetachKernelDriver { interface_number: SERIAL_INTERFACE_NUMBER },
            ),
            PipeOpenState::Claiming => Some(
                PipeAction::ClaimInterface { interface_number: SERIAL_INTERFACE_NUMBER },
            ),
            PipeOpenState::ReadingConfig => Some(PipeAction::ReadConfig),
            PipeOpenState::Done(_) => None,
            PipeOpenState::Failed(_) => None,
        }
    }
}

pub open spec fn pipe_action_spec(state: PipeOpenState, pids: Seq<u16>, vid: u16) -> Option<
    PipeAction,
> {
    match state {
        PipeOpenState::Probing { pid_index } => Some(
            PipeAction::TryOpen { vid, pid: pids[pid_index as int] },
        ),
        PipeOpenState::CheckingDriver => Some(
            PipeAction::QueryKernelDriver { interface_number: SERIAL_INTERFACE_NUMBER },
        ),
        PipeOpenState::Detaching => Some(
            PipeAction::DetachKernelDriver { interface_number: SERIAL_INTERFACE_NUMBER },
        ),
        PipeOpenState::Claiming => Some(
            PipeAction::ClaimInterface { interface_number: SERIAL_INTERFACE_NUMBER },
        ),
        PipeOpenState::ReadingConfig => Some(PipeAction::ReadConfig),
        PipeOpenState::Done(_) => None,
        PipeOpenState::Failed(_) => None,
    }
}

/// What reading the descriptors decides: both bulk directions present on the
/// serial interface makes the pipe, a missing one fails the handshake with
/// the error endpoint selection owes.
pub open spec fn config_step_rel(eps: Seq<EndpointDesc>, post: PipeOpenState) -> bool {
    match (
        last_bulk_endpoint_address(eps, SERIAL_INTERFACE_NUMBER, EndpointDirection::Out),
        last_bulk_endpoint_address(eps, SERIAL_INTERFACE_NUMBER, EndpointDirection::In),
    ) {
        (Some(tx), Some(rx)) => post == PipeOpenState::Done(
            UsbPipe {
                serial_interface: SERIAL_INTERFACE_NUMBER,
                serial_tx: tx,
                serial_rx: rx,
            },
        ),
        (None, _) => post matches PipeOpenState::Failed(e) && e matches RuntimeError::Custom(m)
            && m@ == no_write_endpoint_msg(),
        (Some(_), None) => post matches PipeOpenState::Failed(e) && e
            matches RuntimeError::Custom(m) && m@ == no_read_endpoint_msg(),
    }
}

/// The open handshake's full transition table: which state one event moves
/// the machine to.
pub open spec fn open_step_rel(
    pre: PipeOpenState,
    event: PipeEvent,
    pids: Seq<u16>,
    post: PipeOpenState,
) -> bool {
    match (pre, event) {
        (PipeOpenState::Probing { .. }, PipeEvent::Opened(true)) => post
            == PipeOpenState::CheckingDriver,
        (PipeOpenState::Probing { pid_index }, PipeEvent::Opened(false)) => if pid_index + 1
            < pids.len() {
            post matches PipeOpenState::Probing { pid_index: next_index } && next_index == pid_index
                + 1
        } else {
            post matches PipeOpenState::Failed(e) && e matches RuntimeError::Custom(m) && m@
                == no_device_found_msg()
        },
        (PipeOpenState::CheckingDriver, PipeEvent::DriverActive(true)) => post
            == PipeOpenState::Detaching,
        (PipeOpenState::CheckingDriver, PipeEvent::DriverActive(false)) => post
            == PipeOpenState::Claiming,
        (PipeOpenState::Detaching, PipeEvent::Detached) => post == PipeOpenState::Claiming,
        (PipeOpenState::Claiming, PipeEvent::ClaimOk) => post == PipeOpenState::ReadingConfig,
        (PipeOpenState::Claiming, PipeEvent::ClaimErr(m)) => post matches PipeOpenState::Failed(e)
            && e matches RuntimeError::Usb(m2) && m2@ == m@,
        (PipeOpenState::ReadingConfig, PipeEvent::Config(eps)) => config_step_rel(eps@, post),
        (PipeOpenState::ReadingConfig, PipeEvent::ConfigErr(m)) => post
            matches PipeOpenState::Failed(e) && e matches RuntimeError::Usb(m2) && m2@ == m@,
        _ => false,
    }
}

impl UsbPipe {
    /// One step of the open handshake: consumes the outcome of the state's
    /// action and moves to the state the transition table owes. A kernel
    /// driver bound to the interface is detached best-effort; a failed claim
    /// or descriptor read fails the handshake; running out of candidate
    /// product IDs fails it with the not-found error.
    pub fn open_usb_pipe(state: PipeOpenState, event: PipeEvent, pids: &Vec<u16>) -> (next:
        PipeOpenState)
        requires
            state.wf(pids@),
            state.expects(event),
        ensures
            open_step_rel(state, event, pids@, next),
            next.wf(pids@),
    {
        match (state, event) {
            (PipeOpenState::Probing { .. }, PipeEvent::Opened(true)) => {
                PipeOpenState::CheckingDriver
            },
            (PipeOpenState::Probing { pid_index }, PipeEvent::Opened(false)) => {
                let candidate_count: usize = pids.len();
                if pid_index + 1 < candidate_count {
                    PipeOpenState::Probing { pid_index: pid_index + 1 }
                } else {
                    PipeOpenState::Failed(
                        RuntimeError::Custom("No Device Found Matching PIDs & VID".to_owned()),
                    )
                }
            },
            (PipeOpenState::CheckingDriver, PipeEvent::DriverActive(true)) => {
                PipeOpenState::Detaching
            },
            (PipeOpenState::CheckingDriver, PipeEvent::DriverActive(false)) => {
                PipeOpenState::Claiming
            },
            (PipeOpenState::Detaching, PipeEvent::Detached) => PipeOpenState::Claiming,
            (PipeOpenState::Claiming, PipeEvent::ClaimOk) => PipeOpenState::ReadingConfig,
            (PipeOpenState::Claiming, PipeEvent::ClaimErr(m)) => {
                PipeOpenState::Failed(RuntimeError::Usb(m))
            },
            (PipeOpenState::ReadingConfig, PipeEvent::Config(eps)) => {
                match select_endpoints(&eps, SERIAL_INTERFACE_NUMBER) {
                    Ok((tx, rx)) => PipeOpenState::Done(
                        UsbPipe {
                            serial_interface: SERIAL_INTERFACE_NUMBER,
                            serial_tx: tx,
                            serial_rx: rx,
                        },
                    ),
                    Err(e) => PipeOpenState::Failed(e),
                }
            },
            (PipeOpenState::ReadingConfig, PipeEvent::ConfigErr(m)) => {
                PipeOpenState::Failed(RuntimeError::Usb(m))
            },
            _ => unreached(),
        }
    }
}

} // verus!
