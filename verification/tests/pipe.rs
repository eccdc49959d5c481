use procon2_xinput::runtime_error::RuntimeError;
use procon2_xinput::usb_pipe::EndpointDesc;
use procon2_xinput::usb_pipe::EndpointDirection;
use procon2_xinput::usb_pipe::PipeAction;
use procon2_xinput::usb_pipe::PipeEvent;
use procon2_xinput::usb_pipe::PipeOpenState;
use procon2_xinput::usb_pipe::TransferKind;
use procon2_xinput::usb_pipe::UsbPipe;
use procon2_xinput::usb_pipe::select_endpoints;

fn endpoint(
    interface_number: u8,
    transfer: TransferKind,
    direction: EndpointDirection,
    address: u8,
) -> EndpointDesc {
    EndpointDesc { interface_number, transfer, direction, address }
}

fn usual_endpoints() -> Vec<EndpointDesc> {
    vec![
        endpoint(0, TransferKind::Interrupt, EndpointDirection::In, 0x81),
        endpoint(1, TransferKind::Bulk, EndpointDirection::Out, 0x02),
        endpoint(1, TransferKind::Bulk, EndpointDirection::In, 0x82),
    ]
}

#[test]
fn select_endpoints_finds_both_directions() {
    let r = select_endpoints(&usual_endpoints(), 1);
    assert_eq!(r.ok(), Some((0x02, 0x82)));
}

#[test]
fn select_endpoints_last_of_a_direction_wins() {
    let eps = vec![
        endpoint(1, TransferKind::Bulk, EndpointDirection::Out, 0x01),
        endpoint(1, TransferKind::Bulk, EndpointDirection::Out, 0x02),
        endpoint(1, TransferKind::Bulk, EndpointDirection::In, 0x81),
        endpoint(1, TransferKind::Bulk, EndpointDirection::In, 0x83),
    ];
    assert_eq!(select_endpoints(&eps, 1).ok(), Some((0x02, 0x83)));
}

#[test]
fn select_endpoints_ignores_other_interfaces_and_transfer_types() {
    let eps = vec![
        endpoint(0, TransferKind::Bulk, EndpointDirection::Out, 0x01),
        endpoint(2, TransferKind::Bulk, EndpointDirection::In, 0x82),
        endpoint(1, TransferKind::Interrupt, EndpointDirection::Out, 0x03),
        endpoint(1, TransferKind::Interrupt, EndpointDirection::In, 0x83),
    ];
    let r = select_endpoints(&eps, 1);
    match r {
        Err(RuntimeError::Custom(m)) => assert_eq!(m, "No Serial WRITE Endpoint Found"),
        other => panic!("expected the missing-write error, got {:?}", other.ok()),
    }
}

#[test]
fn select_endpoints_reports_missing_write_endpoint() {
    let eps = vec![endpoint(1, TransferKind::Bulk, EndpointDirection::In, 0x82)];
    match select_endpoints(&eps, 1) {
        Err(RuntimeError::Custom(m)) => assert_eq!(m, "No Serial WRITE Endpoint Found"),
        other => panic!("expected the missing-write error, got {:?}", other.ok()),
    }
}

#[test]
fn select_endpoints_reports_missing_read_endpoint() {
    let eps = vec![endpoint(1, TransferKind::Bulk, EndpointDirection::Out, 0x02)];
    match select_endpoints(&eps, 1) {
        Err(RuntimeError::Custom(m)) => assert_eq!(m, "No Serial READ  Endpoint Found"),
        other => panic!("expected the missing-read error, got {:?}", other.ok()),
    }
}

fn nintendo_pids() -> Vec<u16> {
    vec![0x2066, 0x2067, 0x2069, 0x2073]
}

#[test]
fn open_tries_every_candidate_pid_then_fails_not_found() {
    let pids = nintendo_pids();
    let mut state = PipeOpenState::start(&pids);
    for (i, pid) in [0x2066u16, 0x2067, 0x2069, 0x2073].into_iter().enumerate() {
        match state.action(&pids, 0x057E) {
            Some(PipeAction::TryOpen { vid, pid: tried }) => {
                assert_eq!(vid, 0x057E);
                assert_eq!(tried, pid, "wrong pid at probe {i}");
            }
            other => panic!("expected a probe action, got {other:?}"),
        }
        state = UsbPipe::open_usb_pipe(state, PipeEvent::Opened(false), &pids);
    }
    match state {
        PipeOpenState::Failed(RuntimeError::Custom(m)) => {
            assert_eq!(m, "No Device Found Matching PIDs & VID");
        }
        _ => panic!("expected the not-found failure"),
    }
}

#[test]
fn open_with_no_candidates_fails_immediately() {
    let pids: Vec<u16> = vec![];
    match PipeOpenState::start(&pids) {
        PipeOpenState::Failed(RuntimeError::Custom(m)) => {
            assert_eq!(m, "No Device Found Matching PIDs & VID");
        }
        _ => panic!("expected the not-found failure"),
    }
}

#[test]
fn open_detaches_an_active_kernel_driver_then_claims() {
    let pids = nintendo_pids();
    let mut state = PipeOpenState::start(&pids);
    state = UsbPipe::open_usb_pipe(state, PipeEvent::Opened(true), &pids);
    assert!(matches!(
        state.action(&pids, 0x057E),
        Some(PipeAction::QueryKernelDriver { interface_number: 1 })
    ));
    state = UsbPipe::open_usb_pipe(state, PipeEvent::DriverActive(true), &pids);
    assert!(matches!(
        state.action(&pids, 0x057E),
        Some(PipeAction::DetachKernelDriver { interface_number: 1 })
    ));
    state = UsbPipe::open_usb_pipe(state, PipeEvent::Detached, &pids);
    assert!(matches!(
        state.action(&pids, 0x057E),
        Some(PipeAction::ClaimInterface { interface_number: 1 })
    ));
}

#[test]
fn open_skips_detach_when_no_driver_is_bound() {
    let pids = nintendo_pids();
    let mut state = PipeOpenState::start(&pids);
    state = UsbPipe::open_usb_pipe(state, PipeEvent::Opened(true), &pids);
    state = UsbPipe::open_usb_pipe(state, PipeEvent::DriverActive(false), &pids);
    assert!(matches!(
        state.action(&pids, 0x057E),
        Some(PipeAction::ClaimInterface { interface_number: 1 })
    ));
}

#[test]
fn open_fails_when_the_claim_fails() {
    let pids = nintendo_pids();
    let mut state = PipeOpenState::start(&pids);
    state = UsbPipe::open_usb_pipe(state, PipeEvent::Opened(true), &pids);
    state = UsbPipe::open_usb_pipe(state, PipeEvent::DriverActive(false), &pids);
    state = UsbPipe::open_usb_pipe(state, PipeEvent::ClaimErr("Resource busy".to_string()), &pids);
    match state {
        PipeOpenState::Failed(RuntimeError::Usb(m)) => assert_eq!(m, "Resource busy"),
        _ => panic!("expected the claim failure"),
    }
}

fn open_up_to_config(pids: &Vec<u16>) -> PipeOpenState {
    let mut state = PipeOpenState::start(pids);
    state = UsbPipe::open_usb_pipe(state, PipeEvent::Opened(false), pids);
    state = UsbPipe::open_usb_pipe(state, PipeEvent::Opened(true), pids);
    state = UsbPipe::open_usb_pipe(state, PipeEvent::DriverActive(true), pids);
    state = UsbPipe::open_usb_pipe(state, PipeEvent::Detached, pids);
    state = UsbPipe::open_usb_pipe(state, PipeEvent::ClaimOk, pids);
    assert!(matches!(state.action(pids, 0x057E), Some(PipeAction::ReadConfig)));
    state
}

#[test]
fn open_succeeds_with_both_bulk_endpoints() {
    let pids = nintendo_pids();
    let state = open_up_to_config(&pids);
    let state = UsbPipe::open_usb_pipe(state, PipeEvent::Config(usual_endpoints()), &pids);
    match state {
        PipeOpenState::Done(pipe) => {
            assert_eq!(
                pipe,
                UsbPipe { serial_interface: 1, serial_tx: 0x02, serial_rx: 0x82 },
            );
        }
        _ => panic!("expected the opened pipe"),
    }
}

#[test]
fn open_fails_without_a_bulk_out_endpoint() {
    let pids = nintendo_pids();
    let state = open_up_to_config(&pids);
    let eps = vec![endpoint(1, TransferKind::Bulk, EndpointDirection::In, 0x82)];
    match UsbPipe::open_usb_pipe(state, PipeEvent::Config(eps), &pids) {
        PipeOpenState::Failed(RuntimeError::Custom(m)) => {
            assert_eq!(m, "No Serial WRITE Endpoint Found");
        }
        _ => panic!("expected the missing-write failure"),
    }
}

#[test]
fn open_fails_without_a_bulk_in_endpoint() {
    let pids = nintendo_pids();
    let state = open_up_to_config(&pids);
    let eps = vec![endpoint(1, TransferKind::Bulk, EndpointDirection::Out, 0x02)];
    match UsbPipe::open_usb_pipe(state, PipeEvent::Config(eps), &pids) {
        PipeOpenState::Failed(RuntimeError::Custom(m)) => {
            assert_eq!(m, "No Serial READ  Endpoint Found");
        }
        _ => panic!("expected the missing-read failure"),
    }
}

#[test]
fn open_fails_when_descriptors_cannot_be_read() {
    let pids = nintendo_pids();
    let state = open_up_to_config(&pids);
    match UsbPipe::open_usb_pipe(state, PipeEvent::ConfigErr("Pipe error".to_string()), &pids) {
        PipeOpenState::Failed(RuntimeError::Usb(m)) => assert_eq!(m, "Pipe error"),
        _ => panic!("expected the descriptor-read failure"),
    }
}
