use std::cell::Cell;

use trussed_usbip::{
    driver_step, AppError, Builder, Capabilities, DriverAction, Options, Protocol, Registry,
    Runner, SignalChannel,
};

fn ctaphid_app(codes: &[u8]) -> Capabilities {
    Capabilities { ctaphid: Some(codes.to_vec()), ccid: None }
}

#[test]
fn registered_command_returns_its_57_bytes() {
    let options = Options {
        manufacturer: Some(String::from("Trussed")),
        product: Some(String::from("Trussed")),
        serial_number: None,
        vid: 0x20a0,
        pid: 0x42b2,
    };
    let runner: Runner<(), ()> = Builder::new(options).build();
    assert_eq!(runner.device_options().vid, 0x20a0);
    assert_eq!(runner.device_options().pid, 0x42b2);

    let mut registry = Registry::new();
    assert_eq!(registry.register(ctaphid_app(&[0x60])), 0);

    let mut channel = SignalChannel::new();
    let calls = Cell::new(0u32);
    let response = registry.dispatch(Protocol::Ctaphid, 0x60, &[], |index, command, request| {
        calls.set(calls.get() + 1);
        assert_eq!(index, 0);
        assert_eq!(command, 0x60);
        assert!(request.is_empty());
        channel.notify();
        Ok(vec![0xa5; 57])
    });
    assert_eq!(calls.get(), 1);
    assert_eq!(response.unwrap().len(), 57);
    assert_eq!(driver_step(&mut channel), DriverAction::Process);
    assert_eq!(driver_step(&mut channel), DriverAction::Suspend);
}

#[test]
fn undeclared_command_is_unsupported_and_touches_nothing() {
    let mut registry = Registry::new();
    registry.register(ctaphid_app(&[0x60]));
    let mut channel = SignalChannel::new();
    let calls = Cell::new(0u32);
    let response = registry.dispatch(Protocol::Ctaphid, 0x61, &[1, 2, 3], |_, _, _| {
        calls.set(calls.get() + 1);
        channel.notify();
        Ok(vec![0; 57])
    });
    assert_eq!(response, Err(AppError::UnsupportedCommand));
    assert_eq!(calls.get(), 0);
    assert_eq!(channel.sent(), 0);
    assert_eq!(channel.drained(), 0);
    assert_eq!(driver_step(&mut channel), DriverAction::Suspend);
}

#[test]
fn empty_registry_supports_nothing() {
    let registry = Registry::new();
    assert_eq!(registry.len(), 0);
    assert_eq!(registry.select(Protocol::Ctaphid, 0x60), Err(AppError::UnsupportedCommand));
    assert_eq!(registry.select(Protocol::Ccid, 0x00), Err(AppError::UnsupportedCommand));
    assert!(registry.handlers(Protocol::Ctaphid).is_empty());
}

#[test]
fn first_registered_match_wins() {
    let mut registry = Registry::new();
    registry.register(ctaphid_app(&[0x10, 0x11]));
    registry.register(ctaphid_app(&[0x60, 0x61]));
    registry.register(ctaphid_app(&[0x61, 0x60, 0x10]));
    assert_eq!(registry.len(), 3);
    assert_eq!(registry.select(Protocol::Ctaphid, 0x10), Ok(0));
    assert_eq!(registry.select(Protocol::Ctaphid, 0x11), Ok(0));
    assert_eq!(registry.select(Protocol::Ctaphid, 0x60), Ok(1));
    assert_eq!(registry.select(Protocol::Ctaphid, 0x61), Ok(1));
    assert_eq!(registry.select(Protocol::Ctaphid, 0x62), Err(AppError::UnsupportedCommand));
}

#[test]
fn commands_match_only_within_their_protocol_family() {
    let mut registry = Registry::new();
    registry.register(Capabilities { ctaphid: Some(vec![0x60]), ccid: None });
    registry.register(Capabilities { ctaphid: None, ccid: Some(vec![0x60, 0xa4]) });
    registry.register(Capabilities { ctaphid: Some(vec![0xa4]), ccid: Some(vec![0xa4]) });
    assert_eq!(registry.select(Protocol::Ctaphid, 0x60), Ok(0));
    assert_eq!(registry.select(Protocol::Ccid, 0x60), Ok(1));
    assert_eq!(registry.select(Protocol::Ctaphid, 0xa4), Ok(2));
    assert_eq!(registry.select(Protocol::Ccid, 0xa4), Ok(1));
    assert_eq!(registry.select(Protocol::Ccid, 0x01), Err(AppError::UnsupportedCommand));
}

#[test]
fn handlers_lists_the_family_in_registration_order() {
    let mut registry = Registry::new();
    registry.register(Capabilities { ctaphid: Some(vec![0x60]), ccid: None });
    registry.register(Capabilities { ctaphid: None, ccid: Some(vec![]) });
    registry.register(Capabilities { ctaphid: Some(vec![]), ccid: Some(vec![0xa4]) });
    registry.register(Capabilities { ctaphid: None, ccid: None });
    assert_eq!(registry.handlers(Protocol::Ctaphid), vec![0, 2]);
    assert_eq!(registry.handlers(Protocol::Ccid), vec![1, 2]);
}

#[test]
fn capabilities_answer_for_each_family() {
    let app = Capabilities { ctaphid: Some(vec![0x60, 0x61]), ccid: None };
    assert!(app.has_capability(Protocol::Ctaphid));
    assert!(!app.has_capability(Protocol::Ccid));
    assert!(app.declares(Protocol::Ctaphid, 0x60));
    assert!(app.declares(Protocol::Ctaphid, 0x61));
    assert!(!app.declares(Protocol::Ctaphid, 0x62));
    assert!(!app.declares(Protocol::Ccid, 0x60));
}

#[test]
fn dispatch_calls_the_selected_application_with_the_request() {
    let mut registry = Registry::new();
    registry.register(ctaphid_app(&[0x01]));
    registry.register(ctaphid_app(&[0x60]));
    let response = registry.dispatch(Protocol::Ctaphid, 0x60, &[9, 8, 7], |index, command, request| {
        let mut echo = vec![index as u8, command];
        echo.extend_from_slice(request);
        Ok(echo)
    });
    assert_eq!(response, Ok(vec![1, 0x60, 9, 8, 7]));
}

#[test]
fn failure_of_the_application_is_passed_on() {
    let mut registry = Registry::new();
    registry.register(ctaphid_app(&[0x60]));
    let response = registry.dispatch(Protocol::Ctaphid, 0x60, &[], |_, _, _| Err(AppError::Failed(0x2d)));
    assert_eq!(response, Err(AppError::Failed(0x2d)));
}
