use serial_thread::{
    BaudRate, CharSize, FlowControl, Intake, Mode, Parity, SerialInterface, SerialInterfaceError,
    SerialMessage, Status, StopBits,
};

#[test]
fn get_connection_status_reports_closed_and_open() {
    let mut s = SerialInterface::new().unwrap().path("/dev/ttyUSB0".to_string());
    let r = s.handle_message(SerialMessage::GetConnectionStatus);
    assert_eq!(r, Intake::Done(vec![SerialMessage::Connected(false)]));
    s.open().unwrap();
    let r = s.handle_message(SerialMessage::GetConnectionStatus);
    assert_eq!(r, Intake::Done(vec![SerialMessage::Connected(true)]));
}

#[test]
fn get_status_is_answered_without_side_effect() {
    let mut s = SerialInterface::new().unwrap();
    let before = (s.mode, s.status, s.timeout);
    let r1 = s.handle_message(SerialMessage::GetStatus);
    let r2 = s.handle_message(SerialMessage::GetStatus);
    assert_eq!(r1, Intake::Done(vec![SerialMessage::Status(Status::Idle)]));
    assert_eq!(r2, Intake::Done(vec![SerialMessage::Status(Status::Idle)]));
    assert_eq!((s.mode, s.status, s.timeout), before);
}

#[test]
fn ping_is_answered_by_pong_in_every_mode() {
    let mut s = SerialInterface::new().unwrap();
    assert_eq!(s.handle_message(SerialMessage::Ping), Intake::Done(vec![SerialMessage::Pong]));
    s.set_mode(Mode::Master).unwrap();
    assert_eq!(s.handle_message(SerialMessage::Ping), Intake::Done(vec![SerialMessage::Pong]));
    assert_eq!(s.mode, Mode::Master);
}

#[test]
fn set_timeout_is_honoured_in_every_mode() {
    let mut s = SerialInterface::new().unwrap();
    s.set_mode(Mode::Sniff).unwrap();
    let r = s.handle_message(SerialMessage::SetTimeout(123456));
    assert_eq!(r, Intake::Done(vec![]));
    assert_eq!(s.timeout, 123456);
}

#[test]
fn settings_are_applied_in_stop() {
    let mut s = SerialInterface::new().unwrap();
    s.handle_message(SerialMessage::SetPort("/dev/ttyS1".to_string()));
    s.handle_message(SerialMessage::SetBauds(BaudRate::Baud19200));
    s.handle_message(SerialMessage::SetCharSize(CharSize::Bits6));
    s.handle_message(SerialMessage::SetParity(Parity::ParityOdd));
    s.handle_message(SerialMessage::SetStopBits(StopBits::Stop1));
    s.handle_message(SerialMessage::SetFlowControl(FlowControl::FlowSoftware));
    assert_eq!(s.path, Some("/dev/ttyS1".to_string()));
    assert_eq!(s.baud_rate, BaudRate::Baud19200);
    assert_eq!(s.char_size, CharSize::Bits6);
    assert_eq!(s.parity, Parity::ParityOdd);
    assert_eq!(s.stop_bits, StopBits::Stop1);
    assert_eq!(s.flow_control, FlowControl::FlowSoftware);
}

#[test]
fn settings_are_ignored_outside_stop() {
    let mut s = SerialInterface::new().unwrap();
    s.set_mode(Mode::Master).unwrap();
    let r = s.handle_message(SerialMessage::SetPort("/dev/ttyS1".to_string()));
    assert_eq!(r, Intake::Done(vec![]));
    assert_eq!(s.path, None);
    let r = s.handle_message(SerialMessage::SetBauds(BaudRate::Baud300));
    assert_eq!(r, Intake::Done(vec![]));
    assert_eq!(s.baud_rate, BaudRate::Baud115200);
}

#[test]
fn set_mode_is_always_escalated() {
    let mut s = SerialInterface::new().unwrap();
    let r = s.handle_message(SerialMessage::SetMode(Mode::Sniff));
    assert_eq!(r, Intake::Escalate(SerialMessage::SetMode(Mode::Sniff)));
    assert_eq!(s.mode, Mode::Stop);
    s.set_mode(Mode::Master).unwrap();
    let r = s.handle_message(SerialMessage::SetMode(Mode::Stop));
    assert_eq!(r, Intake::Escalate(SerialMessage::SetMode(Mode::Stop)));
    assert_eq!(s.mode, Mode::Master);
}

#[test]
fn send_is_escalated_outside_stop_only() {
    let mut s = SerialInterface::new().unwrap();
    let r = s.handle_message(SerialMessage::Send(vec![1, 2, 3]));
    assert_eq!(r, Intake::Done(vec![]));
    s.set_mode(Mode::Master).unwrap();
    let r = s.handle_message(SerialMessage::Send(vec![1, 2, 3]));
    assert_eq!(r, Intake::Escalate(SerialMessage::Send(vec![1, 2, 3])));
}

#[test]
fn connect_needs_a_path() {
    let mut s = SerialInterface::new().unwrap();
    let r = s.handle_message(SerialMessage::Connect);
    assert_eq!(
        r,
        Intake::Done(vec![
            SerialMessage::Connected(false),
            SerialMessage::Error(SerialInterfaceError::PathMissing),
        ])
    );
    assert!(!s.port_open);
}

#[test]
fn connect_with_open_port_is_refused() {
    let mut s = SerialInterface::new().unwrap().path("/dev/ttyUSB0".to_string());
    s.open().unwrap();
    let r = s.handle_message(SerialMessage::Connect);
    assert_eq!(
        r,
        Intake::Done(vec![
            SerialMessage::Connected(false),
            SerialMessage::Error(SerialInterfaceError::PortAlreadyOpen),
        ])
    );
}

#[test]
fn connect_asks_for_the_operating_system_open() {
    let mut s = SerialInterface::new().unwrap().path("/dev/ttyUSB0".to_string());
    let r = s.handle_message(SerialMessage::Connect);
    assert_eq!(r, Intake::NeedOpen);
    assert!(!s.port_open);
    let evs = s.finish_connect(Ok(()));
    assert_eq!(evs, vec![SerialMessage::Connected(true)]);
    assert!(s.port_open);
}

#[test]
fn failed_connect_reports_the_cause() {
    let mut s = SerialInterface::new().unwrap().path("/dev/ttyUSB0".to_string());
    assert_eq!(s.handle_message(SerialMessage::Connect), Intake::NeedOpen);
    let evs = s.finish_connect(Err(SerialInterfaceError::CannotOpenPort(
        "no such device".to_string(),
    )));
    assert_eq!(
        evs,
        vec![
            SerialMessage::Connected(false),
            SerialMessage::Error(SerialInterfaceError::CannotOpenPort(
                "no such device".to_string()
            )),
        ]
    );
    assert!(!s.port_open);
}

#[test]
fn disconnect_closes_and_reports() {
    let mut s = SerialInterface::new().unwrap().path("/dev/ttyUSB0".to_string());
    s.open().unwrap();
    let r = s.handle_message(SerialMessage::Disconnect);
    assert_eq!(r, Intake::Done(vec![SerialMessage::Connected(false)]));
    assert!(!s.port_open);
}

#[test]
fn disconnect_without_port_reports_the_error() {
    let mut s = SerialInterface::new().unwrap();
    let r = s.handle_message(SerialMessage::Disconnect);
    assert_eq!(
        r,
        Intake::Done(vec![
            SerialMessage::Connected(false),
            SerialMessage::Error(SerialInterfaceError::NoPortToClose),
        ])
    );
}

#[test]
fn list_ports_is_a_stop_mode_request() {
    let mut s = SerialInterface::new().unwrap();
    assert_eq!(s.handle_message(SerialMessage::ListPorts), Intake::NeedPortList);
    s.set_mode(Mode::Sniff).unwrap();
    assert_eq!(s.handle_message(SerialMessage::ListPorts), Intake::Done(vec![]));
}

#[test]
fn supply_port_list_reports_ports_or_the_error() {
    let ports = vec!["/dev/ttyS0".to_string(), "/dev/ttyUSB0".to_string()];
    let r = SerialInterface::supply_port_list(Ok(ports.clone()));
    assert_eq!(r, Ok(vec![SerialMessage::AvailablePorts(ports)]));
    let r = SerialInterface::supply_port_list(Err(SerialInterfaceError::CannotListPorts));
    assert_eq!(r, Err(SerialInterfaceError::CannotListPorts));
}

#[test]
fn response_messages_are_silently_ignored() {
    let mut s = SerialInterface::new().unwrap();
    assert_eq!(s.handle_message(SerialMessage::Pong), Intake::Done(vec![]));
    assert_eq!(s.handle_message(SerialMessage::NoResponse), Intake::Done(vec![]));
    assert_eq!(
        s.handle_message(SerialMessage::Receive(vec![1, 2, 3])),
        Intake::Done(vec![])
    );
    assert_eq!(
        s.handle_message(SerialMessage::Error(SerialInterfaceError::WrongMode)),
        Intake::Done(vec![])
    );
}
