use obdium::{Command, CommandType, PayloadComponent, Response};

#[test]
fn pid_command() {
    let c = Command::new_pid(b"010C");
    assert_eq!(*c.command_type(), CommandType::PIDCommand);
    assert_eq!(c.get_pid(), *b"010C");
    assert_eq!(c.as_bytes(), b"010C".to_vec());
    assert_eq!(c.as_string(), "010C");
}

#[test]
fn at_and_service_commands() {
    let at = Command::new_at(b"ATZ");
    assert_eq!(at.get_at(), b"ATZ");
    assert_eq!(at.as_string(), "ATZ");
    let svc = Command::new_svc(b"03");
    assert_eq!(svc.get_svc(), *b"03");
    assert_eq!(svc.as_bytes(), b"03".to_vec());
    let arb = Command::new_arb("221234");
    assert_eq!(arb.get_msg(), "221234");
    assert_eq!(arb.as_bytes(), b"221234".to_vec());
}

#[test]
fn setters_keep_to_their_type() {
    let mut c = Command::default();
    c.set_pid(b"0105");
    assert_eq!(*c.command_type(), CommandType::PIDCommand);
    assert_eq!(c.get_pid(), *b"0105");
    c.set_svc(b"09");
    assert_eq!(c.get_svc(), [0u8, 0u8]);
    let mut a = Command::default();
    assert!(a.set_at(b"ATE0"));
    assert!(!a.set_at(b"AT"));
    assert_eq!(a.get_at(), b"ATE0");
    let mut p = Command::new_pid(b"010C");
    assert!(!p.set_at(b"ATZ"));
}

#[test]
fn payload_components() {
    assert_eq!(PayloadComponent::A.as_usize(), 0);
    assert_eq!(PayloadComponent::E.as_usize(), 4);
    let r = Response::new("01 0C 41 0C 11 D0".to_string());
    assert_eq!(r.full_response().unwrap(), "01 0C 41 0C 11 D0");
    assert_eq!(*r.get_payload_size(), 0);
    let none = Response::no_data();
    assert!(none.full_response().is_none());
    assert!(none.get_payload().is_none());
}
