use engine::{get_port, set_port, EngineError};

#[test]
fn port_is_read_back_after_it_is_set() {
    let mut slot: Option<u16> = None;
    assert!(set_port(&mut slot, 50002).is_ok());
    assert_eq!(slot, Some(50002));
    assert_eq!(get_port(&slot).unwrap(), 50002);
}

#[test]
fn port_can_be_set_only_once() {
    let mut slot: Option<u16> = None;
    set_port(&mut slot, 4000).unwrap();
    let second = set_port(&mut slot, 5000);
    assert!(matches!(second, Err(EngineError::PortAlreadySet)));
    assert_eq!(get_port(&slot).unwrap(), 4000);
}

#[test]
fn reading_an_unset_port_fails() {
    let slot: Option<u16> = None;
    assert!(matches!(get_port(&slot), Err(EngineError::PortNotSet)));
}

#[test]
fn port_zero_is_a_port_like_any_other() {
    let mut slot: Option<u16> = None;
    set_port(&mut slot, 0).unwrap();
    assert_eq!(get_port(&slot).unwrap(), 0);
    assert!(matches!(set_port(&mut slot, 0), Err(EngineError::PortAlreadySet)));
}
