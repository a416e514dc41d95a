use safe_vex::port::{PortError, PortManager, PORT_COUNT};

#[test]
fn every_port_is_there_at_first() {
    let manager = PortManager::new();
    for port in 0..21u8 {
        assert_eq!(manager.get(port).map(|handle| handle.index()), Ok(port));
    }
    assert_eq!(PORT_COUNT, 21);
}

#[test]
fn get_out_of_range_is_invalid() {
    let manager = PortManager::new();
    assert_eq!(manager.get(21).err(), Some(PortError::PortInvalid));
    assert_eq!(manager.get(22).err(), Some(PortError::PortInvalid));
    assert_eq!(manager.get(255).err(), Some(PortError::PortInvalid));
}

#[test]
fn get_mut_and_take_out_of_range_are_invalid() {
    let mut manager = PortManager::new();
    assert_eq!(manager.get_mut(21).err(), Some(PortError::PortInvalid));
    assert_eq!(manager.take(21).err(), Some(PortError::PortInvalid));
    assert_eq!(manager.take(200).err(), Some(PortError::PortInvalid));
}

#[test]
fn take_hands_out_the_port() {
    let mut manager = PortManager::new();
    let handle = manager.take(4).unwrap();
    assert_eq!(handle.index(), 4);
}

#[test]
fn take_twice_is_taken() {
    let mut manager = PortManager::new();
    assert!(manager.take(7).is_ok());
    assert_eq!(manager.take(7).err(), Some(PortError::PortTaken));
    assert_eq!(manager.take(7).err(), Some(PortError::PortTaken));
}

#[test]
fn a_taken_port_stays_taken() {
    let mut manager = PortManager::new();
    assert!(manager.take(0).is_ok());
    assert_eq!(manager.get(0).err(), Some(PortError::PortTaken));
    assert_eq!(manager.get_mut(0).err(), Some(PortError::PortTaken));
    assert!(manager.take(20).is_ok());
    assert!(manager.get_mut(3).is_ok());
    assert_eq!(manager.get(0).err(), Some(PortError::PortTaken));
    assert_eq!(manager.take(0).err(), Some(PortError::PortTaken));
}

#[test]
fn take_leaves_the_other_ports() {
    let mut manager = PortManager::new();
    assert!(manager.take(10).is_ok());
    for port in 0..21u8 {
        if port != 10 {
            assert_eq!(manager.get(port).map(|handle| handle.index()), Ok(port));
        }
    }
}

#[test]
fn get_mut_reaches_the_port() {
    let mut manager = PortManager::new();
    assert_eq!(manager.get_mut(12).map(|handle| handle.index()), Ok(12));
    assert_eq!(manager.get(12).map(|handle| handle.index()), Ok(12));
}
