use aardvark_rs::session::{OpenAction, OpenEvent, OpenStage, AA_CONFIG_SPI_I2C};
use aardvark_rs::{find_and_open_first_unused_device, open_i2c};

fn ports(list: &[u16]) -> Vec<u16> {
    let mut buffer = vec![0u16; 16];
    buffer[..list.len()].copy_from_slice(list);
    buffer
}

#[test]
fn i2c_session_success() {
    let (mut s, a) = open_i2c(100);
    assert!(matches!(a, OpenAction::FindDevices { max_devices: 16 }));
    assert_eq!(s.stage(), OpenStage::FindDevices);
    let a = s.step(OpenEvent::DevicesFound { count: 3, ports: ports(&[0x8000, 5, 6]) });
    assert!(matches!(a, OpenAction::OpenPort { port: 5 }));
    let a = s.step(OpenEvent::Returned(77));
    assert!(matches!(a, OpenAction::Configure { handle: 77, config: AA_CONFIG_SPI_I2C }));
    assert_eq!(AA_CONFIG_SPI_I2C, 3);
    let a = s.step(OpenEvent::Returned(3));
    assert!(matches!(a, OpenAction::SetBitrate { handle: 77, bitrate_khz: 100 }));
    let a = s.step(OpenEvent::Returned(100));
    match a {
        OpenAction::Ready(Ok(device)) => assert_eq!(device.handle(), 77),
        other => panic!("unexpected {:?}", other),
    }
    assert_eq!(s.stage(), OpenStage::Finished);
}

#[test]
fn open_session_returns_handle() {
    let (mut s, a) = find_and_open_first_unused_device();
    assert!(matches!(a, OpenAction::FindDevices { max_devices: 16 }));
    let a = s.step(OpenEvent::DevicesFound { count: 1, ports: ports(&[2]) });
    assert!(matches!(a, OpenAction::OpenPort { port: 2 }));
    let a = s.step(OpenEvent::Returned(12));
    assert!(matches!(a, OpenAction::Opened(Ok(12))));
    assert_eq!(s.stage(), OpenStage::Finished);
}

#[test]
fn no_free_adapter_is_unable_to_find_unused_device() {
    let (mut s, _) = find_and_open_first_unused_device();
    let a = s.step(OpenEvent::DevicesFound { count: 2, ports: ports(&[0x8000, 0x8001]) });
    match a {
        OpenAction::Opened(Err(e)) => assert_eq!(e.get(), 1),
        other => panic!("unexpected {:?}", other),
    }
    let (mut s, _) = open_i2c(400);
    let a = s.step(OpenEvent::DevicesFound { count: 0, ports: ports(&[]) });
    match a {
        OpenAction::Ready(Err(e)) => assert_eq!(e.get(), 1),
        other => panic!("unexpected {:?}", other),
    }
}

#[test]
fn failed_scan_reports_its_status() {
    let (mut s, _) = open_i2c(100);
    let a = s.step(OpenEvent::DevicesFound { count: -4, ports: ports(&[]) });
    match a {
        OpenAction::Ready(Err(e)) => assert_eq!(e.get(), -4),
        other => panic!("unexpected {:?}", other),
    }
    assert_eq!(s.stage(), OpenStage::Finished);
}

#[test]
fn failed_open_reports_its_status() {
    let (mut s, _) = open_i2c(100);
    s.step(OpenEvent::DevicesFound { count: 1, ports: ports(&[1]) });
    let a = s.step(OpenEvent::Returned(-7));
    match a {
        OpenAction::Ready(Err(e)) => assert_eq!(e.get(), -7),
        other => panic!("unexpected {:?}", other),
    }
    assert_eq!(s.stage(), OpenStage::Finished);
}

#[test]
fn failed_configure_and_bitrate_report_their_status() {
    let (mut s, _) = open_i2c(100);
    s.step(OpenEvent::DevicesFound { count: 1, ports: ports(&[1]) });
    s.step(OpenEvent::Returned(5));
    let a = s.step(OpenEvent::Returned(-6));
    match a {
        OpenAction::Ready(Err(e)) => assert_eq!(e.get(), -6),
        other => panic!("unexpected {:?}", other),
    }
    let (mut s, _) = open_i2c(100);
    s.step(OpenEvent::DevicesFound { count: 1, ports: ports(&[1]) });
    s.step(OpenEvent::Returned(5));
    s.step(OpenEvent::Returned(3));
    let a = s.step(OpenEvent::Returned(-1));
    match a {
        OpenAction::Ready(Err(e)) => assert_eq!(e.get(), -1),
        other => panic!("unexpected {:?}", other),
    }
}
