use aardvark_rs::devices::{find_aardvark_devices, is_port_free, unused_devices, AA_PORT_NOT_FREE};
use aardvark_rs::find_unused_aardvark_devices;

#[test]
fn negative_count_is_the_error() {
    let buffer = [0u16; 16];
    let r = find_aardvark_devices(-2, &buffer);
    assert_eq!(r.unwrap_err().get(), -2);
    let r = find_unused_aardvark_devices(-5, &buffer);
    assert_eq!(r.unwrap_err().get(), -5);
}

#[test]
fn count_takes_a_prefix_of_the_buffer() {
    let mut buffer = [0u16; 16];
    buffer[0] = 3;
    buffer[1] = 0x8004;
    buffer[2] = 9;
    assert_eq!(find_aardvark_devices(0, &buffer), Ok(vec![]));
    assert_eq!(find_aardvark_devices(2, &buffer), Ok(vec![3, 0x8004]));
    assert_eq!(find_aardvark_devices(3, &buffer), Ok(vec![3, 0x8004, 9]));
}

#[test]
fn count_beyond_the_buffer_is_cut_to_its_length() {
    let buffer: [u16; 16] = [1, 2, 3, 4, 5, 6, 7, 8, 9, 10, 11, 12, 13, 14, 15, 16];
    let found = find_aardvark_devices(40, &buffer).unwrap();
    assert_eq!(found.len(), 16);
    assert_eq!(found, buffer.to_vec());
    let found = find_aardvark_devices(16, &buffer).unwrap();
    assert_eq!(found, buffer.to_vec());
}

#[test]
fn busy_bit_marks_a_port_in_use() {
    assert_eq!(AA_PORT_NOT_FREE, 0x8000);
    assert!(is_port_free(0));
    assert!(is_port_free(0x7fff));
    assert!(!is_port_free(0x8000));
    assert!(!is_port_free(0x8001));
    assert!(!is_port_free(0xffff));
}

#[test]
fn unused_devices_keep_free_ports_in_order() {
    let ports = vec![0x8000, 2, 0x8003, 7, 1, 0xffff];
    assert_eq!(unused_devices(&ports), vec![2, 7, 1]);
    assert_eq!(unused_devices(&vec![]), Vec::<u16>::new());
    assert_eq!(unused_devices(&vec![0x8001, 0x8002]), Vec::<u16>::new());
}

#[test]
fn find_unused_filters_the_scanned_ports() {
    let mut buffer = [0u16; 16];
    buffer[0] = 0x8000;
    buffer[1] = 4;
    buffer[2] = 0x8007;
    buffer[3] = 5;
    buffer[4] = 6;
    // Only the first four entries were filled by the scan.
    assert_eq!(find_unused_aardvark_devices(4, &buffer), Ok(vec![4, 5]));
    assert_eq!(find_unused_aardvark_devices(1, &buffer), Ok(vec![]));
}
