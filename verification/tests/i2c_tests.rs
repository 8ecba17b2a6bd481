use aardvark_rs::i2c::{I2CDevice, I2CError, I2cOperation, I2cRequest, AA_I2C_10_BIT_ADDR, AA_I2C_NO_FLAGS};
use aardvark_rs::AardvarkError;

#[test]
fn device_keeps_its_handle() {
    let d = I2CDevice::new(42);
    assert_eq!(d.handle(), 42);
}

#[test]
fn seven_bit_transaction_runs_every_operation() {
    let d = I2CDevice::new(3);
    let mut t = d.transaction_seven_bit(0x38, vec![I2cOperation::Write(2), I2cOperation::Read(4)]);
    let q = t.next_request().unwrap();
    assert_eq!(
        q,
        I2cRequest { handle: 3, address: 0x38, flags: AA_I2C_NO_FLAGS, read: false, num_bytes: 2, index: 0 }
    );
    t.record(0);
    let q = t.next_request().unwrap();
    assert_eq!(
        q,
        I2cRequest { handle: 3, address: 0x38, flags: AA_I2C_NO_FLAGS, read: true, num_bytes: 4, index: 1 }
    );
    t.record(0);
    assert_eq!(t.next_request(), None);
    assert_eq!(t.result(), Ok(()));
}

#[test]
fn ten_bit_transaction_sets_the_flag() {
    let d = I2CDevice::new(9);
    let mut t = d.transaction_ten_bit(0x2a5, vec![I2cOperation::Read(1)]);
    let q = t.next_request().unwrap();
    assert_eq!(q.address, 0x2a5);
    assert_eq!(q.flags, AA_I2C_10_BIT_ADDR);
    assert_eq!(AA_I2C_10_BIT_ADDR, 1);
    assert!(q.read);
    t.record(0);
    assert_eq!(t.result(), Ok(()));
}

#[test]
fn first_failure_stops_the_transaction() {
    let d = I2CDevice::new(1);
    let ops = vec![I2cOperation::Write(1), I2cOperation::Write(2), I2cOperation::Read(3)];
    let mut t = d.transaction_seven_bit(0x10, ops);
    assert_eq!(t.next_request().unwrap().index, 0);
    t.record(0);
    assert_eq!(t.next_request().unwrap().index, 1);
    t.record(-7);
    // The third operation is never requested.
    assert_eq!(t.next_request(), None);
    let err = t.result().unwrap_err();
    assert_eq!(err.error().get(), -7);
    assert_eq!(err, I2CError::new(AardvarkError::new(-7)));
}

#[test]
fn byte_counts_are_success() {
    let d = I2CDevice::new(1);
    let mut t = d.transaction_seven_bit(0x38, vec![I2cOperation::Write(2), I2cOperation::Read(4)]);
    t.record(2);
    assert_eq!(t.next_request().unwrap().index, 1);
    t.record(4);
    assert_eq!(t.next_request(), None);
    assert_eq!(t.result(), Ok(()));
}

#[test]
fn seven_bit_requests_match_ten_bit_but_for_the_flag() {
    let d = I2CDevice::new(6);
    let ops = vec![I2cOperation::Write(3), I2cOperation::Read(2)];
    let mut seven = d.transaction_seven_bit(0x50, ops.clone());
    let mut ten = d.transaction_ten_bit(0x50, ops);
    for status in [3, -9] {
        let a = seven.next_request().unwrap();
        let b = ten.next_request().unwrap();
        assert_eq!(a, I2cRequest { flags: AA_I2C_NO_FLAGS, ..b });
        assert_eq!(a.handle, 6);
        seven.record(status);
        ten.record(status);
    }
    assert_eq!(seven.next_request(), None);
    assert_eq!(ten.next_request(), None);
    assert_eq!(seven.result(), ten.result());
    assert_eq!(seven.result().unwrap_err().error().get(), -9);
}

#[test]
fn empty_transaction_succeeds() {
    let d = I2CDevice::new(1);
    let t = d.transaction_ten_bit(5, vec![]);
    assert_eq!(t.next_request(), None);
    assert_eq!(t.result(), Ok(()));
}

#[test]
fn byte_count_is_sixteen_bits() {
    let d = I2CDevice::new(1);
    let t = d.transaction_seven_bit(1, vec![I2cOperation::Read(70000)]);
    assert_eq!(t.next_request().unwrap().num_bytes, 4464);
    let t = d.transaction_seven_bit(1, vec![I2cOperation::Write(65535)]);
    assert_eq!(t.next_request().unwrap().num_bytes, 65535);
    let t = d.transaction_seven_bit(1, vec![I2cOperation::Write(65536)]);
    assert_eq!(t.next_request().unwrap().num_bytes, 0);
}

#[test]
fn i2c_error_displays_as_its_adapter_error() {
    let e = I2CError::new(AardvarkError::new(-3));
    assert_eq!(e.to_string(), "Aardvark error: -3");
    assert_eq!(e.error(), AardvarkError::new(-3));
}
