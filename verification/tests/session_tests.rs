use vlfd_rs::Device;
use vlfd_rs::error::Error;

fn closed_device() -> Device {
    Device::new().expect("transport construction cannot fail before any libusb call")
}

#[test]
fn exit_io_mode_on_closed_session_is_noop_success() {
    let mut device = closed_device();
    assert!(device.exit_io_mode().is_ok());
    assert!(!device.is_open());
}

#[test]
fn close_on_closed_session_succeeds() {
    let mut device = closed_device();
    assert!(device.close().is_ok());
    assert!(!device.is_open());
}

#[test]
fn direct_fifo_access_needs_an_open_session() {
    let mut device = closed_device();
    assert_eq!(device.fifo_write(&vec![1, 2, 3]).unwrap_err(), Error::DeviceNotOpen);
    assert_eq!(device.fifo_read(4).unwrap_err(), Error::DeviceNotOpen);
    assert_eq!(device.reset_engine().unwrap_err(), Error::DeviceNotOpen);
}

#[test]
fn commands_on_closed_session_fail() {
    let mut device = closed_device();
    assert!(device.sync_delay().is_err());
    assert!(device.command_active().is_err());
    assert!(device.activate_vericomm().is_err());
    assert!(device.activate_fpga_programmer().is_err());
}

#[test]
fn config_io_on_closed_session_fails() {
    let mut device = closed_device();
    assert!(device.read_config().is_err());
    assert!(device.write_config().is_err());
    assert!(device.initialize().is_err());
}

#[test]
fn transfer_io_encrypts_before_failing_and_advances_the_cursor() {
    let mut device = closed_device();
    // A fresh session's table is all zero, so encryption leaves the words
    // unchanged even though the cursor moves.
    let mut tx = vec![0x1234u16, 0x5678, 0x9abc];
    assert!(device.transfer_io(&mut tx, 2).is_err());
    assert_eq!(tx, vec![0x1234, 0x5678, 0x9abc]);
    assert_eq!(device.cipher().encode_index(), 3);
    assert_eq!(device.cipher().decode_index(), 0);
}

#[test]
fn device_licence_gen_forwards_the_derivation() {
    let device = closed_device();
    assert_eq!(device.licence_gen(0x1234, 0xabcd), 0x2c54);
}
