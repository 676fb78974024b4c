use usb_device::UsbError;
use usbserial::report::{classify_flush, classify_transfer};
use usbserial::shell::{shell_flush, shell_read_byte, shell_write_byte};
use usbserial::transport::{FlushStatus, TransferStatus};

#[test]
fn classify_counts_pass_through() {
    assert_eq!(classify_transfer(Ok(5)), TransferStatus::Transferred(5));
    assert_eq!(classify_transfer(Ok(0)), TransferStatus::Transferred(0));
}

#[test]
fn classify_would_block_is_back_pressure() {
    assert_eq!(classify_transfer(Err(UsbError::WouldBlock)), TransferStatus::Blocked);
}

#[test]
fn classify_other_errors_are_faults() {
    assert_eq!(classify_transfer(Err(UsbError::InvalidEndpoint)), TransferStatus::Fault);
    assert_eq!(classify_transfer(Err(UsbError::BufferOverflow)), TransferStatus::Fault);
    assert_eq!(classify_transfer(Err(UsbError::InvalidState)), TransferStatus::Fault);
}

#[test]
fn classify_flush_reports() {
    assert_eq!(classify_flush(Ok(())), FlushStatus::Flushed);
    assert_eq!(classify_flush(Err(UsbError::WouldBlock)), FlushStatus::InFlight);
    assert_eq!(classify_flush(Err(UsbError::InvalidEndpoint)), FlushStatus::Fault);
}

#[test]
fn shell_read_delivers_the_single_byte() {
    assert_eq!(shell_read_byte(Ok(1), b'A'), Ok(b'A'));
    assert_eq!(shell_read_byte(Ok(1), 0xff), Ok(0xff));
}

#[test]
fn shell_read_would_blocks_on_empty_reports() {
    assert_eq!(shell_read_byte(Ok(0), b'A'), Err(nb::Error::WouldBlock));
    assert_eq!(shell_read_byte(Err(UsbError::WouldBlock), b'A'), Err(nb::Error::WouldBlock));
}

#[test]
fn shell_read_surfaces_faults_as_other() {
    assert_eq!(shell_read_byte(Err(UsbError::InvalidEndpoint), 0), Err(nb::Error::Other(())));
}

#[test]
fn shell_write_acknowledges_the_single_byte() {
    assert_eq!(shell_write_byte(Ok(1)), Ok(()));
}

#[test]
fn shell_write_would_blocks_on_full_reports() {
    assert_eq!(shell_write_byte(Ok(0)), Err(nb::Error::WouldBlock));
    assert_eq!(shell_write_byte(Err(UsbError::WouldBlock)), Err(nb::Error::WouldBlock));
}

#[test]
fn shell_write_surfaces_faults_as_other() {
    assert_eq!(shell_write_byte(Err(UsbError::InvalidState)), Err(nb::Error::Other(())));
}

#[test]
fn shell_flush_succeeds_with_data_in_flight() {
    assert_eq!(shell_flush(Ok(())), Ok(()));
    assert_eq!(shell_flush(Err(UsbError::WouldBlock)), Ok(()));
}

#[test]
fn shell_flush_surfaces_faults_as_other() {
    assert_eq!(shell_flush(Err(UsbError::InvalidEndpoint)), Err(nb::Error::Other(())));
}
