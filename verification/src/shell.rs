use vstd::prelude::*;

use crate::report::{classify_flush, classify_transfer, flush_status_of_report, status_of_report};
use crate::transport::{
    ack_of_bulk, bulk_of_transfer, byte_of_bulk, flush_ack_of_bulk, flush_of_status,
    flush_stream_outcome, normalize_flush, normalize_transfer, read_byte_outcome,
    write_byte_outcome, StreamError,
};
use usb_device::UsbError;

verus! {

/// Declaration of the non-blocking result error the shell's stream traits
/// use, so the verified decisions below can build it. The type is nb's; only
/// its shape is declared here.
#[verifier::external_type_specification]
#[verifier::reject_recursive_types(E)]
pub struct ExNbError<E>(nb::Error<E>);

/// The shell-facing form of a read outcome: the byte on success, nb's
/// would-block for back-pressure, and an opaque other-error for a fault.
pub open spec fn nb_read_of(r: Result<u8, StreamError>) -> Result<u8, nb::Error<()>> {
    match r {
        Ok(byte) => Ok(byte),
        Err(StreamError::WouldBlock) => Err(nb::Error::WouldBlock),
        Err(StreamError::Fault) => Err(nb::Error::Other(())),
    }
}

/// The shell-facing form of a write or flush outcome.
pub open spec fn nb_ack_of(r: Result<(), StreamError>) -> Result<(), nb::Error<()>> {
    match r {
        Ok(_) => Ok(()),
        Err(StreamError::WouldBlock) => Err(nb::Error::WouldBlock),
        Err(StreamError::Fault) => Err(nb::Error::Other(())),
    }
}

/// The shell's whole single-byte read decision: the device's raw report of a
/// bulk read into a one-byte scratch buffer becomes the byte, would-block, or
/// an error, exactly as the layered maps compose. A report of more than one
/// byte from a one-byte buffer is excluded outright.
pub fn shell_read_byte(report: Result<usize, UsbError>, scratch: u8) -> (r: Result<
    u8,
    nb::Error<()>,
>)
    requires
        report matches Ok(n) ==> n <= 1,
    ensures
        r == nb_read_of(byte_of_bulk(bulk_of_transfer(status_of_report(report)), scratch)),
{
    let status = classify_transfer(report);
    match read_byte_outcome(normalize_transfer(status), scratch) {
        Ok(byte) => Ok(byte),
        Err(StreamError::WouldBlock) => Err(nb::Error::WouldBlock),
        Err(StreamError::Fault) => Err(nb::Error::Other(())),
    }
}

/// The shell's whole single-byte write decision, the mirror of
/// `shell_read_byte` for a bulk write of a one-byte buffer.
pub fn shell_write_byte(report: Result<usize, UsbError>) -> (r: Result<(), nb::Error<()>>)
    requires
        report matches Ok(n) ==> n <= 1,
    ensures
        r == nb_ack_of(ack_of_bulk(bulk_of_transfer(status_of_report(report)))),
{
    let status = classify_transfer(report);
    match write_byte_outcome(normalize_transfer(status)) {
        Ok(()) => Ok(()),
        Err(StreamError::WouldBlock) => Err(nb::Error::WouldBlock),
        Err(StreamError::Fault) => Err(nb::Error::Other(())),
    }
}

/// The shell's whole flush decision: delegation to the bulk flush, with only
/// a genuine device fault surfacing as an error.
pub fn shell_flush(report: Result<(), UsbError>) -> (r: Result<(), nb::Error<()>>)
    ensures
        r == nb_ack_of(flush_ack_of_bulk(flush_of_status(flush_status_of_report(report)))),
{
    let status = classify_flush(report);
    match flush_stream_outcome(normalize_flush(status)) {
        Ok(()) => Ok(()),
        Err(StreamError::WouldBlock) => Err(nb::Error::WouldBlock),
        Err(StreamError::Fault) => Err(nb::Error::Other(())),
    }
}

} // verus!
