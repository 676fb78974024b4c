use vstd::prelude::*;

use crate::transport::{
    ack_of_bulk, bulk_of_transfer, byte_of_bulk, flush_ack_of_bulk, flush_of_status, FlushStatus,
    StreamError, TransferStatus,
};
use usb_device::UsbError;

verus! {

/// Declaration of the device's raw error enum, so the verified
/// classification below can match on it. The type is usb-device's; only its
/// shape is declared here, and nothing about its behavior is assumed.
#[verifier::external_type_specification]
pub struct ExUsbError(usb_device::UsbError);

/// The adapter's reading of a raw bulk-transfer report: a would-block from
/// the device is routine back-pressure - an empty inbound buffer or a full
/// outbound one - while any other error is a genuine fault.
pub open spec fn status_of_report(report: Result<usize, UsbError>) -> TransferStatus {
    match report {
        Ok(n) => TransferStatus::Transferred(n),
        Err(UsbError::WouldBlock) => TransferStatus::Blocked,
        Err(_) => TransferStatus::Fault,
    }
}

/// The adapter's reading of a raw flush report: a would-block means data is
/// still in flight, any other error a genuine fault.
pub open spec fn flush_status_of_report(report: Result<(), UsbError>) -> FlushStatus {
    match report {
        Ok(_) => FlushStatus::Flushed,
        Err(UsbError::WouldBlock) => FlushStatus::InFlight,
        Err(_) => FlushStatus::Fault,
    }
}

/// Classifies what the device returned from a bulk read or write.
pub fn classify_transfer(report: Result<usize, UsbError>) -> (s: TransferStatus)
    ensures
        s == status_of_report(report),
{
    match report {
        Ok(n) => TransferStatus::Transferred(n),
        Err(UsbError::WouldBlock) => TransferStatus::Blocked,
        Err(_) => TransferStatus::Fault,
    }
}

/// Classifies what the device returned from a flush.
pub fn classify_flush(report: Result<(), UsbError>) -> (s: FlushStatus)
    ensures
        s == flush_status_of_report(report),
{
    match report {
        Ok(_) => FlushStatus::Flushed,
        Err(UsbError::WouldBlock) => FlushStatus::InFlight,
        Err(_) => FlushStatus::Fault,
    }
}

/// A single-byte read made while the inbound buffer is empty - the device
/// reports would-block, or a transfer of zero bytes - always becomes the
/// would-block signal, never a fault, whatever the scratch byte held.
pub proof fn lemma_empty_inbound_read_would_blocks(report: Result<usize, UsbError>, scratch: u8)
    requires
        report == Err::<usize, UsbError>(UsbError::WouldBlock) || report == Ok::<usize, UsbError>(
            0usize,
        ),
    ensures
        byte_of_bulk(bulk_of_transfer(status_of_report(report)), scratch) == Err::<u8, StreamError>(
            StreamError::WouldBlock,
        ),
{
}

/// A single-byte write made while the outbound buffer is full - the device
/// reports would-block, or a transfer of zero bytes - always becomes the
/// would-block signal, never a fault. The decision consumes nothing, so the
/// same byte can be offered again once space frees up.
pub proof fn lemma_full_outbound_write_would_blocks(report: Result<usize, UsbError>)
    requires
        report == Err::<usize, UsbError>(UsbError::WouldBlock) || report == Ok::<usize, UsbError>(
            0usize,
        ),
    ensures
        ack_of_bulk(bulk_of_transfer(status_of_report(report))) == Err::<(), StreamError>(
            StreamError::WouldBlock,
        ),
{
}

/// A one-byte transfer reported by the device delivers exactly the scratch
/// byte to the reader, and acknowledges exactly the offered byte to the
/// writer: the whole translation neither alters nor drops it.
pub proof fn lemma_one_byte_report_is_delivered(scratch: u8)
    ensures
        byte_of_bulk(bulk_of_transfer(status_of_report(Ok(1usize))), scratch) == Ok::<
            u8,
            StreamError,
        >(scratch),
        ack_of_bulk(bulk_of_transfer(status_of_report(Ok(1usize)))) == Ok::<(), StreamError>(()),
{
}

/// The stream-level flush faults exactly when the device reported an error
/// other than would-block: in-flight data is still a success, and
/// back-pressure is never escalated.
pub proof fn lemma_flush_report_taxonomy(report: Result<(), UsbError>)
    ensures
        flush_ack_of_bulk(flush_of_status(flush_status_of_report(report))) == Err::<
            (),
            StreamError,
        >(StreamError::Fault) <==> (report is Err && report != Err::<(), UsbError>(
            UsbError::WouldBlock,
        )),
        flush_ack_of_bulk(flush_of_status(flush_status_of_report(report))) != Err::<
            (),
            StreamError,
        >(StreamError::WouldBlock),
{
}

} // verus!
