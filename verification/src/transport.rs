use vstd::prelude::*;

verus! {

/// What the packet-oriented serial device reports for one bulk transfer
/// attempt: it moved `n` bytes, it could not move any right now (no data
/// arrived, or no space is left), or it hit a genuine fault such as a stalled
/// endpoint.
#[derive(Clone, Copy, PartialEq, Eq, Structural, Debug)]
pub enum TransferStatus {
    Transferred(usize),
    Blocked,
    Fault,
}

/// What the device reports for a flush request: everything buffered has been
/// handed to the hardware, some of it is still in flight, or a genuine fault.
#[derive(Clone, Copy, PartialEq, Eq, Structural, Debug)]
pub enum FlushStatus {
    Flushed,
    InFlight,
    Fault,
}

/// Opaque transport fault. The bulk API reports it only for a genuine device
/// failure; recovery belongs to the bus stack, so no detail is carried.
#[derive(Clone, Copy, PartialEq, Eq, Structural, Debug)]
pub struct TransportFault;

/// Outcome of a single-byte stream operation that did not succeed: either the
/// routine back-pressure signal (retry on a later loop iteration) or a
/// genuine transport fault.
#[derive(Clone, Copy, PartialEq, Eq, Structural, Debug)]
pub enum StreamError {
    WouldBlock,
    Fault,
}

/// The bulk-level result owed for a device report: a blocked transfer is a
/// count of zero, a moved transfer keeps its count, and only a genuine fault
/// is an error.
pub open spec fn bulk_of_transfer(status: TransferStatus) -> Result<usize, TransportFault> {
    match status {
        TransferStatus::Transferred(n) => Ok(n),
        TransferStatus::Blocked => Ok(0usize),
        TransferStatus::Fault => Err(TransportFault),
    }
}

/// The flush result owed for a device report: both a completed hand-over and
/// data still in flight count as success; only a genuine fault is an error.
pub open spec fn flush_of_status(status: FlushStatus) -> Result<(), TransportFault> {
    match status {
        FlushStatus::Flushed => Ok(()),
        FlushStatus::InFlight => Ok(()),
        FlushStatus::Fault => Err(TransportFault),
    }
}

/// The single-byte read outcome owed for a bulk read into a one-byte scratch
/// buffer holding `scratch`: a count of one yields the byte, a count of zero
/// is the would-block signal, and a bulk fault is a stream fault. Counts
/// above one never reach this map; the executable decision excludes them.
pub open spec fn byte_of_bulk(bulk: Result<usize, TransportFault>, scratch: u8) -> Result<
    u8,
    StreamError,
> {
    match bulk {
        Ok(n) => if n == 1 {
            Ok(scratch)
        } else {
            Err(StreamError::WouldBlock)
        },
        Err(_) => Err(StreamError::Fault),
    }
}

/// The single-byte write outcome owed for a bulk write of a one-byte buffer:
/// a count of one means the byte was accepted, a count of zero is the
/// would-block signal, and a bulk fault is a stream fault. Counts above one
/// never reach this map; the executable decision excludes them.
pub open spec fn ack_of_bulk(bulk: Result<usize, TransportFault>) -> Result<(), StreamError> {
    match bulk {
        Ok(n) => if n == 1 {
            Ok(())
        } else {
            Err(StreamError::WouldBlock)
        },
        Err(_) => Err(StreamError::Fault),
    }
}

/// The stream-level flush outcome owed for a bulk flush result: success
/// passes through, and a bulk fault is a stream fault.
pub open spec fn flush_ack_of_bulk(bulk: Result<(), TransportFault>) -> Result<(), StreamError> {
    match bulk {
        Ok(_) => Ok(()),
        Err(_) => Err(StreamError::Fault),
    }
}

/// Bulk-level normalization: the adapter's bulk read and write report how
/// many bytes moved, with "nothing right now" as a count of zero, and fail
/// only on a genuine device fault - never for an empty or full buffer.
pub fn normalize_transfer(status: TransferStatus) -> (r: Result<usize, TransportFault>)
    ensures
        r == bulk_of_transfer(status),
        r is Err <==> status == TransferStatus::Fault,
{
    match status {
        TransferStatus::Transferred(n) => Ok(n),
        TransferStatus::Blocked => Ok(0),
        TransferStatus::Fault => Err(TransportFault),
    }
}

/// Flush-level normalization: a flush succeeds both when everything was
/// handed over and when data is still in flight; it fails only on a genuine
/// fault.
pub fn normalize_flush(status: FlushStatus) -> (r: Result<(), TransportFault>)
    ensures
        r == flush_of_status(status),
        r is Err <==> status == FlushStatus::Fault,
{
    match status {
        FlushStatus::Flushed => Ok(()),
        FlushStatus::InFlight => Ok(()),
        FlushStatus::Fault => Err(TransportFault),
    }
}

/// Single-byte read decision, layered on the bulk API: a bulk read was made
/// into a one-byte scratch buffer whose byte is `scratch`. A count above one
/// cannot be produced by a one-byte buffer - the device would have broken its
/// contract - so that input is excluded outright rather than given a result.
pub fn read_byte_outcome(bulk: Result<usize, TransportFault>, scratch: u8) -> (r: Result<
    u8,
    StreamError,
>)
    requires
        bulk matches Ok(n) ==> n <= 1,
    ensures
        r == byte_of_bulk(bulk, scratch),
{
    match bulk {
        Ok(1) => Ok(scratch),
        Ok(_) => Err(StreamError::WouldBlock),
        Err(_) => Err(StreamError::Fault),
    }
}

/// Single-byte write decision, layered on the bulk API: a bulk write of a
/// one-byte buffer was made. A count above one cannot be produced by a
/// one-byte buffer and is excluded outright, as in `read_byte_outcome`.
pub fn write_byte_outcome(bulk: Result<usize, TransportFault>) -> (r: Result<(), StreamError>)
    requires
        bulk matches Ok(n) ==> n <= 1,
    ensures
        r == ack_of_bulk(bulk),
{
    match bulk {
        Ok(1) => Ok(()),
        Ok(_) => Err(StreamError::WouldBlock),
        Err(_) => Err(StreamError::Fault),
    }
}

/// Stream-level flush: delegates directly to the bulk flush outcome; a bulk
/// fault maps to a stream fault and nothing else can fail.
pub fn flush_stream_outcome(bulk: Result<(), TransportFault>) -> (r: Result<(), StreamError>)
    ensures
        r == flush_ack_of_bulk(bulk),
{
    match bulk {
        Ok(()) => Ok(()),
        Err(_) => Err(StreamError::Fault),
    }
}

/// Error taxonomy of a single-byte read over the device reports it can get
/// from a one-byte transfer: a stream fault exactly when the device faulted,
/// and the would-block signal exactly when nothing moved. Back-pressure is
/// never escalated to a fault, and a fault is never softened.
pub proof fn lemma_read_taxonomy(status: TransferStatus, scratch: u8)
    requires
        status matches TransferStatus::Transferred(n) ==> n <= 1,
    ensures
        byte_of_bulk(bulk_of_transfer(status), scratch) == Err::<u8, StreamError>(
            StreamError::Fault,
        ) <==> status == TransferStatus::Fault,
        byte_of_bulk(bulk_of_transfer(status), scratch) == Err::<u8, StreamError>(
            StreamError::WouldBlock,
        ) <==> (status == TransferStatus::Blocked || status == TransferStatus::Transferred(0usize)),
        byte_of_bulk(bulk_of_transfer(status), scratch) == Ok::<u8, StreamError>(scratch) <==> status
            == TransferStatus::Transferred(1usize),
{
}

/// Error taxonomy of a single-byte write, the mirror of `lemma_read_taxonomy`.
pub proof fn lemma_write_taxonomy(status: TransferStatus)
    requires
        status matches TransferStatus::Transferred(n) ==> n <= 1,
    ensures
        ack_of_bulk(bulk_of_transfer(status)) == Err::<(), StreamError>(StreamError::Fault) <==> status
            == TransferStatus::Fault,
        ack_of_bulk(bulk_of_transfer(status)) == Err::<(), StreamError>(StreamError::WouldBlock)
            <==> (status == TransferStatus::Blocked || status == TransferStatus::Transferred(
            0usize,
        )),
        ack_of_bulk(bulk_of_transfer(status)) == Ok::<(), StreamError>(()) <==> status
            == TransferStatus::Transferred(1usize),
{
}

} // verus!
