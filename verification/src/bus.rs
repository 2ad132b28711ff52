//! The addressed bus a sensor client talks over.
//!
//! `BusTransport` models a blocking I2C-style bus: addressed writes and
//! reads that either complete or report a fault. Its specification tracks
//! the sequence of operations attempted on the wire, so a client's contract
//! can say exactly what traffic a call produces. The board's I2C peripheral
//! and the simulated bus used by tests both fit this trait.

use vstd::prelude::*;

verus! {

/// Fault reported by a bus transport. The sensor client does not interpret
/// the cause; the code carries the transport's own fault kind through.
#[derive(Clone, Copy, Debug, PartialEq, Eq, Structural)]
pub struct BusError {
    pub code: u32,
}

/// One operation attempted on the bus, as a transport records it.
#[derive(Debug)]
pub enum BusOp {
    /// An addressed write of the payload bytes.
    Write { addr: u8, data: Vec<u8> },
    /// An addressed read of `len` bytes; `data` holds what came back, and
    /// is empty when the read failed.
    Read { addr: u8, len: usize, data: Vec<u8> },
}

/// The mathematical form of a bus operation.
pub enum BusOpView {
    Write { addr: u8, data: Seq<u8> },
    Read { addr: u8, len: nat, data: Seq<u8> },
}

impl View for BusOp {
    type V = BusOpView;

    open spec fn view(&self) -> BusOpView {
        match self {
            BusOp::Write { addr, data } => BusOpView::Write { addr: *addr, data: data@ },
            BusOp::Read { addr, len, data } => BusOpView::Read {
                addr: *addr,
                len: *len as nat,
                data: data@,
            },
        }
    }
}

/// The payload of a read operation (or of a write: its written bytes).
pub open spec fn op_data(op: BusOpView) -> Seq<u8> {
    match op {
        BusOpView::Write { data, .. } => data,
        BusOpView::Read { data, .. } => data,
    }
}

/// The bytes a read handed back: the payload of a successful read, nothing
/// for a failed one.
pub open spec fn read_payload(r: Result<Vec<u8>, BusError>) -> Seq<u8> {
    match r {
        Ok(v) => v@,
        Err(_) => Seq::<u8>::empty(),
    }
}

/// A blocking, addressed read/write bus.
///
/// `history()` is the sequence of operations attempted on the wire so far,
/// oldest first. Every call appends exactly one entry, whether or not the
/// transport reports success: a fault does not erase the attempt.
pub trait BusTransport: Sized {
    /// The operations attempted on the bus so far, oldest first. The
    /// default — no recorded traffic at all, ever — fits no transport that
    /// honours the contracts below; a transport gives its own account.
    open spec fn history(&self) -> Seq<BusOpView> {
        Seq::<BusOpView>::empty()
    }

    /// Issues an addressed write of `data`. Whether the transport reports
    /// success is its own affair; either way the attempt is recorded.
    fn write(&mut self, addr: u8, data: &Vec<u8>) -> (r: Result<(), BusError>)
        ensures
            final(self).history() == old(self).history().push(
                BusOpView::Write { addr, data: data@ },
            ),
    ;

    /// Issues an addressed read of `len` bytes. A successful read returns
    /// exactly `len` bytes, and the history entry records them; a failed
    /// read records an empty payload.
    fn read(&mut self, addr: u8, len: usize) -> (r: Result<Vec<u8>, BusError>)
        ensures
            final(self).history() == old(self).history().push(
                BusOpView::Read { addr, len: len as nat, data: read_payload(r) },
            ),
            r matches Ok(v) ==> v@.len() == len,
    ;
}

} // verus!
