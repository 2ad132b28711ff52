//! A simulated bus transport.
//!
//! `SimBus` answers reads from a fixed response pattern, can be told to
//! fail writes or reads, and keeps the full log of attempted operations.
//! It is the stand-in for the board's I2C peripheral when the sensor client
//! is exercised off the hardware, and it satisfies the `BusTransport`
//! contract like any other transport.

use vstd::prelude::*;

use crate::bus::{BusError, BusOp, BusOpView, BusTransport, read_payload};

verus! {

/// Fault code `SimBus` reports for a write it was told to fail.
pub const SIM_WRITE_FAULT: u32 = 1;

/// Fault code `SimBus` reports for a read it was told to fail, or one it
/// cannot serve from its response pattern.
pub const SIM_READ_FAULT: u32 = 2;

/// The view of a log of operations.
pub open spec fn log_view(log: Seq<BusOp>) -> Seq<BusOpView> {
    log.map_values(|op: BusOp| op@)
}

proof fn lemma_log_view_push(log: Seq<BusOp>, op: BusOp)
    ensures
        log_view(log.push(op)) == log_view(log).push(op@),
{
    assert(log_view(log.push(op)) =~= log_view(log).push(op@));
}

/// A bus transport that serves every read from the front of a fixed
/// response pattern and logs every attempted operation.
pub struct SimBus {
    log: Vec<BusOp>,
    response: Vec<u8>,
    fail_writes: bool,
    fail_reads: bool,
}

impl SimBus {
    /// The fixed bytes reads are served from.
    pub closed spec fn spec_response(&self) -> Seq<u8> {
        self.response@
    }

    /// Whether writes are currently told to fail.
    pub closed spec fn spec_fail_writes(&self) -> bool {
        self.fail_writes
    }

    /// Whether reads are currently told to fail.
    pub closed spec fn spec_fail_reads(&self) -> bool {
        self.fail_reads
    }

    /// A bus with an empty log that will serve each read from the front of
    /// `response` and fail nothing.
    pub fn new(response: Vec<u8>) -> (bus: SimBus)
        ensures
            bus.history() == Seq::<BusOpView>::empty(),
            bus.spec_response() == response@,
            !bus.spec_fail_writes(),
            !bus.spec_fail_reads(),
    {
        let bus = SimBus { log: Vec::new(), response, fail_writes: false, fail_reads: false };
        proof {
            assert(bus.history() =~= Seq::<BusOpView>::empty());
        }
        bus
    }

    /// Tells the bus to fail (or again serve) writes from now on.
    pub fn set_fail_writes(&mut self, fail: bool)
        ensures
            final(self).history() == old(self).history(),
            final(self).spec_response() == old(self).spec_response(),
            final(self).spec_fail_writes() == fail,
            final(self).spec_fail_reads() == old(self).spec_fail_reads(),
    {
        self.fail_writes = fail;
    }

    /// Tells the bus to fail (or again serve) reads from now on.
    pub fn set_fail_reads(&mut self, fail: bool)
        ensures
            final(self).history() == old(self).history(),
            final(self).spec_response() == old(self).spec_response(),
            final(self).spec_fail_writes() == old(self).spec_fail_writes(),
            final(self).spec_fail_reads() == fail,
    {
        self.fail_reads = fail;
    }

    /// The log of attempted operations, oldest first.
    pub fn ops(&self) -> (log: &Vec<BusOp>)
        ensures
            log_view(log@) == self.history(),
    {
        &self.log
    }

    /// How many operations were attempted.
    pub fn op_count(&self) -> (n: usize)
        ensures
            n == self.history().len(),
    {
        self.log.len()
    }

    /// How many of the attempted operations were writes.
    pub fn write_count(&self) -> (n: usize)
        ensures
            n == count_writes(self.history()),
    {
        let mut n: usize = 0;
        let mut i: usize = 0;
        while i < self.log.len()
            invariant
                i <= self.log@.len(),
                n <= i,
                n == count_writes(self.history().take(i as int)),
            decreases self.log@.len() - i,
        {
            let is_write = match &self.log[i] {
                BusOp::Write { .. } => true,
                BusOp::Read { .. } => false,
            };
            proof {
                let h = self.history();
                assert(h.take(i + 1).drop_last() =~= h.take(i as int));
                assert(h.take(i + 1).last() == h[i as int]);
            }
            if is_write {
                n = n + 1;
            }
            i = i + 1;
        }
        proof {
            assert(self.history().take(self.log@.len() as int) =~= self.history());
        }
        n
    }
}

/// How many operations of a history are writes.
pub open spec fn count_writes(h: Seq<BusOpView>) -> nat
    decreases h.len(),
{
    if h.len() == 0 {
        0
    } else {
        count_writes(h.drop_last()) + if h.last() is Write {
            1nat
        } else {
            0nat
        }
    }
}

/// Copies the first `len` bytes of `src`.
fn copy_prefix(src: &Vec<u8>, len: usize) -> (out: Vec<u8>)
    requires
        len <= src.len(),
    ensures
        out@ == src@.take(len as int),
{
    let mut out: Vec<u8> = Vec::new();
    let mut i: usize = 0;
    while i < len
        invariant
            i <= len <= src@.len(),
            out@ == src@.take(i as int),
        decreases len - i,
    {
        out.push(src[i]);
        i = i + 1;
        proof {
            assert(out@ =~= src@.take(i as int));
        }
    }
    out
}

impl BusTransport for SimBus {
    closed spec fn history(&self) -> Seq<BusOpView> {
        log_view(self.log@)
    }

    fn write(&mut self, addr: u8, data: &Vec<u8>) -> (r: Result<(), BusError>)
        ensures
            r is Ok <==> !old(self).spec_fail_writes(),
            final(self).spec_response() == old(self).spec_response(),
            final(self).spec_fail_writes() == old(self).spec_fail_writes(),
            final(self).spec_fail_reads() == old(self).spec_fail_reads(),
    {
        let entry = BusOp::Write { addr, data: vstd::slice::slice_to_vec(data.as_slice()) };
        proof {
            lemma_log_view_push(self.log@, entry);
        }
        self.log.push(entry);
        if self.fail_writes {
            Err(BusError { code: SIM_WRITE_FAULT })
        } else {
            Ok(())
        }
    }

    fn read(&mut self, addr: u8, len: usize) -> (r: Result<Vec<u8>, BusError>)
        ensures
            r is Ok <==> !old(self).spec_fail_reads() && len <= old(self).spec_response().len(),
            r matches Ok(v) ==> v@ == old(self).spec_response().take(len as int),
            final(self).spec_response() == old(self).spec_response(),
            final(self).spec_fail_writes() == old(self).spec_fail_writes(),
            final(self).spec_fail_reads() == old(self).spec_fail_reads(),
    {
        if self.fail_reads || len > self.response.len() {
            let entry = BusOp::Read { addr, len, data: Vec::new() };
            proof {
                lemma_log_view_push(self.log@, entry);
            }
            self.log.push(entry);
            Err(BusError { code: SIM_READ_FAULT })
        } else {
            let payload = copy_prefix(&self.response, len);
            let entry = BusOp::Read {
                addr,
                len,
                data: vstd::slice::slice_to_vec(payload.as_slice()),
            };
            proof {
                lemma_log_view_push(self.log@, entry);
            }
            self.log.push(entry);
            Ok(payload)
        }
    }
}

} // verus!
