//! A scripted bus double: a verified [`I2cBus`] implementation for tests.

use vstd::prelude::*;
use crate::bus::I2cBus;

verus! {

/// The error value the scripted bus reports when told to fail.
#[derive(Clone, Copy, Debug, PartialEq, Eq, Structural)]
pub struct MockFault;

/// A bus that records every transaction it completes and answers reads from
/// a canned byte script, failing on demand so that transport errors can be
/// exercised.
pub struct MockBus {
    /// Address and bytes of each completed write transaction, oldest first.
    pub writes: Vec<(u8, Vec<u8>)>,
    /// Address, bytes sent, and bytes received of each completed
    /// write-then-read transaction, oldest first.
    pub reads: Vec<(u8, Vec<u8>, Vec<u8>)>,
    /// Bytes handed back by every read transaction; positions past its end
    /// read as zero.
    pub response: Vec<u8>,
    /// When set, every write transaction fails.
    pub fail_writes: bool,
    /// When set, every read transaction fails.
    pub fail_reads: bool,
}

/// An element-for-element copy of a byte vector.
fn copy_bytes(v: &Vec<u8>) -> (r: Vec<u8>)
    ensures
        r@ == v@,
{
    let mut copy: Vec<u8> = Vec::new();
    let mut i: usize = 0;
    while i < v.len()
        invariant
            i <= v@.len(),
            copy@ == v@.subrange(0, i as int),
        decreases v@.len() - i,
    {
        copy.push(v[i]);
        proof {
            assert(copy@ =~= v@.subrange(0, i as int + 1));
        }
        i = i + 1;
    }
    proof {
        assert(copy@ =~= v@);
    }
    copy
}

impl MockBus {
    /// A bus with empty logs that answers reads from `response` and fails
    /// as told.
    pub fn new(response: Vec<u8>, fail_writes: bool, fail_reads: bool) -> (r: MockBus)
        ensures
            r.write_log() == Seq::<(u8, Seq<u8>)>::empty(),
            r.read_log() == Seq::<(u8, Seq<u8>, Seq<u8>)>::empty(),
            r.response == response,
            r.fail_writes == fail_writes,
            r.fail_reads == fail_reads,
    {
        let bus = MockBus {
            writes: Vec::new(),
            reads: Vec::new(),
            response,
            fail_writes,
            fail_reads,
        };
        proof {
            assert(bus.write_log() =~= Seq::<(u8, Seq<u8>)>::empty());
            assert(bus.read_log() =~= Seq::<(u8, Seq<u8>, Seq<u8>)>::empty());
        }
        bus
    }
}

impl I2cBus for MockBus {
    type BusError = MockFault;

    open spec fn write_log(&self) -> Seq<(u8, Seq<u8>)> {
        self.writes@.map_values(|p: (u8, Vec<u8>)| (p.0, p.1@))
    }

    open spec fn read_log(&self) -> Seq<(u8, Seq<u8>, Seq<u8>)> {
        self.reads@.map_values(|p: (u8, Vec<u8>, Vec<u8>)| (p.0, p.1@, p.2@))
    }

    /// Fails exactly when told to; a completed write records its frame.
    fn write(&mut self, addr: u8, bytes: &Vec<u8>) -> (r: Result<(), MockFault>)
        ensures
            r is Ok <==> !old(self).fail_writes,
            final(self).response == old(self).response,
            final(self).fail_writes == old(self).fail_writes,
            final(self).fail_reads == old(self).fail_reads,
    {
        if self.fail_writes {
            Err(MockFault)
        } else {
            let stored = copy_bytes(bytes);
            self.writes.push((addr, stored));
            proof {
                assert(self.write_log() =~= old(self).write_log().push((addr, bytes@)));
            }
            Ok(())
        }
    }

    /// Fails exactly when told to; a completed read hands back the first
    /// `read_len` script bytes, zero-padded, and records the transaction.
    fn write_read(&mut self, addr: u8, bytes: &Vec<u8>, read_len: usize) -> (r: Result<
        Vec<u8>,
        MockFault,
    >)
        ensures
            r is Ok <==> !old(self).fail_reads,
            r matches Ok(data) ==> forall|i: int|
                0 <= i < read_len ==> data@[i] == (if i < old(self).response@.len() {
                    old(self).response@[i]
                } else {
                    0u8
                }),
            final(self).response == old(self).response,
            final(self).fail_writes == old(self).fail_writes,
            final(self).fail_reads == old(self).fail_reads,
    {
        if self.fail_reads {
            Err(MockFault)
        } else {
            let mut data: Vec<u8> = Vec::new();
            let mut i: usize = 0;
            while i < read_len
                invariant
                    i <= read_len,
                    data@.len() == i,
                    forall|j: int|
                        0 <= j < i ==> data@[j] == (if j < self.response@.len() {
                            self.response@[j]
                        } else {
                            0u8
                        }),
                decreases read_len - i,
            {
                let b: u8 = if i < self.response.len() {
                    self.response[i]
                } else {
                    0u8
                };
                data.push(b);
                i = i + 1;
            }
            let sent = copy_bytes(bytes);
            let received = copy_bytes(&data);
            self.reads.push((addr, sent, received));
            proof {
                assert(self.read_log() =~= old(self).read_log().push((addr, bytes@, data@)));
            }
            Ok(data)
        }
    }
}

} // verus!
