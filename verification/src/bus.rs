//! The capability the driver requires from its bus collaborator.

use vstd::prelude::*;

verus! {

/// A duplex byte-oriented register bus. The surrounding platform supplies an
/// implementation for the real hardware; [`crate::mock::MockBus`] is a
/// scripted one for tests.
///
/// `write_log` and `read_log` are each implementation's abstract histories of
/// the transactions that completed successfully: for a write, the target
/// address and the bytes sent; for a write-then-read, the target address, the
/// bytes sent, and the bytes received. They let the driver's contracts pin
/// down exactly which frames a successful operation put on the wire and
/// which bytes a successful reading came from. A failed transaction adds
/// nothing to either — whether its bytes physically reached the device is
/// exactly what a transport failure leaves unknown, so the logs only count
/// completed transactions.
pub trait I2cBus: Sized {
    /// The transport's own error type. The driver wraps it without
    /// inspecting it.
    type BusError;

    /// The address and bytes of every successfully completed write
    /// transaction so far, oldest first. The empty default makes the
    /// history clauses below unsatisfiable for a successful transaction, so
    /// a verified implementation must override it with its real history; an
    /// unverified platform bus that keeps the default and still reports
    /// success supplies those clauses on trust alone.
    open spec fn write_log(&self) -> Seq<(u8, Seq<u8>)> {
        Seq::empty()
    }

    /// The address, bytes sent, and bytes received of every successfully
    /// completed write-then-read transaction so far, oldest first. The same
    /// caveat as for `write_log` applies to the empty default.
    open spec fn read_log(&self) -> Seq<(u8, Seq<u8>, Seq<u8>)> {
        Seq::empty()
    }

    /// Transmit `bytes` to the device at `addr` as one write transaction,
    /// blocking until the transport completes or fails. A write transaction
    /// never adds to the read log.
    fn write(&mut self, addr: u8, bytes: &Vec<u8>) -> (r: Result<(), Self::BusError>)
        ensures
            r is Ok ==> final(self).write_log() == old(self).write_log().push((addr, bytes@)),
            r is Err ==> final(self).write_log() == old(self).write_log(),
            final(self).read_log() == old(self).read_log(),
    ;

    /// Transmit `bytes` to the device at `addr`, then read `read_len` bytes
    /// back within the same bus transaction. A read transaction never adds
    /// to the write log.
    fn write_read(&mut self, addr: u8, bytes: &Vec<u8>, read_len: usize) -> (r: Result<
        Vec<u8>,
        Self::BusError,
    >)
        ensures
            r matches Ok(data) ==> {
                &&& data@.len() == read_len
                &&& final(self).read_log() == old(self).read_log().push((addr, bytes@, data@))
            },
            r is Err ==> final(self).read_log() == old(self).read_log(),
            final(self).write_log() == old(self).write_log(),
    ;
}

} // verus!
