//! The two-wire bus capability that the driver consumes, together with the
//! error taxonomy of the driver and the specification of the bus-switch
//! selection masks.
//!
//! The bus primitives themselves (bit-banging, switch-chip control) are out
//! of scope: they are injected through the [`TwoWire`] trait. The trait's
//! contract records every completed primitive in a ghost operation trace, so
//! that the driver's transaction sequences can be pinned down byte for byte.

use vstd::prelude::*;

verus! {

/// One completed primitive on the shared two-wire bus, as recorded in the
/// operation trace of a [`TwoWire`] implementation.
#[derive(Clone, Copy, Debug, PartialEq, Eq, Structural)]
pub enum BusOp {
    /// A mask byte written to a bus-switch chip register: chip address, mask.
    SwitchSelect(u8, u8),
    /// A start condition.
    Start,
    /// A repeated-start condition.
    Restart,
    /// A stop condition.
    Stop,
    /// A byte written on the bus and whether the addressed device acknowledged.
    Write(u8, bool),
    /// A byte read from the bus and whether an acknowledge was sent back
    /// (an acknowledge is issued on all but the final byte of a read).
    Read(bool, u8),
}

/// Failure of a single bus primitive (arbitration loss, timing violation).
#[derive(Clone, Copy, Debug, PartialEq, Eq, Structural)]
pub struct BusFault;

/// The phase of a transaction in which a bus primitive failed.
#[derive(Clone, Copy, Debug, PartialEq, Eq, Structural)]
pub enum Phase {
    /// Writing the selection masks to the bus-switch chips.
    Select,
    /// Issuing the start condition.
    Start,
    /// Writing the device address (no acknowledge received counts here too).
    Address,
    /// Writing the register offset.
    Register,
    /// Issuing the repeated-start condition.
    Restart,
    /// Reading a data byte.
    Data,
    /// Issuing the stop condition.
    Stop,
}

/// The error taxonomy of the driver.
#[derive(Clone, Copy, Debug, PartialEq, Eq, Structural)]
pub enum Error {
    /// A bus primitive failed, or a write that had to be acknowledged was
    /// not; carries the phase of the transaction that failed. Not retryable
    /// by this layer.
    Bus(Phase),
    /// The probe at construction found no responding module.
    ModuleNotPresent,
    /// The module does not implement diagnostic monitoring (or requires an
    /// address change for it); a valid terminal state, not a hardware fault.
    DiagnosticsUnavailable,
}

/// The low-level two-wire bus capability the driver depends on.
///
/// Every method that completes records exactly one [`BusOp`] in the ghost
/// trace `ops()`; a method that fails with [`BusFault`] leaves the trace
/// unchanged. Nothing else is promised: whether a write is acknowledged and
/// which byte a read returns are decided by the devices on the bus, so the
/// driver is verified for every possible outcome.
pub trait TwoWire {
    /// The trace of completed bus primitives, oldest first.
    spec fn ops(&self) -> Seq<BusOp>;

    /// Write a selection mask byte to a bus-switch chip register.
    fn switch_select(&mut self, busno: u8, address: u8, mask: u8) -> (r: Result<(), BusFault>)
        ensures
            r is Ok ==> final(self).ops() == old(self).ops().push(BusOp::SwitchSelect(address, mask)),
            r is Err ==> final(self).ops() == old(self).ops(),
    ;

    /// Issue a start condition.
    fn start(&mut self, busno: u8) -> (r: Result<(), BusFault>)
        ensures
            r is Ok ==> final(self).ops() == old(self).ops().push(BusOp::Start),
            r is Err ==> final(self).ops() == old(self).ops(),
    ;

    /// Issue a repeated-start condition.
    fn restart(&mut self, busno: u8) -> (r: Result<(), BusFault>)
        ensures
            r is Ok ==> final(self).ops() == old(self).ops().push(BusOp::Restart),
            r is Err ==> final(self).ops() == old(self).ops(),
    ;

    /// Issue a stop condition.
    fn stop(&mut self, busno: u8) -> (r: Result<(), BusFault>)
        ensures
            r is Ok ==> final(self).ops() == old(self).ops().push(BusOp::Stop),
            r is Err ==> final(self).ops() == old(self).ops(),
    ;

    /// Write one byte; returns whether the addressed device acknowledged.
    fn write(&mut self, busno: u8, data: u8) -> (r: Result<bool, BusFault>)
        ensures
            r matches Ok(ack) ==> final(self).ops() == old(self).ops().push(BusOp::Write(data, ack)),
            r is Err ==> final(self).ops() == old(self).ops(),
    ;

    /// Read one byte, sending an acknowledge back iff `ack` is set.
    fn read(&mut self, busno: u8, ack: bool) -> (r: Result<u8, BusFault>)
        ensures
            r matches Ok(data) ==> final(self).ops() == old(self).ops().push(BusOp::Read(ack, data)),
            r is Err ==> final(self).ops() == old(self).ops(),
    ;
}

/// The mask byte written to the low bus-switch chip for a given port.
pub open spec fn mask_lo(port: u8) -> u8 {
    (1u16 << (port as u16)) as u8
}

/// The mask byte written to the high bus-switch chip for a given port.
pub open spec fn mask_hi(port: u8) -> u8 {
    ((1u16 << (port as u16)) >> 8u16) as u8
}

/// The two switch-register writes that select exactly the given port.
pub open spec fn select_ops(port: u8) -> Seq<BusOp> {
    seq![
        BusOp::SwitchSelect(0x70, mask_lo(port)),
        BusOp::SwitchSelect(0x71, mask_hi(port)),
    ]
}

/// The trace of a presence probe: select, start, one address write (whose
/// acknowledge is the probe's verdict), stop.
pub open spec fn probe_ops(port: u8, device: u8, ack: bool) -> Seq<BusOp> {
    select_ops(port) + seq![BusOp::Start, BusOp::Write(device, ack), BusOp::Stop]
}

/// The read operations for the first bytes of a data phase that will read
/// `total` bytes in all: an acknowledge is sent for every position but the
/// last of the whole phase.
pub open spec fn data_read_ops_upto(bytes: Seq<u8>, total: int) -> Seq<BusOp> {
    Seq::new(bytes.len(), |i: int| BusOp::Read(i < total - 1, bytes[i]))
}

/// The data phase of a read transaction: each byte is acknowledged except
/// the final one, which gets a no-acknowledge.
pub open spec fn data_read_ops(bytes: Seq<u8>) -> Seq<BusOp> {
    data_read_ops_upto(bytes, bytes.len() as int)
}

/// The addressing phases of a read transaction, before any data byte:
/// select, start, acknowledged address and register-pointer writes,
/// repeated start, acknowledged address-plus-read-bit write.
pub open spec fn read_header_ops(port: u8, device: u8, register: u8) -> Seq<BusOp> {
    select_ops(port) + seq![
        BusOp::Start,
        BusOp::Write(device, true),
        BusOp::Write(register, true),
        BusOp::Restart,
        BusOp::Write(device | 1, true),
    ]
}

/// The full trace of a read transaction against `device`, fetching `bytes`
/// starting at register offset `register`: the addressing phases, the data
/// phase, stop.
pub open spec fn read_ops(port: u8, device: u8, register: u8, bytes: Seq<u8>) -> Seq<BusOp> {
    read_header_ops(port, device, register) + data_read_ops(bytes) + seq![BusOp::Stop]
}

/// The operations a read transaction of `total` bytes has appended to the
/// trace when it aborts in the given phase: every earlier phase completed
/// with an acknowledge, the aborting primitive either faulted (leaving no
/// operation) or was a write that went unacknowledged, and no later
/// primitive was issued. `Phase::Address` covers both address writes of the
/// sequence.
pub open spec fn aborted_read_ops(
    port: u8,
    device: u8,
    register: u8,
    total: int,
    appended: Seq<BusOp>,
    phase: Phase,
) -> bool {
    match phase {
        Phase::Select => appended.is_prefix_of(select_ops(port)),
        Phase::Start => appended == select_ops(port),
        Phase::Address => {
            let first = select_ops(port) + seq![BusOp::Start];
            let second = select_ops(port) + seq![
                BusOp::Start,
                BusOp::Write(device, true),
                BusOp::Write(register, true),
                BusOp::Restart,
            ];
            ||| appended == first
            ||| appended == first.push(BusOp::Write(device, false))
            ||| appended == second
            ||| appended == second.push(BusOp::Write(device | 1, false))
        },
        Phase::Register => {
            let pre = select_ops(port) + seq![BusOp::Start, BusOp::Write(device, true)];
            appended == pre || appended == pre.push(BusOp::Write(register, false))
        },
        Phase::Restart => appended == select_ops(port) + seq![
            BusOp::Start,
            BusOp::Write(device, true),
            BusOp::Write(register, true),
        ],
        Phase::Data => exists|bytes: Seq<u8>|
            bytes.len() < total && appended == read_header_ops(port, device, register)
                + #[trigger] data_read_ops_upto(bytes, total),
        Phase::Stop => exists|bytes: Seq<u8>|
            bytes.len() == total && appended == read_header_ops(port, device, register)
                + #[trigger] data_read_ops_upto(bytes, total),
    }
}

/// The operations a presence probe has appended to the trace when it aborts
/// in the given phase: every earlier phase completed, the aborting
/// primitive faulted leaving no operation, and no later primitive was
/// issued. A probe treats either acknowledge value as a completed address
/// write, so only a primitive fault aborts it.
pub open spec fn aborted_probe_ops(port: u8, device: u8, appended: Seq<BusOp>, phase: Phase) -> bool {
    match phase {
        Phase::Select => appended.is_prefix_of(select_ops(port)),
        Phase::Start => appended == select_ops(port),
        Phase::Address => appended == select_ops(port) + seq![BusOp::Start],
        Phase::Stop => appended == select_ops(port) + seq![BusOp::Start, BusOp::Write(device, true)]
            || appended == select_ops(port) + seq![BusOp::Start, BusOp::Write(device, false)],
        _ => false,
    }
}

/// Handles of distinct ports can never select overlapping bits: their
/// selection masks are disjoint on both switch registers.
pub proof fn lemma_select_disjoint(p1: u8, p2: u8)
    requires
        p1 < 16,
        p2 < 16,
        p1 != p2,
    ensures
        mask_lo(p1) & mask_lo(p2) == 0,
        mask_hi(p1) & mask_hi(p2) == 0,
{
    assert(((1u16 << (p1 as u16)) as u8) & ((1u16 << (p2 as u16)) as u8) == 0) by (bit_vector)
        requires
            p1 < 16,
            p2 < 16,
            p1 != p2,
    ;
    assert((((1u16 << (p1 as u16)) >> 8u16) as u8) & (((1u16 << (p2 as u16)) >> 8u16) as u8)
        == 0) by (bit_vector)
        requires
            p1 < 16,
            p2 < 16,
            p1 != p2,
    ;
}

/// The selection mask activates exactly one bit across the two cascaded
/// switch registers, and the combined 16-bit mask equals `1 << port`.
pub proof fn lemma_select_one_bit(port: u8)
    requires
        port < 16,
    ensures
        (mask_lo(port) as u16) + (mask_hi(port) as u16) * 256 == (1u16 << (port as u16)),
        forall|j: u16|
            j < 16 ==> (((#[trigger] ((1u16 << (port as u16)) >> j)) & 1 == 1) <==> j == port
                as u16),
{
    assert((((1u16 << (port as u16)) as u8) as u16) + ((((1u16 << (port as u16)) >> 8u16) as u8)
        as u16) * 256 == (1u16 << (port as u16))) by (bit_vector)
        requires
            port < 16,
    ;
    assert(forall|j: u16|
        j < 16 ==> (((#[trigger] ((1u16 << (port as u16)) >> j)) & 1 == 1) <==> j == port
            as u16)) by (bit_vector)
        requires
            port < 16,
    ;
}

} // verus!
