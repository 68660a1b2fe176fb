//! The transceiver driver proper: bus selection, the two-wire read
//! transactions against the module-information and diagnostic-monitoring
//! device addresses, and the cached 256-byte memory pages.
//!
//! Every transaction is specified by the exact trace of bus primitives it
//! issues (see [`crate::bus::read_ops`] and [`crate::bus::probe_ops`]), so
//! the wire protocol is pinned down byte for byte for every outcome the bus
//! can produce.

use crate::alarms::Alert;
use crate::alarms::alerts_of;
use crate::alarms::decode_alerts;
use crate::bus::BusOp;
use crate::bus::Error;
use crate::bus::Phase;
use crate::bus::TwoWire;
use crate::bus::aborted_probe_ops;
use crate::bus::aborted_read_ops;
use crate::bus::data_read_ops_upto;
use crate::bus::mask_lo;
use crate::bus::probe_ops;
use crate::bus::read_header_ops;
use crate::bus::read_ops;
use crate::bus::select_ops;
use crate::summary::DiagSummary;
use crate::summary::InfoSummary;
use crate::summary::decode_diag;
use crate::summary::decode_info;
use crate::summary::diag_matches;
use crate::summary::info_matches;
use vstd::prelude::*;

verus! {

/// Whether the module-information page declares diagnostic monitoring that
/// can be used without an address change: bit 2 of byte 92 (address-change
/// required) must be clear, and bit 6 of byte 92 (digital diagnostics
/// implemented) must be set or the compliance byte 94 must be non-zero.
pub open spec fn diag_gate(data: Seq<u8>) -> bool
    recommends
        data.len() == 256,
{
    (data[92] >> 2u8) & 1 == 0 && ((data[92] >> 6u8) & 1 == 1 || data[94] != 0)
}

/// The bus operations a failed construction has appended to the trace: an
/// abort inside the presence probe itself; or a completed, acknowledged
/// probe followed by an aborted module-information read; or additionally a
/// completed information read whose capability bits admit diagnostics,
/// followed by an aborted diagnostic read. In every case the transaction
/// that failed stopped at its failing phase and nothing later was issued.
pub open spec fn aborted_new_ops(port: u8, appended: Seq<BusOp>, phase: Phase) -> bool {
    ||| aborted_probe_ops(port, 0xa0, appended, phase)
    ||| exists|rest: Seq<BusOp>|
        appended == probe_ops(port, 0xa0, true) + rest && #[trigger] aborted_read_ops(
            port,
            0xa0,
            0,
            256,
            rest,
            phase,
        )
    ||| exists|info: Seq<u8>|
        #![trigger read_ops(port, 0xa0, 0, info)]
        {
            &&& info.len() == 256
            &&& diag_gate(info)
            &&& exists|rest: Seq<BusOp>|
                appended == probe_ops(port, 0xa0, true) + read_ops(port, 0xa0, 0, info) + rest
                    && #[trigger] aborted_read_ops(port, 0xa2, 0, 256, rest, phase)
        }
}

/// A handle to one transceiver slot, holding the cached module-information
/// and diagnostic pages.
pub struct SFP {
    /// Identifier of the physical two-wire bus instance.
    pub busno: u8,
    /// Bit position of this slot on the two cascaded bus-switch registers.
    pub port: u8,
    /// Base device address of the module-information EEPROM; the diagnostic
    /// EEPROM answers at base + 2.
    pub address: u8,
    /// Cached module-information page.
    pub sfp_data: Vec<u8>,
    /// Cached diagnostic-monitoring page.
    pub sfp_diag: Vec<u8>,
}

/// A zero-filled byte buffer of the given length.
fn zero_bytes(n: usize) -> (r: Vec<u8>)
    ensures
        r@ == Seq::new(n as nat, |i: int| 0u8),
{
    let mut r: Vec<u8> = Vec::new();
    let mut i: usize = 0;
    while i < n
        invariant
            i <= n,
            r@ == Seq::new(i as nat, |k: int| 0u8),
        decreases n - i,
    {
        r.push(0);
        proof {
            assert(r@ =~= Seq::new((i + 1) as nat, |k: int| 0u8));
        }
        i = i + 1;
    }
    r
}

/// A fresh copy of a byte buffer.
fn copy_bytes(v: &Vec<u8>) -> (r: Vec<u8>)
    ensures
        r@ == v@,
{
    let mut r: Vec<u8> = Vec::new();
    let mut i: usize = 0;
    while i < v.len()
        invariant
            i <= v.len(),
            r@ == v@.subrange(0, i as int),
        decreases v.len() - i,
    {
        r.push(v[i]);
        proof {
            assert(r@ =~= v@.subrange(0, (i + 1) as int));
        }
        i = i + 1;
    }
    proof {
        assert(r@ =~= v@);
    }
    r
}

/// A call that left the trace as `c == a + b` kept the old trace `a` as a
/// prefix, and what it appended is exactly `b`.
proof fn lemma_appended(a: Seq<BusOp>, c: Seq<BusOp>, b: Seq<BusOp>)
    requires
        c =~= a + b,
    ensures
        a.is_prefix_of(c),
        c.skip(a.len() as int) == b,
{
    assert(a =~= c.subrange(0, a.len() as int));
    assert(c.skip(a.len() as int) =~= b);
}

impl SFP {
    /// Well-formedness of a handle: both cached pages are full 256-byte
    /// pages, the port selects one bit of the 16-bit switch mask, and the
    /// base address is the module-information EEPROM address.
    pub open spec fn wf(&self) -> bool {
        &&& self.sfp_data.len() == 256
        &&& self.sfp_diag.len() == 256
        &&& self.port < 16
        &&& self.address == 0xa0
    }

    /// Probe the slot and build a handle: on an acknowledged probe the
    /// module-information page is fetched, and the diagnostic page too when
    /// the capability gate [`diag_gate`] passes. A probe that is not
    /// acknowledged fails with `ModuleNotPresent` after exactly the probe
    /// transaction, with no further bus traffic for this handle.
    #[verifier::rlimit(60)]
    pub fn new<B: TwoWire>(bus: &mut B, index: u8) -> (r: Result<SFP, Error>)
        requires
            index < 8,
        ensures
            r matches Ok(sfp) ==> {
                &&& sfp.wf()
                &&& sfp.busno == 0
                &&& sfp.port == 8 + index
                &&& sfp.address == 0xa0
                &&& diag_gate(sfp.sfp_data@) ==> final(bus).ops() == old(bus).ops() + probe_ops(
                    sfp.port,
                    sfp.address,
                    true,
                ) + read_ops(sfp.port, sfp.address, 0, sfp.sfp_data@) + read_ops(
                    sfp.port,
                    (sfp.address + 2) as u8,
                    0,
                    sfp.sfp_diag@,
                )
                &&& !diag_gate(sfp.sfp_data@) ==> final(bus).ops() == old(bus).ops() + probe_ops(
                    sfp.port,
                    sfp.address,
                    true,
                ) + read_ops(sfp.port, sfp.address, 0, sfp.sfp_data@)
                &&& !diag_gate(sfp.sfp_data@) ==> sfp.sfp_diag@ == Seq::new(256, |i: int| 0u8)
            },
            r == Err::<SFP, Error>(Error::ModuleNotPresent) <==> final(bus).ops() == old(bus).ops()
                + probe_ops((8 + index) as u8, 0xa0, false),
            r matches Err(e) ==> e != Error::DiagnosticsUnavailable,
            r matches Err(Error::Bus(_)) ==> old(bus).ops().is_prefix_of(final(bus).ops()),
            r matches Err(Error::Bus(p)) ==> aborted_new_ops(
                (8 + index) as u8,
                final(bus).ops().skip(old(bus).ops().len() as int),
                p,
            ),
    {
        let mut sfp = SFP {
            busno: 0,
            port: 8 + index,
            address: 0xa0,
            sfp_data: zero_bytes(256),
            sfp_diag: zero_bytes(256),
        };
        let ack = match sfp.check_ack(bus) {
            Ok(a) => a,
            Err(e) => {
                proof {
                    let ghost appended = final(bus).ops().skip(old(bus).ops().len() as int);
                    assert(appended.len() <= 4);
                    assert(final(bus).ops().len() == old(bus).ops().len() + appended.len());
                    assert((old(bus).ops() + probe_ops((8 + index) as u8, 0xa0, false)).len()
                        == old(bus).ops().len() + 5);
                }
                return Err(e);
            },
        };
        if !ack {
            proof {
                assert(final(bus).ops() == old(bus).ops() + probe_ops(
                    (8 + index) as u8,
                    0xa0,
                    false,
                ));
            }
            return Err(Error::ModuleNotPresent);
        }
        let ghost mid = bus.ops();
        match sfp.dump_data(bus) {
            Ok(_) => {},
            Err(e) => {
                proof {
                    let ghost rest = final(bus).ops().skip(mid.len() as int);
                    assert(final(bus).ops() =~= mid + rest);
                    let ghost appended = final(bus).ops().skip(old(bus).ops().len() as int);
                    assert(appended =~= probe_ops((8 + index) as u8, 0xa0, true) + rest);
                    assert(old(bus).ops().is_prefix_of(final(bus).ops())) by {
                        assert(old(bus).ops() =~= final(bus).ops().subrange(
                            0,
                            old(bus).ops().len() as int,
                        ));
                    }
                    assert forall|p: Phase| e == Error::Bus(p) implies aborted_new_ops(
                        (8 + index) as u8,
                        appended,
                        p,
                    ) by {
                        assert(aborted_read_ops((8 + index) as u8, 0xa0, 0, 256, rest, p));
                        assert(appended == probe_ops((8 + index) as u8, 0xa0, true) + rest);
                    }
                    assert(appended[3] == BusOp::Write(0xa0, true));
                    assert(final(bus).ops()[old(bus).ops().len() as int + 3] == BusOp::Write(
                        0xa0,
                        true,
                    ));
                    assert(final(bus).ops() != old(bus).ops() + probe_ops(
                        (8 + index) as u8,
                        0xa0,
                        false,
                    )) by {
                        if final(bus).ops() == old(bus).ops() + probe_ops(
                            (8 + index) as u8,
                            0xa0,
                            false,
                        ) {
                            assert(final(bus).ops()[old(bus).ops().len() as int + 3]
                                == BusOp::Write(0xa0, false));
                            assert(false);
                        }
                    }
                }
                return Err(e);
            },
        }
        if sfp.diagnostics_implemented() {
            let ghost mid2 = bus.ops();
            match sfp.dump_diag(bus) {
                Ok(_) => {},
                Err(e) => {
                    proof {
                        let ghost rest = final(bus).ops().skip(mid2.len() as int);
                        assert(final(bus).ops() =~= mid2 + rest);
                        let ghost appended = final(bus).ops().skip(old(bus).ops().len() as int);
                        assert(mid2 =~= old(bus).ops() + probe_ops((8 + index) as u8, 0xa0, true)
                            + read_ops((8 + index) as u8, 0xa0, 0, sfp.sfp_data@));
                        assert(appended =~= probe_ops((8 + index) as u8, 0xa0, true) + read_ops(
                            (8 + index) as u8,
                            0xa0,
                            0,
                            sfp.sfp_data@,
                        ) + rest);
                        assert(old(bus).ops().is_prefix_of(final(bus).ops())) by {
                            assert(old(bus).ops() =~= final(bus).ops().subrange(
                                0,
                                old(bus).ops().len() as int,
                            ));
                        }
                        assert(sfp.sfp_data@.len() == 256);
                        assert(diag_gate(sfp.sfp_data@));
                        assert forall|p: Phase| e == Error::Bus(p) implies aborted_new_ops(
                            (8 + index) as u8,
                            appended,
                            p,
                        ) by {
                            assert(aborted_read_ops((8 + index) as u8, 0xa2, 0, 256, rest, p));
                            assert(appended == probe_ops((8 + index) as u8, 0xa0, true) + read_ops(
                                (8 + index) as u8,
                                0xa0,
                                0,
                                sfp.sfp_data@,
                            ) + rest);
                        }
                        assert(appended[3] == BusOp::Write(0xa0, true));
                        assert(final(bus).ops()[old(bus).ops().len() as int + 3] == BusOp::Write(
                            0xa0,
                            true,
                        ));
                        assert(final(bus).ops() != old(bus).ops() + probe_ops(
                            (8 + index) as u8,
                            0xa0,
                            false,
                        )) by {
                            if final(bus).ops() == old(bus).ops() + probe_ops(
                                (8 + index) as u8,
                                0xa0,
                                false,
                            ) {
                                assert(final(bus).ops()[old(bus).ops().len() as int + 3]
                                    == BusOp::Write(0xa0, false));
                                assert(false);
                            }
                        }
                    }
                    return Err(e);
                },
            }
            proof {
                assert(final(bus).ops() =~= old(bus).ops() + probe_ops(sfp.port, sfp.address, true)
                    + read_ops(sfp.port, sfp.address, 0, sfp.sfp_data@) + read_ops(
                    sfp.port,
                    (sfp.address + 2) as u8,
                    0,
                    sfp.sfp_diag@,
                ));
                assert(final(bus).ops()[old(bus).ops().len() as int + 3] == BusOp::Write(
                    0xa0,
                    true,
                ));
                assert(final(bus).ops() != old(bus).ops() + probe_ops(
                    (8 + index) as u8,
                    0xa0,
                    false,
                )) by {
                    if final(bus).ops() == old(bus).ops() + probe_ops(
                        (8 + index) as u8,
                        0xa0,
                        false,
                    ) {
                        assert(final(bus).ops()[old(bus).ops().len() as int + 3] == BusOp::Write(
                            0xa0,
                            false,
                        ));
                        assert(false);
                    }
                }
            }
        } else {
            proof {
                assert(final(bus).ops() =~= old(bus).ops() + probe_ops(sfp.port, sfp.address, true)
                    + read_ops(sfp.port, sfp.address, 0, sfp.sfp_data@));
                assert(final(bus).ops()[old(bus).ops().len() as int + 3] == BusOp::Write(
                    0xa0,
                    true,
                ));
                assert(final(bus).ops() != old(bus).ops() + probe_ops(
                    (8 + index) as u8,
                    0xa0,
                    false,
                )) by {
                    if final(bus).ops() == old(bus).ops() + probe_ops(
                        (8 + index) as u8,
                        0xa0,
                        false,
                    ) {
                        assert(final(bus).ops()[old(bus).ops().len() as int + 3] == BusOp::Write(
                            0xa0,
                            false,
                        ));
                        assert(false);
                    }
                }
            }
        }
        Ok(sfp)
    }

    /// Whether the cached module-information page passes the capability
    /// gate for diagnostic monitoring.
    pub fn diagnostics_implemented(&self) -> (r: bool)
        requires
            self.wf(),
        ensures
            r == diag_gate(self.sfp_data@),
    {
        ((self.sfp_data[92] >> 2u8) & 1) == 0 && (((self.sfp_data[92] >> 6u8) & 1) == 1
            || self.sfp_data[94] != 0)
    }

    /// Activate exactly this handle's bit across the two cascaded bus-switch
    /// registers, deactivating all others, by writing the low and high mask
    /// bytes to the two switch chips.
    fn select<B: TwoWire>(&self, bus: &mut B) -> (r: Result<(), Error>)
        requires
            self.wf(),
        ensures
            r is Ok ==> final(bus).ops() == old(bus).ops() + select_ops(self.port),
            r is Err ==> old(bus).ops().is_prefix_of(final(bus).ops()),
            r is Err ==> final(bus).ops().skip(old(bus).ops().len() as int).is_prefix_of(
                select_ops(self.port),
            ),
            r is Err ==> r == Err::<(), Error>(Error::Bus(Phase::Select)),
    {
        let mask: u16 = 1u16 << (self.port as u16);
        match bus.switch_select(self.busno, 0x70, mask as u8) {
            Ok(()) => {},
            Err(_) => {
                proof {
                    lemma_appended(old(bus).ops(), final(bus).ops(), Seq::empty());
                    assert(Seq::<BusOp>::empty().is_prefix_of(select_ops(self.port))) by {
                        assert(Seq::<BusOp>::empty() =~= select_ops(self.port).subrange(0, 0));
                    }
                }
                return Err(Error::Bus(Phase::Select));
            },
        }
        match bus.switch_select(self.busno, 0x71, (mask >> 8u16) as u8) {
            Ok(()) => {},
            Err(_) => {
                proof {
                    let ghost first = seq![BusOp::SwitchSelect(0x70, mask_lo(self.port))];
                    lemma_appended(old(bus).ops(), final(bus).ops(), first);
                    assert(first.is_prefix_of(select_ops(self.port))) by {
                        assert(first =~= select_ops(self.port).subrange(0, 1));
                    }
                }
                return Err(Error::Bus(Phase::Select));
            },
        }
        proof {
            assert(final(bus).ops() =~= old(bus).ops() + select_ops(self.port));
        }
        Ok(())
    }

    /// Presence probe: select, start, write the base device address, stop;
    /// report whether the address write was acknowledged, reading no data.
    pub fn check_ack<B: TwoWire>(&self, bus: &mut B) -> (r: Result<bool, Error>)
        requires
            self.wf(),
        ensures
            r matches Ok(ack) ==> final(bus).ops() == old(bus).ops() + probe_ops(
                self.port,
                self.address,
                ack,
            ),
            r is Err ==> old(bus).ops().is_prefix_of(final(bus).ops()),
            r is Err ==> r matches Err(Error::Bus(_)),
            r matches Err(Error::Bus(p)) ==> aborted_probe_ops(
                self.port,
                self.address,
                final(bus).ops().skip(old(bus).ops().len() as int),
                p,
            ),
    {
        match self.select(bus) {
            Ok(()) => {},
            Err(e) => {
                return Err(e);
            },
        }
        match bus.start(self.busno) {
            Ok(()) => {},
            Err(_) => {
                proof {
                    lemma_appended(old(bus).ops(), final(bus).ops(), select_ops(self.port));
                }
                return Err(Error::Bus(Phase::Start));
            },
        }
        let ack = match bus.write(self.busno, self.address) {
            Ok(a) => a,
            Err(_) => {
                proof {
                    lemma_appended(
                        old(bus).ops(),
                        final(bus).ops(),
                        select_ops(self.port) + seq![BusOp::Start],
                    );
                }
                return Err(Error::Bus(Phase::Address));
            },
        };
        match bus.stop(self.busno) {
            Ok(()) => {},
            Err(_) => {
                proof {
                    lemma_appended(
                        old(bus).ops(),
                        final(bus).ops(),
                        select_ops(self.port) + seq![
                            BusOp::Start,
                            BusOp::Write(self.address, ack),
                        ],
                    );
                }
                return Err(Error::Bus(Phase::Stop));
            },
        }
        proof {
            assert(final(bus).ops() =~= old(bus).ops() + probe_ops(self.port, self.address, ack));
        }
        Ok(ack)
    }

    /// One full read transaction against `device`: select, start, write the
    /// device address and the register offset, repeated start, write the
    /// device address with the read bit, read `buf.len()` bytes issuing an
    /// acknowledge on all but the final byte, stop. A write that is not
    /// acknowledged aborts the transaction with a `Bus` error.
    #[verifier::loop_isolation(false)]
    fn read_at<B: TwoWire>(&self, bus: &mut B, device: u8, addr: u8, buf: &mut Vec<u8>) -> (r:
        Result<(), Error>)
        requires
            self.wf(),
        ensures
            final(buf).len() == old(buf).len(),
            r is Ok ==> final(bus).ops() == old(bus).ops() + read_ops(
                self.port,
                device,
                addr,
                final(buf)@,
            ),
            r is Err ==> old(bus).ops().is_prefix_of(final(bus).ops()),
            r is Err ==> r matches Err(Error::Bus(_)),
            r matches Err(Error::Bus(p)) ==> aborted_read_ops(
                self.port,
                device,
                addr,
                old(buf).len() as int,
                final(bus).ops().skip(old(bus).ops().len() as int),
                p,
            ),
    {
        match self.select(bus) {
            Ok(()) => {},
            Err(e) => {
                return Err(e);
            },
        }
        match bus.start(self.busno) {
            Ok(()) => {},
            Err(_) => {
                proof {
                    lemma_appended(old(bus).ops(), final(bus).ops(), select_ops(self.port));
                }
                return Err(Error::Bus(Phase::Start));
            },
        }
        let mut acked = match bus.write(self.busno, device) {
            Ok(a) => a,
            Err(_) => {
                proof {
                    lemma_appended(
                        old(bus).ops(),
                        final(bus).ops(),
                        select_ops(self.port) + seq![BusOp::Start],
                    );
                }
                return Err(Error::Bus(Phase::Address));
            },
        };
        if !acked {
            proof {
                lemma_appended(
                    old(bus).ops(),
                    final(bus).ops(),
                    (select_ops(self.port) + seq![BusOp::Start]).push(BusOp::Write(device, false)),
                );
            }
            return Err(Error::Bus(Phase::Address));
        }
        acked = match bus.write(self.busno, addr) {
            Ok(a) => a,
            Err(_) => {
                proof {
                    lemma_appended(
                        old(bus).ops(),
                        final(bus).ops(),
                        select_ops(self.port) + seq![BusOp::Start, BusOp::Write(device, true)],
                    );
                }
                return Err(Error::Bus(Phase::Register));
            },
        };
        if !acked {
            proof {
                lemma_appended(
                    old(bus).ops(),
                    final(bus).ops(),
                    (select_ops(self.port) + seq![BusOp::Start, BusOp::Write(device, true)]).push(
                        BusOp::Write(addr, false),
                    ),
                );
            }
            return Err(Error::Bus(Phase::Register));
        }
        match bus.restart(self.busno) {
            Ok(()) => {},
            Err(_) => {
                proof {
                    lemma_appended(
                        old(bus).ops(),
                        final(bus).ops(),
                        select_ops(self.port) + seq![
                            BusOp::Start,
                            BusOp::Write(device, true),
                            BusOp::Write(addr, true),
                        ],
                    );
                }
                return Err(Error::Bus(Phase::Restart));
            },
        }
        acked = match bus.write(self.busno, device | 1) {
            Ok(a) => a,
            Err(_) => {
                proof {
                    lemma_appended(
                        old(bus).ops(),
                        final(bus).ops(),
                        select_ops(self.port) + seq![
                            BusOp::Start,
                            BusOp::Write(device, true),
                            BusOp::Write(addr, true),
                            BusOp::Restart,
                        ],
                    );
                }
                return Err(Error::Bus(Phase::Address));
            },
        };
        if !acked {
            proof {
                lemma_appended(
                    old(bus).ops(),
                    final(bus).ops(),
                    (select_ops(self.port) + seq![
                        BusOp::Start,
                        BusOp::Write(device, true),
                        BusOp::Write(addr, true),
                        BusOp::Restart,
                    ]).push(BusOp::Write(device | 1, false)),
                );
            }
            return Err(Error::Bus(Phase::Address));
        }
        let ghost header = old(bus).ops() + read_header_ops(self.port, device, addr);
        proof {
            assert(bus.ops() =~= header);
        }
        let n = buf.len();
        let mut i: usize = 0;
        while i < n
            invariant
                i <= n,
                buf.len() == n,
                bus.ops() == header + data_read_ops_upto(buf@.subrange(0, i as int), n as int),
            decreases n - i,
        {
            let ack_more = i + 1 < n;
            let ghost before = buf@.subrange(0, i as int);
            let b = match bus.read(self.busno, ack_more) {
                Ok(b) => b,
                Err(_) => {
                    proof {
                        lemma_appended(
                            old(bus).ops(),
                            final(bus).ops(),
                            read_header_ops(self.port, device, addr) + data_read_ops_upto(
                                before,
                                n as int,
                            ),
                        );
                        assert(before.len() < old(buf).len());
                    }
                    return Err(Error::Bus(Phase::Data));
                },
            };
            buf.set(i, b);
            i = i + 1;
            proof {
                assert(buf@.subrange(0, i as int) =~= before.push(b));
                assert(data_read_ops_upto(before.push(b), n as int) =~= data_read_ops_upto(
                    before,
                    n as int,
                ).push(BusOp::Read(ack_more, b)));
                assert(bus.ops() =~= header + data_read_ops_upto(
                    buf@.subrange(0, i as int),
                    n as int,
                ));
            }
        }
        match bus.stop(self.busno) {
            Ok(()) => {},
            Err(_) => {
                proof {
                    assert(buf@.subrange(0, n as int) =~= buf@);
                    lemma_appended(
                        old(bus).ops(),
                        final(bus).ops(),
                        read_header_ops(self.port, device, addr) + data_read_ops_upto(
                            buf@,
                            n as int,
                        ),
                    );
                    assert(buf@.len() == old(buf).len());
                }
                return Err(Error::Bus(Phase::Stop));
            },
        }
        proof {
            assert(buf@.subrange(0, n as int) =~= buf@);
            assert(final(bus).ops() =~= old(bus).ops() + read_ops(
                self.port,
                device,
                addr,
                final(buf)@,
            ));
        }
        Ok(())
    }

    /// Read transaction against the module-information EEPROM at the base
    /// device address.
    fn read<B: TwoWire>(&self, bus: &mut B, addr: u8, buf: &mut Vec<u8>) -> (r: Result<(), Error>)
        requires
            self.wf(),
        ensures
            final(buf).len() == old(buf).len(),
            r is Ok ==> final(bus).ops() == old(bus).ops() + read_ops(
                self.port,
                self.address,
                addr,
                final(buf)@,
            ),
            r is Err ==> old(bus).ops().is_prefix_of(final(bus).ops()),
            r is Err ==> r matches Err(Error::Bus(_)),
            r matches Err(Error::Bus(p)) ==> aborted_read_ops(
                self.port,
                self.address,
                addr,
                old(buf).len() as int,
                final(bus).ops().skip(old(bus).ops().len() as int),
                p,
            ),
    {
        self.read_at(bus, self.address, addr, buf)
    }

    /// Read transaction against the diagnostic-monitoring EEPROM, which
    /// answers at base + 2 for both the register-pointer write and the data
    /// read.
    fn read_diag<B: TwoWire>(&self, bus: &mut B, addr: u8, buf: &mut Vec<u8>) -> (r: Result<
        (),
        Error,
    >)
        requires
            self.wf(),
        ensures
            final(buf).len() == old(buf).len(),
            r is Ok ==> final(bus).ops() == old(bus).ops() + read_ops(
                self.port,
                (self.address + 2) as u8,
                addr,
                final(buf)@,
            ),
            r is Err ==> old(bus).ops().is_prefix_of(final(bus).ops()),
            r is Err ==> r matches Err(Error::Bus(_)),
            r matches Err(Error::Bus(p)) ==> aborted_read_ops(
                self.port,
                (self.address + 2) as u8,
                addr,
                old(buf).len() as int,
                final(bus).ops().skip(old(bus).ops().len() as int),
                p,
            ),
    {
        self.read_at(bus, self.address + 2, addr, buf)
    }

    /// Fetch the full module-information page, replace the cached copy
    /// wholesale, and return it.
    pub fn dump_data<B: TwoWire>(&mut self, bus: &mut B) -> (r: Result<Vec<u8>, Error>)
        requires
            old(self).wf(),
        ensures
            final(self).wf(),
            final(self).busno == old(self).busno,
            final(self).port == old(self).port,
            final(self).address == old(self).address,
            final(self).sfp_diag == old(self).sfp_diag,
            r matches Ok(page) ==> {
                &&& page@ == final(self).sfp_data@
                &&& page.len() == 256
                &&& final(bus).ops() == old(bus).ops() + read_ops(
                    old(self).port,
                    old(self).address,
                    0,
                    page@,
                )
            },
            r is Err ==> *final(self) == *old(self),
            r is Err ==> old(bus).ops().is_prefix_of(final(bus).ops()),
            r is Err ==> r matches Err(Error::Bus(_)),
            r matches Err(Error::Bus(p)) ==> aborted_read_ops(
                old(self).port,
                old(self).address,
                0,
                256,
                final(bus).ops().skip(old(bus).ops().len() as int),
                p,
            ),
    {
        let mut page = zero_bytes(256);
        match self.read(bus, 0, &mut page) {
            Ok(()) => {},
            Err(e) => {
                return Err(e);
            },
        }
        self.sfp_data = page;
        Ok(copy_bytes(&self.sfp_data))
    }

    /// Fetch the full diagnostic-monitoring page, replace the cached copy
    /// wholesale, and return it.
    pub fn dump_diag<B: TwoWire>(&mut self, bus: &mut B) -> (r: Result<Vec<u8>, Error>)
        requires
            old(self).wf(),
        ensures
            final(self).wf(),
            final(self).busno == old(self).busno,
            final(self).port == old(self).port,
            final(self).address == old(self).address,
            final(self).sfp_data == old(self).sfp_data,
            r matches Ok(page) ==> {
                &&& page@ == final(self).sfp_diag@
                &&& page.len() == 256
                &&& final(bus).ops() == old(bus).ops() + read_ops(
                    old(self).port,
                    (old(self).address + 2) as u8,
                    0,
                    page@,
                )
            },
            r is Err ==> *final(self) == *old(self),
            r is Err ==> old(bus).ops().is_prefix_of(final(bus).ops()),
            r is Err ==> r matches Err(Error::Bus(_)),
            r matches Err(Error::Bus(p)) ==> aborted_read_ops(
                old(self).port,
                (old(self).address + 2) as u8,
                0,
                256,
                final(bus).ops().skip(old(bus).ops().len() as int),
                p,
            ),
    {
        let mut page = zero_bytes(256);
        match self.read_diag(bus, 0, &mut page) {
            Ok(()) => {},
            Err(e) => {
                return Err(e);
            },
        }
        self.sfp_diag = page;
        Ok(copy_bytes(&self.sfp_diag))
    }

    /// Incremental refresh of the live-value block only: when the capability
    /// gate passes, fetch the 22 bytes at diagnostic offset 96 and splice
    /// them into the cached page at `[96, 118)`, leaving every other cached
    /// byte untouched. Where the module lacks that capability, no bus
    /// transaction is issued and `DiagnosticsUnavailable` is returned.
    #[verifier::loop_isolation(false)]
    pub fn read_diagnostic_data<B: TwoWire>(&mut self, bus: &mut B) -> (r: Result<Vec<u8>, Error>)
        requires
            old(self).wf(),
        ensures
            final(self).wf(),
            final(self).busno == old(self).busno,
            final(self).port == old(self).port,
            final(self).address == old(self).address,
            final(self).sfp_data == old(self).sfp_data,
            r == Err::<Vec<u8>, Error>(Error::DiagnosticsUnavailable) <==> !diag_gate(
                old(self).sfp_data@,
            ),
            r == Err::<Vec<u8>, Error>(Error::DiagnosticsUnavailable) ==> *final(self) == *old(self)
                && final(bus).ops() == old(bus).ops(),
            r matches Ok(live) ==> {
                &&& live.len() == 22
                &&& final(bus).ops() == old(bus).ops() + read_ops(
                    old(self).port,
                    (old(self).address + 2) as u8,
                    96,
                    live@,
                )
                &&& final(self).sfp_diag@ == old(self).sfp_diag@.subrange(0, 96) + live@ + old(
                    self,
                ).sfp_diag@.subrange(118, 256)
                &&& forall|k: int|
                    0 <= k < 256 && !(96 <= k < 118) ==> final(self).sfp_diag@[k] == old(
                        self,
                    ).sfp_diag@[k]
                &&& forall|k: int| 96 <= k < 118 ==> final(self).sfp_diag@[k] == live@[k - 96]
            },
            r matches Err(Error::Bus(_)) ==> final(self).sfp_diag == old(self).sfp_diag && old(
                bus,
            ).ops().is_prefix_of(final(bus).ops()),
            r matches Err(Error::Bus(p)) ==> aborted_read_ops(
                old(self).port,
                (old(self).address + 2) as u8,
                96,
                22,
                final(bus).ops().skip(old(bus).ops().len() as int),
                p,
            ),
            r matches Err(e) ==> e != Error::ModuleNotPresent,
    {
        if !self.diagnostics_implemented() {
            return Err(Error::DiagnosticsUnavailable);
        }
        let mut live = zero_bytes(22);
        match self.read_diag(bus, 96, &mut live) {
            Ok(()) => {},
            Err(e) => {
                return Err(e);
            },
        }
        let mut j: usize = 0;
        while j < 22
            invariant
                j <= 22,
                self.busno == old(self).busno,
                self.port == old(self).port,
                self.address == old(self).address,
                self.sfp_data == old(self).sfp_data,
                self.sfp_diag.len() == 256,
                forall|k: int|
                    0 <= k < 256 && !(96 <= k < 96 + j) ==> self.sfp_diag@[k] == old(
                        self,
                    ).sfp_diag@[k],
                forall|k: int| 96 <= k < 96 + j ==> self.sfp_diag@[k] == live@[k - 96],
            decreases 22 - j,
        {
            let b = live[j];
            self.sfp_diag.set(96 + j, b);
            j = j + 1;
        }
        proof {
            assert(final(self).sfp_diag@ =~= old(self).sfp_diag@.subrange(0, 96) + live@ + old(
                self,
            ).sfp_diag@.subrange(118, 256));
        }
        Ok(live)
    }

    /// The flat, priority-ordered alert list of the cached diagnostic page:
    /// an alarm entry for each condition whose alarm bit is set, else a
    /// warning entry where the warning bit is set. Every entry reports one
    /// of the ten conditions.
    pub fn print_alarms(&self) -> (r: Vec<Alert>)
        requires
            self.wf(),
        ensures
            r@ == alerts_of(self.sfp_diag@),
            forall|k: int| 0 <= k < r@.len() ==> (#[trigger] r@[k]).condition < 10,
    {
        decode_alerts(&self.sfp_diag)
    }

    /// The decoded identification summary of the cached module-information
    /// page, together with the decoded diagnostic summary when the
    /// capability gate passes; when it fails the module implements no
    /// diagnostic monitoring and no diagnostic summary is produced.
    pub fn print_some(&self) -> (r: (InfoSummary, Option<DiagSummary>))
        requires
            self.wf(),
        ensures
            info_matches(r.0, self.sfp_data@),
            r.1 is Some <==> diag_gate(self.sfp_data@),
            r.1 matches Some(d) ==> diag_matches(d, self.sfp_diag@),
    {
        let info = decode_info(&self.sfp_data);
        if self.diagnostics_implemented() {
            let d = decode_diag(&self.sfp_diag);
            (info, Some(d))
        } else {
            (info, None)
        }
    }

    /// Both cached pages, module information first, for a raw byte-by-byte
    /// dump.
    pub fn print_all(&self) -> (r: (Vec<u8>, Vec<u8>))
        requires
            self.wf(),
        ensures
            r.0@ == self.sfp_data@,
            r.1@ == self.sfp_diag@,
    {
        (copy_bytes(&self.sfp_data), copy_bytes(&self.sfp_diag))
    }
}

} // verus!
