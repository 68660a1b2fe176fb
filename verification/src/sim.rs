//! A simulated multiplexed two-wire bus carrying one transceiver module,
//! for exercising the driver without hardware.
//!
//! The simulation models the shared bus behind two cascaded bus-switch
//! chips at addresses 0x70 and 0x71: the module answers only while the
//! switch bit of its slot is selected. Behind the switches sit the two
//! EEPROMs of the module, the information device at address 0xa0 and the
//! diagnostic device at 0xa2, each with its own auto-incrementing register
//! pointer. Like any [`TwoWire`] implementation it records every completed
//! primitive in its ghost operation trace.

use crate::bus::BusFault;
use crate::bus::BusOp;
use crate::bus::TwoWire;
use vstd::prelude::*;

verus! {

/// State of the simulated bus, its switch chips, and the one module.
pub struct SimBus {
    /// Module-information EEPROM image of the plugged module.
    info: Vec<u8>,
    /// Diagnostic EEPROM image of the plugged module.
    diag: Vec<u8>,
    /// Whether a module is plugged into the slot at all.
    present: bool,
    /// The switch bit the module's slot is wired to.
    port: u8,
    /// Whether the switch chips fail to acknowledge their register writes.
    fail_switch: bool,
    /// Selection register of the switch chip at 0x70 (ports 0..8).
    sel_lo: u8,
    /// Selection register of the switch chip at 0x71 (ports 8..16).
    sel_hi: u8,
    /// A start or repeated start was issued and the next write is a device
    /// address.
    awaiting_address: bool,
    /// A device acknowledged its address and is active until stop.
    addressed: bool,
    /// The address byte of the active device, read bit included.
    current: u8,
    /// Register pointer of the information EEPROM.
    ptr_info: u8,
    /// Register pointer of the diagnostic EEPROM.
    ptr_diag: u8,
    /// Trace of completed bus primitives.
    trace: Ghost<Seq<BusOp>>,
}

impl SimBus {
    /// A quiet bus whose one slot is wired to switch bit `port` and holds a
    /// module with the given EEPROM images when `present` is set.
    pub fn new(info: Vec<u8>, diag: Vec<u8>, present: bool, port: u8) -> (r: SimBus)
        ensures
            r.ops() == Seq::<BusOp>::empty(),
    {
        SimBus {
            info,
            diag,
            present,
            port,
            fail_switch: false,
            sel_lo: 0,
            sel_hi: 0,
            awaiting_address: false,
            addressed: false,
            current: 0,
            ptr_info: 0,
            ptr_diag: 0,
            trace: Ghost(Seq::empty()),
        }
    }

    /// Make every further switch-chip register write fail, to exercise the
    /// select failure path.
    pub fn break_switch(&mut self)
        ensures
            final(self).ops() == old(self).ops(),
    {
        self.fail_switch = true;
    }

    /// Overwrite one byte of the module's diagnostic EEPROM image, the way
    /// live readings drift between fetches; out-of-range offsets are
    /// ignored.
    pub fn set_diag_byte(&mut self, i: usize, b: u8)
        ensures
            final(self).ops() == old(self).ops(),
    {
        if i < self.diag.len() {
            self.diag.set(i, b);
        }
    }

    /// Whether the switch registers currently route the module's slot onto
    /// the bus.
    fn slot_selected(&self) -> bool {
        if self.port < 16 {
            let mask: u16 = (self.sel_lo as u16) | ((self.sel_hi as u16) << 8u16);
            (mask >> (self.port as u16)) & 1 == 1
        } else {
            false
        }
    }

    /// The byte the active EEPROM drives at its register pointer, with the
    /// pointer stepped past it; an unselected or absent device drives 0xff.
    fn drive_byte(&mut self) -> (r: u8)
        ensures
            final(self).trace@ == old(self).trace@,
    {
        let device: u8 = self.current & 0xfe;
        if device == 0xa0 {
            let idx: usize = self.ptr_info as usize;
            self.ptr_info = if self.ptr_info == 255 {
                0
            } else {
                self.ptr_info + 1
            };
            if idx < self.info.len() {
                self.info[idx]
            } else {
                0xff
            }
        } else if device == 0xa2 {
            let idx: usize = self.ptr_diag as usize;
            self.ptr_diag = if self.ptr_diag == 255 {
                0
            } else {
                self.ptr_diag + 1
            };
            if idx < self.diag.len() {
                self.diag[idx]
            } else {
                0xff
            }
        } else {
            0xff
        }
    }
}

impl TwoWire for SimBus {
    closed spec fn ops(&self) -> Seq<BusOp> {
        self.trace@
    }

    fn switch_select(&mut self, busno: u8, address: u8, mask: u8) -> (r: Result<(), BusFault>) {
        if self.fail_switch {
            return Err(BusFault);
        }
        if address == 0x70 {
            self.sel_lo = mask;
        } else if address == 0x71 {
            self.sel_hi = mask;
        } else {
            return Err(BusFault);
        }
        self.trace = Ghost(self.trace@.push(BusOp::SwitchSelect(address, mask)));
        Ok(())
    }

    fn start(&mut self, busno: u8) -> (r: Result<(), BusFault>) {
        self.awaiting_address = true;
        self.addressed = false;
        self.trace = Ghost(self.trace@.push(BusOp::Start));
        Ok(())
    }

    fn restart(&mut self, busno: u8) -> (r: Result<(), BusFault>) {
        self.awaiting_address = true;
        self.addressed = false;
        self.trace = Ghost(self.trace@.push(BusOp::Restart));
        Ok(())
    }

    fn stop(&mut self, busno: u8) -> (r: Result<(), BusFault>) {
        self.awaiting_address = false;
        self.addressed = false;
        self.trace = Ghost(self.trace@.push(BusOp::Stop));
        Ok(())
    }

    fn write(&mut self, busno: u8, data: u8) -> (r: Result<bool, BusFault>) {
        let ack: bool;
        if self.awaiting_address {
            let device: u8 = data & 0xfe;
            if self.present && self.slot_selected() && (device == 0xa0 || device == 0xa2) {
                self.addressed = true;
                self.current = data;
                ack = true;
            } else {
                ack = false;
            }
            self.awaiting_address = false;
        } else if self.addressed && self.current & 1 == 0 {
            if self.current == 0xa0 {
                self.ptr_info = data;
            } else {
                self.ptr_diag = data;
            }
            ack = true;
        } else {
            ack = false;
        }
        self.trace = Ghost(self.trace@.push(BusOp::Write(data, ack)));
        Ok(ack)
    }

    fn read(&mut self, busno: u8, ack: bool) -> (r: Result<u8, BusFault>) {
        let data: u8 = if self.addressed && self.current & 1 == 1 {
            self.drive_byte()
        } else {
            0xff
        };
        self.trace = Ghost(self.trace@.push(BusOp::Read(ack, data)));
        Ok(data)
    }
}

} // verus!
