//! Serial transfer: registers `SB` (`FF01`) and `SC` (`FF02`).
//!
//! Bytes written to `SB` are captured when a transfer is started with the
//! internal clock (`SC` bits 7 and 0 set); test ROMs report their results this way.

use vstd::prelude::*;

verus! {

#[derive(Debug)]
pub struct Serial {
    pub sb: u8,
    pub sc: u8,
    /// Bytes sent to the (absent) link partner.
    pub output_log: Vec<u8>,
}

pub struct SerialView {
    pub sb: u8,
    pub sc: u8,
    pub output_log: Seq<u8>,
}

impl View for Serial {
    type V = SerialView;

    open spec fn view(&self) -> SerialView {
        SerialView { sb: self.sb, sc: self.sc, output_log: self.output_log@ }
    }
}

impl SerialView {
    pub open spec fn spec_read(self, addr: u16) -> u8 {
        if addr == 0xFF01 {
            self.sb
        } else if addr == 0xFF02 {
            0x7E | self.sc
        } else {
            0xFF
        }
    }

    /// A write to `SC` with bits 7 and 0 both set sends `SB`: the byte is appended
    /// to the log and the transfer completes at once (bit 7 reads back clear).
    pub open spec fn spec_write(self, addr: u16, val: u8) -> SerialView {
        if addr == 0xFF01 {
            SerialView { sb: val, ..self }
        } else if addr == 0xFF02 {
            if val & 0x81 == 0x81 {
                SerialView { sc: val & 0x7F, output_log: self.output_log.push(self.sb), ..self }
            } else {
                SerialView { sc: val, ..self }
            }
        } else {
            self
        }
    }
}

impl Serial {
    pub fn new() -> (r: Serial)
        ensures r.sb == 0, r.sc == 0, r.output_log@ == Seq::<u8>::empty(),
    {
        Serial { sb: 0, sc: 0, output_log: Vec::new() }
    }

    pub fn read(&self, addr: u16) -> (r: u8)
        ensures r == self@.spec_read(addr),
    {
        if addr == 0xFF01 {
            self.sb
        } else if addr == 0xFF02 {
            0x7E | self.sc
        } else {
            0xFF
        }
    }

    pub fn write(&mut self, addr: u16, val: u8)
        ensures final(self)@ == old(self)@.spec_write(addr, val),
    {
        if addr == 0xFF01 {
            self.sb = val;
        } else if addr == 0xFF02 {
            self.sc = val;
            if val & 0x81 == 0x81 {
                self.output_log.push(self.sb);
                self.sc = self.sc & !0x80;
                assert(val & !0x80u8 == val & 0x7F) by (bit_vector);
            }
        }
    }
}

} // verus!
