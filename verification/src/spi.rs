//! Model of the full-duplex SPI wire the radio is attached to: each exchange
//! drives one byte onto MOSI and returns the byte read from MISO. What the
//! slave answers is part of the wiring, so the bus value carries it: either
//! MISO is wired straight back to MOSI (a loopback harness), or the bytes the
//! slave will shift out are scripted in advance; an exhausted script reads as
//! an idle-low wire, byte value 0.

use vstd::prelude::*;

verus! {

/// Ghost view of the bus: the wiring and the full MOSI transcript.
pub ghost struct SpiBusModel {
    /// MISO is wired to MOSI, so every exchange reads back the byte it wrote.
    pub mirror_mosi: bool,
    /// Bytes the slave will shift out next, front first.
    pub inbound: Seq<u8>,
    /// Every byte driven onto MOSI so far, oldest first.
    pub sent: Seq<u8>,
}

/// SPI bus bound to the radio, fixed at clock mode 0 and 1 MHz.
pub struct SpiBus {
    pub mirror_mosi: bool,
    pub inbound: Vec<u8>,
    pub sent: Vec<u8>,
}

impl View for SpiBus {
    type V = SpiBusModel;

    open spec fn view(&self) -> SpiBusModel {
        SpiBusModel { mirror_mosi: self.mirror_mosi, inbound: self.inbound@, sent: self.sent@ }
    }
}

/// The byte an exchange reads from MISO on a bus in state `m`.
pub open spec fn spi_reply(m: SpiBusModel, out_byte: u8) -> u8 {
    if m.mirror_mosi {
        out_byte
    } else if m.inbound.len() > 0 {
        m.inbound[0]
    } else {
        0u8
    }
}

/// The bus state after exchanging `out_byte` on a bus in state `m`.
pub open spec fn spi_after(m: SpiBusModel, out_byte: u8) -> SpiBusModel {
    SpiBusModel {
        mirror_mosi: m.mirror_mosi,
        inbound: if !m.mirror_mosi && m.inbound.len() > 0 {
            m.inbound.skip(1)
        } else {
            m.inbound
        },
        sent: m.sent.push(out_byte),
    }
}

impl SpiBus {
    /// A bus whose MISO is wired straight back to MOSI.
    pub fn loopback() -> (bus: SpiBus)
        ensures
            bus@ == (SpiBusModel { mirror_mosi: true, inbound: Seq::<u8>::empty(), sent: Seq::<u8>::empty() }),
    {
        SpiBus { mirror_mosi: true, inbound: Vec::new(), sent: Vec::new() }
    }

    /// A bus whose slave will shift out `inbound`, front first.
    pub fn with_incoming(inbound: Vec<u8>) -> (bus: SpiBus)
        ensures
            bus@ == (SpiBusModel { mirror_mosi: false, inbound: inbound@, sent: Seq::<u8>::empty() }),
    {
        SpiBus { mirror_mosi: false, inbound, sent: Vec::new() }
    }

    /// Exchange one byte: drive `out_byte` onto MOSI, block until the byte
    /// has been shifted, and return the byte read from MISO meanwhile.
    pub fn exchange(&mut self, out_byte: u8) -> (in_byte: u8)
        ensures
            in_byte == spi_reply(old(self)@, out_byte),
            final(self)@ == spi_after(old(self)@, out_byte),
    {
        self.sent.push(out_byte);
        if self.mirror_mosi {
            out_byte
        } else if self.inbound.len() > 0 {
            self.inbound.remove(0)
        } else {
            0
        }
    }
}

} // verus!
