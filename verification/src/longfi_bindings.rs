//! Peripheral slots and the binding table through which an external LoRa
//! radio driver operates this board's hardware. Each slot holds at most one
//! peripheral, bound exactly once during board initialization; an operation
//! whose slot is unbound silently degrades — it performs no hardware access
//! and returns a default — because the callback boundary it models has no
//! error channel.

use vstd::prelude::*;

use crate::antenna::AntennaMode;
use crate::antenna::AntennaSwitches;
use crate::antenna::OutputLine;
use crate::antenna::lines_for_mode;
use crate::spi::SpiBus;
use crate::spi::spi_after;
use crate::spi::spi_reply;

verus! {

/// Which capability slots this board's binding table provides to the radio
/// driver. A `false` slot means "capability unsupported": the driver must
/// fall back to its own default behavior, never crash.
pub struct BindingTable {
    pub reset: bool,
    pub spi_in_out: bool,
    pub spi_nss: bool,
    pub delay_ms: bool,
    pub get_random_bits: bool,
    pub set_antenna_pins: bool,
    pub set_board_tcxo: bool,
    pub busy_pin_status: bool,
    pub reduce_power: bool,
}

/// The binding table handed to the radio driver.
pub struct LongFiBindings {
    pub bindings: BindingTable,
}

/// The board's peripheral slots: process-wide storage for the hardware
/// handles the binding operations use. Each slot starts unbound and is bound
/// exactly once, by `LongFiBindings::init` or `set_antenna_switch`, before
/// the radio driver runs.
pub struct PeripheralSlots {
    pub spi: Option<SpiBus>,
    pub spi_nss: Option<OutputLine>,
    pub reset: Option<OutputLine>,
    pub ant_sw: Option<AntennaSwitches>,
}

impl PeripheralSlots {
    /// All slots unbound.
    pub fn new() -> (s: PeripheralSlots)
        ensures
            s.spi is None,
            s.spi_nss is None,
            s.reset is None,
            s.ant_sw is None,
    {
        PeripheralSlots { spi: None, spi_nss: None, reset: None, ant_sw: None }
    }

    /// The radio driver's `spi_exchange` capability: one full-duplex byte
    /// transaction on the bound bus. With the SPI slot unbound it performs
    /// no hardware access and returns the default byte 0 — silent
    /// degradation, indistinguishable from receiving a zero byte.
    pub fn spi_in_out(&mut self, out_data: u8) -> (in_data: u8)
        ensures
            old(self).spi is None ==> in_data == 0 && *final(self) == *old(self),
            old(self).spi matches Some(bus) ==> {
                &&& in_data == spi_reply(bus@, out_data)
                &&& final(self).spi matches Some(after) && after@ == spi_after(bus@, out_data)
            },
            final(self).spi_nss == old(self).spi_nss,
            final(self).reset == old(self).reset,
            final(self).ant_sw == old(self).ant_sw,
    {
        match &mut self.spi {
            Some(bus) => bus.exchange(out_data),
            None => 0,
        }
    }

    /// The radio driver's `chip_select` capability: `asserted == true` drives
    /// the active-low NSS line low, `false` releases it high. A no-op while
    /// the slot is unbound.
    pub fn spi_nss(&mut self, asserted: bool)
        ensures
            old(self).spi_nss is None ==> *final(self) == *old(self),
            old(self).spi_nss is Some ==> final(self).spi_nss == Some(
                OutputLine { high: !asserted },
            ),
            final(self).spi == old(self).spi,
            final(self).reset == old(self).reset,
            final(self).ant_sw == old(self).ant_sw,
    {
        match &mut self.spi_nss {
            Some(pin) => {
                if asserted {
                    pin.set_low();
                } else {
                    pin.set_high();
                }
            },
            None => {},
        }
    }

    /// The radio driver's `reset` capability: `active == true` pulls the
    /// active-low reset line low (holding the radio in reset), `false`
    /// releases it high. A no-op while the slot is unbound.
    pub fn radio_reset(&mut self, active: bool)
        ensures
            old(self).reset is None ==> *final(self) == *old(self),
            old(self).reset is Some ==> final(self).reset == Some(OutputLine { high: !active }),
            final(self).spi == old(self).spi,
            final(self).spi_nss == old(self).spi_nss,
            final(self).ant_sw == old(self).ant_sw,
    {
        match &mut self.reset {
            Some(pin) => {
                if active {
                    pin.set_low();
                } else {
                    pin.set_high();
                }
            },
            None => {},
        }
    }

    /// Bind the antenna-switch slot. Each slot is bound exactly once, so the
    /// slot must still be unbound.
    pub fn set_antenna_switch(&mut self, ant_sw: AntennaSwitches)
        requires
            old(self).ant_sw is None,
        ensures
            final(self).ant_sw == Some(ant_sw),
            final(self).spi == old(self).spi,
            final(self).spi_nss == old(self).spi_nss,
            final(self).reset == old(self).reset,
    {
        self.ant_sw = Some(ant_sw);
    }

    /// The radio driver's `set_antenna_mode` capability: drive the switch to
    /// `mode`'s line pattern. `power` is accepted but unused, reserved for
    /// power-level-dependent switching. A no-op while the slot is unbound.
    pub fn set_antenna_pins(&mut self, mode: AntennaMode, power: u8)
        ensures
            old(self).ant_sw is None ==> *final(self) == *old(self),
            old(self).ant_sw is Some ==> (final(self).ant_sw matches Some(after) && after.lines()
                == lines_for_mode(mode)),
            final(self).spi == old(self).spi,
            final(self).spi_nss == old(self).spi_nss,
            final(self).reset == old(self).reset,
    {
        let _ = power;
        match &mut self.ant_sw {
            Some(sw) => sw.set_mode(mode),
            None => {},
        }
    }
}

/// The radio driver's `random_bits` capability: the low `bits` bits of the
/// result are meaningful. This binding is a fixed placeholder, not an
/// entropy source: it returns 1 whatever is asked. Callers needing real
/// randomness must substitute a generator.
pub fn get_random_bits(bits: u8) -> (value: u32)
    ensures
        value == 1u32,
{
    let _ = bits;
    0x1
}

impl LongFiBindings {
    /// The capability table this board offers: reset, SPI exchange, chip
    /// select, delay, the placeholder random source, and antenna switching.
    /// TCXO control, the busy pin, and the power-reduction hook are absent,
    /// which the driver must treat as "feature unsupported".
    pub fn new() -> (b: LongFiBindings)
        ensures
            b.bindings.reset,
            b.bindings.spi_in_out,
            b.bindings.spi_nss,
            b.bindings.delay_ms,
            b.bindings.get_random_bits,
            b.bindings.set_antenna_pins,
            !b.bindings.set_board_tcxo,
            !b.bindings.busy_pin_status,
            !b.bindings.reduce_power,
    {
        LongFiBindings {
            bindings: BindingTable {
                reset: true,
                spi_in_out: true,
                spi_nss: true,
                delay_ms: true,
                get_random_bits: true,
                set_antenna_pins: true,
                set_board_tcxo: false,
                busy_pin_status: false,
                reduce_power: false,
            },
        }
    }

    /// One-time board initialization: take ownership of the SPI bus (already
    /// configured at mode 0, 1 MHz), the NSS and reset lines, and the three
    /// antenna-switch lines, and bind every slot. Initialization runs before
    /// the radio driver, so every slot must still be unbound; it cannot be
    /// run twice. `tcxo_en` is accepted and ignored: TCXO control is
    /// unsupported in this binding.
    pub fn init(
        &self,
        slots: &mut PeripheralSlots,
        spi: SpiBus,
        spi_nss: OutputLine,
        reset: OutputLine,
        rx: OutputLine,
        tx_rfo: OutputLine,
        tx_boost: OutputLine,
        tcxo_en: Option<OutputLine>,
    )
        requires
            old(slots).spi is None,
            old(slots).spi_nss is None,
            old(slots).reset is None,
            old(slots).ant_sw is None,
        ensures
            final(slots).spi == Some(spi),
            final(slots).spi_nss == Some(spi_nss),
            final(slots).reset == Some(reset),
            final(slots).ant_sw matches Some(sw) && sw.rx == rx && sw.tx_rfo == tx_rfo
                && sw.tx_boost == tx_boost,
    {
        let _ = tcxo_en;
        slots.spi = Some(spi);
        slots.spi_nss = Some(spi_nss);
        slots.reset = Some(reset);
        slots.set_antenna_switch(AntennaSwitches::new(rx, tx_rfo, tx_boost));
    }
}

} // verus!
