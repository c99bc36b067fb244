//! Register-level model of the three peripherals that the board uses.
//!
//! Each `*Registers` struct holds the values of the registers that this crate
//! touches, and is the abstract state of the matching `*Bus` trait. The
//! simulated register files (`RccRegisters`, `GpioRegisters` and `SimUsart`,
//! which also logs every access) implement the traits with the same semantics
//! as the hardware, so the drivers can run without a device.

use vstd::prelude::*;

verus! {

/// `AHB1ENR`: clock enable of GPIO port A.
pub const AHB1ENR_GPIOAEN: u32 = 0x0000_0001;

/// `AHB1ENR`: clock enable of GPIO port D.
pub const AHB1ENR_GPIODEN: u32 = 0x0000_0008;

/// `APB1ENR`: clock enable of USART2.
pub const APB1ENR_USART2EN: u32 = 0x0002_0000;

/// `SR`: a received byte waits in the data register ("RXNE").
pub const SR_RXNE: u32 = 0x0000_0020;

/// `SR`: the transmit data register is empty ("TXE").
pub const SR_TXE: u32 = 0x0000_0080;

/// `CR1`: receiver enable.
pub const CR1_RE: u32 = 0x0000_0004;

/// `CR1`: transmitter enable.
pub const CR1_TE: u32 = 0x0000_0008;

/// `CR1`: interrupt on "receive buffer not empty".
pub const CR1_RXNEIE: u32 = 0x0000_0020;

/// `CR1`: USART enable.
pub const CR1_UE: u32 = 0x0000_2000;

/// The clock-control registers that the drivers change.
#[derive(Clone, Copy, Debug, PartialEq, Eq, Structural)]
pub struct RccRegisters {
    pub ahb1enr: u32,
    pub apb1enr: u32,
}

/// The registers of one GPIO port.
///
/// `bsrr` is write-only on the hardware; here it holds the last value written,
/// and `odr` the output levels that resulted.
#[derive(Clone, Copy, Debug, PartialEq, Eq, Structural)]
pub struct GpioRegisters {
    pub moder: u32,
    pub otyper: u32,
    pub afrl: u32,
    pub odr: u32,
    pub bsrr: u32,
}

/// The registers of one USART.
///
/// `dr` is the data register: the last byte received, or the last one stored
/// for transmission.
#[derive(Clone, Copy, Debug, PartialEq, Eq, Structural)]
pub struct UsartRegisters {
    pub sr: u32,
    pub dr: u32,
    pub brr: u32,
    pub cr1: u32,
    pub cr2: u32,
    pub cr3: u32,
}

/// One access to a USART register, as the access log records it.
#[derive(Clone, Copy, Debug, PartialEq, Eq, Structural)]
pub enum UsartAccess {
    ReadSr,
    /// A load of the data register, which takes one received byte.
    LoadDr,
    /// A store into the data register, which sends one byte.
    StoreDr(u8),
    WriteBrr(u32),
    WriteCr1(u32),
    WriteCr2(u32),
    WriteCr3(u32),
}

/// A simulated USART: its registers, and the log of every access made to
/// them, oldest first.
#[derive(Clone, Debug, PartialEq, Eq)]
pub struct SimUsart {
    pub regs: UsartRegisters,
    pub log: Vec<UsartAccess>,
}

/// Whether output line `n` is driven high by the output register value `odr`.
pub open spec fn line_is_high(odr: u32, n: u32) -> bool {
    (odr >> n) & 1 == 1
}

impl GpioRegisters {
    /// The port after `v` was written to the set/reset register: bit `n` of
    /// the low half sets line `n`, bit `n + 16` clears it, and a set wins over
    /// a clear of the same line.
    pub open spec fn after_bsrr(self, v: u32) -> GpioRegisters {
        GpioRegisters { odr: (self.odr & !(v >> 16u32)) | (v & 0xFFFF), bsrr: v, ..self }
    }
}

impl UsartRegisters {
    /// A received byte can be loaded.
    pub open spec fn rx_ready(self) -> bool {
        self.sr & SR_RXNE != 0
    }

    /// A byte can be stored for transmission.
    pub open spec fn tx_ready(self) -> bool {
        self.sr & SR_TXE != 0
    }

    /// The USART after its data register was loaded: the load clears RXNE.
    pub open spec fn after_load(self) -> UsartRegisters {
        UsartRegisters { sr: self.sr & !SR_RXNE, ..self }
    }

    /// The USART after `byte` was stored in its data register: the store
    /// clears TXE until the byte moves on to the shift register.
    pub open spec fn after_store(self, byte: u8) -> UsartRegisters {
        UsartRegisters { sr: self.sr & !SR_TXE, dr: byte as u32, ..self }
    }
}

/// Access to the clock-control registers.
pub trait RccBus {
    spec fn regs(&self) -> RccRegisters;

    fn ahb1enr(&self) -> (r: u32)
        ensures
            r == self.regs().ahb1enr,
    ;

    fn write_ahb1enr(&mut self, v: u32)
        ensures
            final(self).regs() == (RccRegisters { ahb1enr: v, ..old(self).regs() }),
    ;

    fn apb1enr(&self) -> (r: u32)
        ensures
            r == self.regs().apb1enr,
    ;

    fn write_apb1enr(&mut self, v: u32)
        ensures
            final(self).regs() == (RccRegisters { apb1enr: v, ..old(self).regs() }),
    ;
}

/// Access to the registers of a GPIO port.
pub trait GpioBus {
    spec fn regs(&self) -> GpioRegisters;

    fn moder(&self) -> (r: u32)
        ensures
            r == self.regs().moder,
    ;

    fn write_moder(&mut self, v: u32)
        ensures
            final(self).regs() == (GpioRegisters { moder: v, ..old(self).regs() }),
    ;

    fn otyper(&self) -> (r: u32)
        ensures
            r == self.regs().otyper,
    ;

    fn write_otyper(&mut self, v: u32)
        ensures
            final(self).regs() == (GpioRegisters { otyper: v, ..old(self).regs() }),
    ;

    fn afrl(&self) -> (r: u32)
        ensures
            r == self.regs().afrl,
    ;

    fn write_afrl(&mut self, v: u32)
        ensures
            final(self).regs() == (GpioRegisters { afrl: v, ..old(self).regs() }),
    ;

    /// One write to the set/reset register.
    fn write_bsrr(&mut self, v: u32)
        ensures
            final(self).regs() == old(self).regs().after_bsrr(v),
    ;
}

/// Access to the registers of a USART.
///
/// Every access is one hardware transaction, and `accesses` is the log of
/// those made so far, oldest first.
pub trait UsartBus {
    spec fn regs(&self) -> UsartRegisters;

    spec fn accesses(&self) -> Vec<UsartAccess>;

    /// One load of the status register.
    fn sr(&mut self) -> (r: u32)
        ensures
            r == old(self).regs().sr,
            final(self).regs() == old(self).regs(),
            final(self).accesses()@ == old(self).accesses()@.push(UsartAccess::ReadSr),
    ;

    /// One byte-wide load from the data register; it is made only while a
    /// received byte waits.
    fn load_dr(&mut self) -> (r: u8)
        requires
            old(self).regs().rx_ready(),
        ensures
            r == old(self).regs().dr as u8,
            final(self).regs() == old(self).regs().after_load(),
            final(self).accesses()@ == old(self).accesses()@.push(UsartAccess::LoadDr),
    ;

    /// One byte-wide store into the data register; it is made only while
    /// the transmit buffer is empty.
    fn store_dr(&mut self, byte: u8)
        requires
            old(self).regs().tx_ready(),
        ensures
            final(self).regs() == old(self).regs().after_store(byte),
            final(self).accesses()@ == old(self).accesses()@.push(UsartAccess::StoreDr(byte)),
    ;

    fn write_brr(&mut self, v: u32)
        ensures
            final(self).regs() == (UsartRegisters { brr: v, ..old(self).regs() }),
            final(self).accesses()@ == old(self).accesses()@.push(UsartAccess::WriteBrr(v)),
    ;

    fn write_cr1(&mut self, v: u32)
        ensures
            final(self).regs() == (UsartRegisters { cr1: v, ..old(self).regs() }),
            final(self).accesses()@ == old(self).accesses()@.push(UsartAccess::WriteCr1(v)),
    ;

    fn write_cr2(&mut self, v: u32)
        ensures
            final(self).regs() == (UsartRegisters { cr2: v, ..old(self).regs() }),
            final(self).accesses()@ == old(self).accesses()@.push(UsartAccess::WriteCr2(v)),
    ;

    fn write_cr3(&mut self, v: u32)
        ensures
            final(self).regs() == (UsartRegisters { cr3: v, ..old(self).regs() }),
            final(self).accesses()@ == old(self).accesses()@.push(UsartAccess::WriteCr3(v)),
    ;
}

impl RccBus for RccRegisters {
    open spec fn regs(&self) -> RccRegisters {
        *self
    }

    fn ahb1enr(&self) -> (r: u32) {
        self.ahb1enr
    }

    fn write_ahb1enr(&mut self, v: u32) {
        self.ahb1enr = v;
    }

    fn apb1enr(&self) -> (r: u32) {
        self.apb1enr
    }

    fn write_apb1enr(&mut self, v: u32) {
        self.apb1enr = v;
    }
}

impl GpioBus for GpioRegisters {
    open spec fn regs(&self) -> GpioRegisters {
        *self
    }

    fn moder(&self) -> (r: u32) {
        self.moder
    }

    fn write_moder(&mut self, v: u32) {
        self.moder = v;
    }

    fn otyper(&self) -> (r: u32) {
        self.otyper
    }

    fn write_otyper(&mut self, v: u32) {
        self.otyper = v;
    }

    fn afrl(&self) -> (r: u32) {
        self.afrl
    }

    fn write_afrl(&mut self, v: u32) {
        self.afrl = v;
    }

    fn write_bsrr(&mut self, v: u32) {
        self.odr = (self.odr & !(v >> 16u32)) | (v & 0xFFFF);
        self.bsrr = v;
    }
}

impl UsartBus for SimUsart {
    open spec fn regs(&self) -> UsartRegisters {
        self.regs
    }

    open spec fn accesses(&self) -> Vec<UsartAccess> {
        self.log
    }

    fn sr(&mut self) -> (r: u32) {
        self.log.push(UsartAccess::ReadSr);
        self.regs.sr
    }

    fn load_dr(&mut self) -> (r: u8) {
        self.log.push(UsartAccess::LoadDr);
        let byte = self.regs.dr as u8;
        self.regs.sr = self.regs.sr & !SR_RXNE;
        byte
    }

    fn store_dr(&mut self, byte: u8) {
        self.log.push(UsartAccess::StoreDr(byte));
        self.regs.dr = byte as u32;
        self.regs.sr = self.regs.sr & !SR_TXE;
    }

    fn write_brr(&mut self, v: u32) {
        self.log.push(UsartAccess::WriteBrr(v));
        self.regs.brr = v;
    }

    fn write_cr1(&mut self, v: u32) {
        self.log.push(UsartAccess::WriteCr1(v));
        self.regs.cr1 = v;
    }

    fn write_cr2(&mut self, v: u32) {
        self.log.push(UsartAccess::WriteCr2(v));
        self.regs.cr2 = v;
    }

    fn write_cr3(&mut self, v: u32) {
        self.log.push(UsartAccess::WriteCr3(v));
        self.regs.cr3 = v;
    }
}

} // verus!
