//! Serial interface on USART2
//!
//! - TX - PA2
//! - RX - PA3
//!
//! Frame: 8 data bits, 1 stop bit, no parity, no flow control, 16x
//! oversampling. Transfers are polled and never block.

use vstd::prelude::*;

use crate::frequency::APB1;
use crate::regs::{
    GpioBus, GpioRegisters, RccBus, RccRegisters, UsartAccess, UsartBus, UsartRegisters,
    AHB1ENR_GPIOAEN, APB1ENR_USART2EN, CR1_RE, CR1_RXNEIE, CR1_TE, CR1_UE, SR_RXNE, SR_TXE,
};

verus! {

/// `AFRL` fields of pins 2 and 3.
pub const AFRL_PA2_PA3_MASK: u32 = 0x0000_FF00;

/// Alternate function 7 (USART2) on pins 2 and 3.
pub const AFRL_PA2_PA3_AF7: u32 = 0x0000_7700;

/// `MODER` fields of pins 2 and 3.
pub const MODER_PA2_PA3_MASK: u32 = 0x0000_00F0;

/// Pins 2 and 3 in alternate-function mode.
pub const MODER_PA2_PA3_ALTERNATE: u32 = 0x0000_00A0;

/// `CR1` once the USART runs: enabled, transmitter and receiver on, RXNE
/// interrupt on; 8 data bits, no parity, 16x oversampling.
pub const CR1_RUNNING: u32 = 0x0000_202C;

/// The one recoverable error: the receive buffer is empty (`read`) or the
/// transmit buffer is full (`write`). It is transient; the caller retries.
#[derive(Clone, Copy, Debug, PartialEq, Eq, Structural)]
pub enum Error {
    NotReady,
}

/// Specialized `Result` type
pub type Result<T> = core::result::Result<T, Error>;

/// `n / d` rounded to the nearest integer, halves rounded up.
pub open spec fn rounded_div(n: nat, d: nat) -> nat
    recommends
        d > 0,
{
    (2 * n + d) / (2 * d)
}

/// The baud-rate divisor `clock / baud_rate`, rounded.
pub open spec fn divisor_of(clock: u32, baud_rate: u32) -> nat {
    rounded_div(clock as nat, baud_rate as nat)
}

/// The divisor of `clock` for `baud_rate` fits the 16 bits of `BRR`.
pub open spec fn baud_rate_supported(clock: u32, baud_rate: u32) -> bool {
    baud_rate > 0 && divisor_of(clock, baud_rate) <= 0xFFFF
}

/// Relies on `cast::u16` from `u64`: `Ok(x as u16)` when `x` is at most
/// `u16::MAX`, `Err(Overflow)` otherwise.
#[verifier::external_body]
fn checked_u16(x: u64) -> (r: Option<u16>)
    ensures
        x <= 0xFFFF ==> r == Some(x as u16),
        x > 0xFFFF ==> r is None,
{
    cast::u16(x).ok()
}

/// The value of `BRR`: a 12-bit mantissa (bits 15:4) and a 4-bit fraction
/// (bits 3:0).
#[derive(Clone, Copy, Debug, PartialEq, Eq, Structural)]
pub struct BaudRateDivisor {
    pub mantissa: u16,
    pub fraction: u8,
}

impl BaudRateDivisor {
    /// The fields fit their widths.
    pub open spec fn wf(self) -> bool {
        self.mantissa < 0x1000 && self.fraction < 0x10
    }

    /// The 16-bit divisor that the fields make up.
    pub open spec fn value(self) -> nat {
        self.mantissa as nat * 16 + self.fraction as nat
    }

    /// The divisor for `baud_rate` on a bus clocked at `clock` Hz, or `None`
    /// when the rate is zero or the divisor does not fit 16 bits.
    pub fn from_clock(clock: u32, baud_rate: u32) -> (r: Option<BaudRateDivisor>)
        ensures
            r is Some <==> baud_rate_supported(clock, baud_rate),
            r matches Some(d) ==> {
                &&& d.wf()
                &&& d.value() == divisor_of(clock, baud_rate)
                &&& d.mantissa == (divisor_of(clock, baud_rate) as u16) >> 4u16
                &&& d.fraction as u16 == (divisor_of(clock, baud_rate) as u16) & 0xFu16
            },
    {
        if baud_rate == 0 {
            return None;
        }
        let rounded: u64 = (2 * (clock as u64) + baud_rate as u64) / (2 * (baud_rate as u64));
        match checked_u16(rounded) {
            Some(brr) => {
                let fraction = (brr & 0xF) as u8;
                let mantissa = brr >> 4;
                proof {
                    assert((brr >> 4u16) < 0x1000 && (brr & 0xFu16) < 0x10 && (brr >> 4u16) * 16
                        + (brr & 0xFu16) == brr) by (bit_vector);
                }
                Some(BaudRateDivisor { mantissa, fraction })
            },
            None => None,
        }
    }

    /// The value written to `BRR`.
    pub fn bits(&self) -> (r: u32)
        requires
            self.wf(),
        ensures
            r == self.value(),
    {
        let m = self.mantissa as u32;
        let f = self.fraction as u32;
        proof {
            assert(m < 0x1000 && f < 0x10 ==> (m << 4u32) | f == m * 16 + f) by (bit_vector);
        }
        (m << 4) | f
    }
}

/// Serial interface over the USART that `U` gives access to.
///
/// # Interrupts
///
/// - `Usart1Exti25` - RXNE (RX buffer not empty)
pub struct Serial<U>(pub U);

impl<U: UsartBus> Serial<U> {
    /// Initializes the serial interface with a baud rate of `baud_rate` bits
    /// per second.
    ///
    /// Powers USART2 and port A, hands PA2 and PA3 to the USART, sets the
    /// frame format and the baud rate, then enables the USART, the
    /// transmitter, the receiver and the RXNE interrupt, in that order.
    pub fn init<G: GpioBus, R: RccBus>(&mut self, gpioa: &mut G, rcc: &mut R, baud_rate: u32)
        requires
            baud_rate_supported(APB1, baud_rate),
        ensures
            final(rcc).regs() == (RccRegisters {
                ahb1enr: old(rcc).regs().ahb1enr | AHB1ENR_GPIOAEN,
                apb1enr: old(rcc).regs().apb1enr | APB1ENR_USART2EN,
            }),
            final(gpioa).regs() == (GpioRegisters {
                afrl: (old(gpioa).regs().afrl & !AFRL_PA2_PA3_MASK) | AFRL_PA2_PA3_AF7,
                moder: (old(gpioa).regs().moder & !MODER_PA2_PA3_MASK) | MODER_PA2_PA3_ALTERNATE,
                ..old(gpioa).regs()
            }),
            final(self).0.regs() == (UsartRegisters {
                brr: divisor_of(APB1, baud_rate) as u32,
                cr1: CR1_RUNNING,
                cr2: 0,
                cr3: 0,
                ..old(self).0.regs()
            }),
            final(self).0.accesses()@ == old(self).0.accesses()@ + seq![
                UsartAccess::WriteCr1(0),
                UsartAccess::WriteCr2(0),
                UsartAccess::WriteCr3(0),
                UsartAccess::WriteBrr(divisor_of(APB1, baud_rate) as u32),
                UsartAccess::WriteCr1(CR1_UE),
                UsartAccess::WriteCr1(CR1_UE | CR1_TE),
                UsartAccess::WriteCr1(CR1_UE | CR1_TE | CR1_RE),
                UsartAccess::WriteCr1(CR1_RUNNING),
            ],
            final(self).0.regs().brr >> 4u32 == (divisor_of(APB1, baud_rate) as u32) >> 4u32,
            final(self).0.regs().brr & 0xFu32 == (divisor_of(APB1, baud_rate) as u32) & 0xFu32,
    {
        // Power up the peripherals
        let apb1enr = rcc.apb1enr();
        rcc.write_apb1enr(apb1enr | APB1ENR_USART2EN);
        let ahb1enr = rcc.ahb1enr();
        rcc.write_ahb1enr(ahb1enr | AHB1ENR_GPIOAEN);

        // Configure PA2 as TX and PA3 as RX
        let afrl = gpioa.afrl();
        gpioa.write_afrl((afrl & !AFRL_PA2_PA3_MASK) | AFRL_PA2_PA3_AF7);
        let moder = gpioa.moder();
        gpioa.write_moder((moder & !MODER_PA2_PA3_MASK) | MODER_PA2_PA3_ALTERNATE);

        // 8 data bits, no parity, 16x oversampling, USART still disabled
        self.0.write_cr1(0);
        // 1 stop bit
        self.0.write_cr2(0);
        // No hardware flow control
        self.0.write_cr3(0);

        // Baud rate
        let divisor = BaudRateDivisor::from_clock(APB1, baud_rate).unwrap();
        let brr = divisor.bits();
        self.0.write_brr(brr);

        // Enable the peripheral, then the transmitter, the receiver and the
        // RXNE interrupt
        self.0.write_cr1(CR1_UE);
        self.0.write_cr1(CR1_UE | CR1_TE);
        self.0.write_cr1(CR1_UE | CR1_TE | CR1_RE);
        assert(CR1_UE | CR1_TE | CR1_RE | CR1_RXNEIE == CR1_RUNNING) by (bit_vector);
        self.0.write_cr1(CR1_UE | CR1_TE | CR1_RE | CR1_RXNEIE);
        assert(self.0.accesses()@ =~= old(self).0.accesses()@ + seq![
            UsartAccess::WriteCr1(0),
            UsartAccess::WriteCr2(0),
            UsartAccess::WriteCr3(0),
            UsartAccess::WriteBrr(divisor_of(APB1, baud_rate) as u32),
            UsartAccess::WriteCr1(CR1_UE),
            UsartAccess::WriteCr1(CR1_UE | CR1_TE),
            UsartAccess::WriteCr1(CR1_UE | CR1_TE | CR1_RE),
            UsartAccess::WriteCr1(CR1_RUNNING),
        ]);
    }

    /// Reads a byte from the RX buffer
    ///
    /// Loads the status register once. Only if a byte waits does it load the
    /// data register, once, taking that one byte; otherwise it returns
    /// `Err(Error::NotReady)` and touches nothing else. The overrun, framing
    /// and parity flags are not inspected: a byte lost to an overrun goes
    /// unreported.
    pub fn read(&mut self) -> (r: Result<u8>)
        ensures
            old(self).0.regs().rx_ready() ==> {
                &&& r == Ok::<u8, Error>(old(self).0.regs().dr as u8)
                &&& final(self).0.regs() == old(self).0.regs().after_load()
                &&& final(self).0.accesses()@ == old(self).0.accesses()@.push(
                    UsartAccess::ReadSr,
                ).push(UsartAccess::LoadDr)
            },
            !old(self).0.regs().rx_ready() ==> {
                &&& r == Err::<u8, Error>(Error::NotReady)
                &&& final(self).0.regs() == old(self).0.regs()
                &&& final(self).0.accesses()@ == old(self).0.accesses()@.push(UsartAccess::ReadSr)
            },
    {
        if self.0.sr() & SR_RXNE != 0 {
            Ok(self.0.load_dr())
        } else {
            Err(Error::NotReady)
        }
    }

    /// Writes `byte` into the TX buffer
    ///
    /// Loads the status register once. Only if the buffer is empty does it
    /// store `byte` into the data register, once; otherwise it returns
    /// `Err(Error::NotReady)` and touches nothing else.
    pub fn write(&mut self, byte: u8) -> (r: Result<()>)
        ensures
            old(self).0.regs().tx_ready() ==> {
                &&& r == Ok::<(), Error>(())
                &&& final(self).0.regs() == old(self).0.regs().after_store(byte)
                &&& final(self).0.accesses()@ == old(self).0.accesses()@.push(
                    UsartAccess::ReadSr,
                ).push(UsartAccess::StoreDr(byte))
            },
            !old(self).0.regs().tx_ready() ==> {
                &&& r == Err::<(), Error>(Error::NotReady)
                &&& final(self).0.regs() == old(self).0.regs()
                &&& final(self).0.accesses()@ == old(self).0.accesses()@.push(UsartAccess::ReadSr)
            },
    {
        if self.0.sr() & SR_TXE != 0 {
            self.0.store_dr(byte);
            Ok(())
        } else {
            Err(Error::NotReady)
        }
    }
}

} // verus!
