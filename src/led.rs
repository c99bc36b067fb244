//! User LEDs
//!
//! The LEDs sit on PD12 to PD15. They are driven through the set/reset
//! register only: one write per change, never a read-modify-write, so lines
//! toggled from different contexts cannot undo each other.

use vstd::prelude::*;

use crate::regs::{
    line_is_high, GpioBus, GpioRegisters, RccBus, RccRegisters, AHB1ENR_GPIODEN,
};

verus! {

/// `MODER` fields of pins 12 to 15.
pub const MODER_PD12_PD15_MASK: u32 = 0xFF00_0000;

/// Pins 12 to 15 as general-purpose outputs.
pub const MODER_PD12_PD15_OUTPUT: u32 = 0x5500_0000;

/// `OTYPER` bits of pins 12 to 15; clear means push-pull.
pub const OTYPER_PD12_PD15_MASK: u32 = 0x0000_F000;

/// An LED
pub struct Led {
    i: u8,
}

/// Writing `1 << n` to the set/reset register drives line `n` high and
/// leaves every other line as it was.
pub proof fn lemma_set_one_line(odr: u32, n: u32)
    requires
        n < 16,
    ensures
        line_is_high(((odr & !((1u32 << n) >> 16u32)) | ((1u32 << n) & 0xFFFF)), n),
        forall|k: u32|
            k < 32 && k != n ==> #[trigger] line_is_high(
                ((odr & !((1u32 << n) >> 16u32)) | ((1u32 << n) & 0xFFFF)),
                k,
            ) == line_is_high(odr, k),
{
    assert(((((odr & !((1u32 << n) >> 16u32)) | ((1u32 << n) & 0xFFFF)) >> n) & 1 == 1))
        by (bit_vector)
        requires
            n < 16,
    ;
    assert forall|k: u32| k < 32 && k != n implies #[trigger] line_is_high(
        ((odr & !((1u32 << n) >> 16u32)) | ((1u32 << n) & 0xFFFF)),
        k,
    ) == line_is_high(odr, k) by {
        assert(((((odr & !((1u32 << n) >> 16u32)) | ((1u32 << n) & 0xFFFF)) >> k) & 1 == 1) == (
        ((odr >> k) & 1) == 1)) by (bit_vector)
            requires
                n < 16,
                k < 32,
                k != n,
        ;
    }
}

/// Writing `1 << (n + 16)` to the set/reset register drives line `n` low and
/// leaves every other line as it was.
pub proof fn lemma_clear_one_line(odr: u32, n: u32)
    requires
        n < 16,
    ensures
        !line_is_high(((odr & !((1u32 << (n + 16)) >> 16u32)) | ((1u32 << (n + 16)) & 0xFFFF)), n),
        forall|k: u32|
            k < 32 && k != n ==> #[trigger] line_is_high(
                ((odr & !((1u32 << (n + 16)) >> 16u32)) | ((1u32 << (n + 16)) & 0xFFFF)),
                k,
            ) == line_is_high(odr, k),
{
    assert(((((odr & !((1u32 << (n + 16)) >> 16u32)) | ((1u32 << (n + 16)) & 0xFFFF)) >> n) & 1
        != 1)) by (bit_vector)
        requires
            n < 16,
    ;
    assert forall|k: u32| k < 32 && k != n implies #[trigger] line_is_high(
        ((odr & !((1u32 << (n + 16)) >> 16u32)) | ((1u32 << (n + 16)) & 0xFFFF)),
        k,
    ) == line_is_high(odr, k) by {
        assert(((((odr & !((1u32 << (n + 16)) >> 16u32)) | ((1u32 << (n + 16)) & 0xFFFF)) >> k)
            & 1 == 1) == (((odr >> k) & 1) == 1)) by (bit_vector)
            requires
                n < 16,
                k < 32,
                k != n,
        ;
    }
}

impl Led {
    #[verifier::type_invariant]
    spec fn inv(self) -> bool {
        self.i < 16
    }

    /// The GPIO line of the LED.
    pub closed spec fn pin(self) -> u32 {
        self.i as u32
    }

    /// Turns off the LED
    pub fn off<G: GpioBus>(&self, gpiod: &mut G)
        ensures
            self.pin() < 16,
            final(gpiod).regs() == old(gpiod).regs().after_bsrr(1u32 << (self.pin() + 16)),
            final(gpiod).regs().bsrr == 1u32 << (self.pin() + 16),
            !line_is_high(final(gpiod).regs().odr, self.pin()),
            forall|k: u32|
                k < 32 && k != self.pin() ==> #[trigger] line_is_high(final(gpiod).regs().odr, k)
                    == line_is_high(old(gpiod).regs().odr, k),
    {
        proof {
            use_type_invariant(self);
            lemma_clear_one_line(gpiod.regs().odr, self.pin());
        }
        let n = self.i as u32;
        gpiod.write_bsrr(1u32 << (n + 16));
    }

    /// Turns on the LED
    pub fn on<G: GpioBus>(&self, gpiod: &mut G)
        ensures
            self.pin() < 16,
            final(gpiod).regs() == old(gpiod).regs().after_bsrr(1u32 << self.pin()),
            final(gpiod).regs().bsrr == 1u32 << self.pin(),
            line_is_high(final(gpiod).regs().odr, self.pin()),
            forall|k: u32|
                k < 32 && k != self.pin() ==> #[trigger] line_is_high(final(gpiod).regs().odr, k)
                    == line_is_high(old(gpiod).regs().odr, k),
    {
        proof {
            use_type_invariant(self);
            lemma_set_one_line(gpiod.regs().odr, self.pin());
        }
        let n = self.i as u32;
        gpiod.write_bsrr(1u32 << n);
    }
}

/// Initializes all the user LEDs: powers port D and makes PD12 to PD15
/// push-pull outputs, leaving the other pins as they were.
pub fn init<G: GpioBus, R: RccBus>(gpiod: &mut G, rcc: &mut R)
    ensures
        final(rcc).regs() == (RccRegisters {
            ahb1enr: old(rcc).regs().ahb1enr | AHB1ENR_GPIODEN,
            ..old(rcc).regs()
        }),
        final(gpiod).regs() == (GpioRegisters {
            moder: (old(gpiod).regs().moder & !MODER_PD12_PD15_MASK) | MODER_PD12_PD15_OUTPUT,
            otyper: old(gpiod).regs().otyper & !OTYPER_PD12_PD15_MASK,
            ..old(gpiod).regs()
        }),
{
    // Power up peripherals
    let ahb1enr = rcc.ahb1enr();
    rcc.write_ahb1enr(ahb1enr | AHB1ENR_GPIODEN);

    // Configure pins 12-15 as outputs
    let moder = gpiod.moder();
    gpiod.write_moder((moder & !MODER_PD12_PD15_MASK) | MODER_PD12_PD15_OUTPUT);
    let otyper = gpiod.otyper();
    gpiod.write_otyper(otyper & !OTYPER_PD12_PD15_MASK);
}

/// LED4, Orange
pub fn orange() -> (r: Led)
    ensures
        r.pin() == 12,
{
    Led { i: 12 }
}

/// LED3, Green
pub fn green() -> (r: Led)
    ensures
        r.pin() == 13,
{
    Led { i: 13 }
}

/// LED5, Red
pub fn red() -> (r: Led)
    ensures
        r.pin() == 14,
{
    Led { i: 14 }
}

/// LED6, Blue
pub fn blue() -> (r: Led)
    ensures
        r.pin() == 15,
{
    Led { i: 15 }
}

} // verus!
