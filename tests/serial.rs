use f4::frequency::APB1;
use f4::regs::{
    GpioRegisters, RccRegisters, SimUsart, UsartAccess, UsartRegisters, AHB1ENR_GPIOAEN,
    APB1ENR_USART2EN, CR1_RE, CR1_TE, CR1_UE, SR_RXNE, SR_TXE,
};
use f4::serial::{BaudRateDivisor, Error, Serial, CR1_RUNNING};

fn regs(sr: u32, dr: u32) -> UsartRegisters {
    UsartRegisters { sr, dr, brr: 0x1234, cr1: 0x8000, cr2: 0x3000, cr3: 0x300 }
}

fn usart(sr: u32, dr: u32) -> SimUsart {
    SimUsart { regs: regs(sr, dr), log: Vec::new() }
}

fn gpio(moder: u32, afrl: u32, odr: u32) -> GpioRegisters {
    GpioRegisters { moder, otyper: 0, afrl, odr, bsrr: 0 }
}

#[test]
fn divisor_at_9600_baud() {
    let d = BaudRateDivisor::from_clock(42_000_000, 9600).unwrap();
    assert_eq!(d, BaudRateDivisor { mantissa: 273, fraction: 7 });
    assert_eq!(d.bits(), 4375);
}

#[test]
fn divisor_at_115200_baud_rounds_to_nearest() {
    // 42_000_000 / 115_200 = 364.58
    let d = BaudRateDivisor::from_clock(APB1, 115_200).unwrap();
    assert_eq!(d.bits(), 365);
    assert_eq!(d.mantissa, 365 >> 4);
    assert_eq!(d.fraction as u32, 365 & 0xF);
}

#[test]
fn divisor_rounding_edges() {
    // 12.5 rounds up, 14.28 rounds down
    assert_eq!(BaudRateDivisor::from_clock(100, 8).unwrap().bits(), 13);
    assert_eq!(BaudRateDivisor::from_clock(100, 7).unwrap().bits(), 14);
    // 0.4 rounds to zero
    assert_eq!(BaudRateDivisor::from_clock(2, 5).unwrap().bits(), 0);
}

#[test]
fn divisor_too_large_is_refused() {
    assert_eq!(BaudRateDivisor::from_clock(42_000_000, 1), None);
    assert_eq!(BaudRateDivisor::from_clock(42_000_000, 0), None);
    assert_eq!(BaudRateDivisor::from_clock(u32::MAX, u32::MAX).unwrap().bits(), 1);
}

#[test]
fn divisor_at_the_16_bit_limit() {
    // 42_000_000 / 641 = 65522.6, 42_000_000 / 640 = 65625
    let d = BaudRateDivisor::from_clock(APB1, 641).unwrap();
    assert_eq!(d.bits(), 65523);
    assert_eq!(d, BaudRateDivisor { mantissa: 4095, fraction: 3 });
    assert_eq!(BaudRateDivisor::from_clock(APB1, 640), None);
    assert_eq!(BaudRateDivisor::from_clock(0xFFFF, 1).unwrap().bits(), 0xFFFF);
    assert_eq!(BaudRateDivisor::from_clock(0x1_0000, 1), None);
}

#[test]
fn init_configures_the_registers() {
    let mut serial = Serial(usart(0xC0, 0));
    let mut gpioa = gpio(0xFFFF_FF0F, 0x1234_5678, 0x5);
    let mut rcc = RccRegisters { ahb1enr: 0x10, apb1enr: 0x1 };
    serial.init(&mut gpioa, &mut rcc, 9600);

    assert_eq!(rcc, RccRegisters { ahb1enr: 0x10 | AHB1ENR_GPIOAEN, apb1enr: 0x1 | APB1ENR_USART2EN });
    assert_eq!(gpioa, gpio(0xFFFF_FFAF, 0x1234_7778, 0x5));
    assert_eq!(
        serial.0.regs,
        UsartRegisters { sr: 0xC0, dr: 0, brr: (273 << 4) | 7, cr1: CR1_RUNNING, cr2: 0, cr3: 0 }
    );
    assert_eq!(CR1_RUNNING, 0x202C);
}

#[test]
fn init_enables_the_usart_last() {
    let mut serial = Serial(usart(0, 0));
    let mut gpioa = gpio(0, 0, 0);
    let mut rcc = RccRegisters { ahb1enr: 0, apb1enr: 0 };
    serial.init(&mut gpioa, &mut rcc, 9600);
    assert_eq!(
        serial.0.log,
        vec![
            UsartAccess::WriteCr1(0),
            UsartAccess::WriteCr2(0),
            UsartAccess::WriteCr3(0),
            UsartAccess::WriteBrr(4375),
            UsartAccess::WriteCr1(CR1_UE),
            UsartAccess::WriteCr1(CR1_UE | CR1_TE),
            UsartAccess::WriteCr1(CR1_UE | CR1_TE | CR1_RE),
            UsartAccess::WriteCr1(CR1_RUNNING),
        ]
    );
}

#[test]
fn init_sets_brr_fields() {
    let mut serial = Serial(usart(0, 0));
    let mut gpioa = gpio(0, 0, 0);
    let mut rcc = RccRegisters { ahb1enr: 0, apb1enr: 0 };
    serial.init(&mut gpioa, &mut rcc, 115_200);
    assert_eq!(serial.0.regs.brr >> 4, 22);
    assert_eq!(serial.0.regs.brr & 0xF, 13);
    assert_eq!(gpioa.moder, 0xA0);
    assert_eq!(gpioa.afrl, 0x7700);
}

#[test]
fn read_returns_the_received_byte() {
    let mut serial = Serial(usart(SR_RXNE | SR_TXE, 0x141));
    let ok: f4::serial::Result<u8> = Ok(0x41);
    assert_eq!(serial.read(), ok);
    assert_eq!(serial.0.regs, regs(SR_TXE, 0x141));
    assert_eq!(serial.0.log, vec![UsartAccess::ReadSr, UsartAccess::LoadDr]);
    // the byte was consumed
    assert_eq!(serial.read(), Err(Error::NotReady));
    assert_eq!(
        serial.0.log,
        vec![UsartAccess::ReadSr, UsartAccess::LoadDr, UsartAccess::ReadSr]
    );
}

#[test]
fn read_when_empty_changes_nothing() {
    let mut serial = Serial(usart(SR_TXE, 0x55));
    assert_eq!(serial.read(), Err(Error::NotReady));
    assert_eq!(serial.0.regs, regs(SR_TXE, 0x55));
    assert_eq!(serial.0.log, vec![UsartAccess::ReadSr]);
}

#[test]
fn write_stores_the_byte() {
    let mut serial = Serial(usart(SR_TXE | 0x1, 0));
    assert_eq!(serial.write(b'x'), Ok(()));
    assert_eq!(serial.0.regs, regs(0x1, b'x' as u32));
    assert_eq!(serial.0.log, vec![UsartAccess::ReadSr, UsartAccess::StoreDr(b'x')]);
    // the buffer is full until the byte moves on
    assert_eq!(serial.write(b'y'), Err(Error::NotReady));
    assert_eq!(serial.0.regs.dr, b'x' as u32);
    assert_eq!(
        serial.0.log,
        vec![UsartAccess::ReadSr, UsartAccess::StoreDr(b'x'), UsartAccess::ReadSr]
    );
}

#[test]
fn write_when_full_changes_nothing() {
    let mut serial = Serial(usart(SR_RXNE, 0x33));
    assert_eq!(serial.write(0xAB), Err(Error::NotReady));
    assert_eq!(serial.0.regs, regs(SR_RXNE, 0x33));
    assert_eq!(serial.0.log, vec![UsartAccess::ReadSr]);
}

#[test]
fn echo_through_the_simulated_usart() {
    let mut serial = Serial(usart(SR_RXNE | SR_TXE, b'h' as u32));
    let byte = serial.read().unwrap();
    assert_eq!(serial.write(byte), Ok(()));
    assert_eq!(serial.0.regs.dr, b'h' as u32);
    assert_eq!(serial.0.regs.sr, 0);
    assert_eq!(
        serial.0.log,
        vec![
            UsartAccess::ReadSr,
            UsartAccess::LoadDr,
            UsartAccess::ReadSr,
            UsartAccess::StoreDr(b'h'),
        ]
    );
}
