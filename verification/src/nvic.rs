//! Interrupt lines of the chip, by name.

use vstd::prelude::*;

verus! {

pub const DAC: u32 = 0;

/// Cortex-M0APP; latched TXEV; for M4-M0APP communication.
pub const M0APP: u32 = 1;

pub const DMA: u32 = 2;

pub const RESERVED_1: u32 = 3;

/// Flash bank A, flash bank B and EEPROM interrupts, ORed.
pub const FLASHEEPROM: u32 = 4;

pub const ETHERNET: u32 = 5;

/// SD/MMC interrupt.
pub const SDIO: u32 = 6;

pub const LCD: u32 = 7;

/// OTG interrupt.
pub const USB0: u32 = 8;

pub const USB1: u32 = 9;

/// SCTimer/PWM combined interrupt.
pub const SCTIMER_PWM: u32 = 10;

pub const RITIMER: u32 = 11;

pub const TIMER0: u32 = 12;

pub const TIMER1: u32 = 13;

pub const TIMER2: u32 = 14;

pub const TIMER3: u32 = 15;

/// Motor control PWM.
pub const MCPWM: u32 = 16;

pub const ADC0: u32 = 17;

pub const I2C0: u32 = 18;

pub const I2C1: u32 = 19;

pub const SPI: u32 = 20;

pub const ADC1: u32 = 21;

pub const SSP0: u32 = 22;

pub const SSP1: u32 = 23;

pub const USART0: u32 = 24;

/// Combined UART interrupt with modem interrupt.
pub const UART1: u32 = 25;

pub const USART2: u32 = 26;

/// Combined USART interrupt with IrDA interrupt.
pub const USART3: u32 = 27;

pub const I2S0: u32 = 28;

pub const I2S1: u32 = 29;

pub const SPIFI: u32 = 30;

pub const SGPIO: u32 = 31;

/// GPIO pin interrupt 0.
pub const PIN_INT0: u32 = 32;

/// GPIO pin interrupt 1.
pub const PIN_INT1: u32 = 33;

/// GPIO pin interrupt 2.
pub const PIN_INT2: u32 = 34;

/// GPIO pin interrupt 3.
pub const PIN_INT3: u32 = 35;

/// GPIO pin interrupt 4.
pub const PIN_INT4: u32 = 36;

/// GPIO pin interrupt 5.
pub const PIN_INT5: u32 = 37;

/// GPIO pin interrupt 6.
pub const PIN_INT6: u32 = 38;

/// GPIO pin interrupt 7.
pub const PIN_INT7: u32 = 39;

/// GPIO global interrupt 0.
pub const GINT0: u32 = 40;

/// GPIO global interrupt 1.
pub const GINT1: u32 = 41;

/// Event router interrupt.
pub const EVENTROUTER: u32 = 42;

pub const C_CAN1: u32 = 43;

pub const RESERVED_2: u32 = 44;

/// ADCHS combined interrupt.
pub const ADCHS: u32 = 45;

/// Alarm timer interrupt.
pub const ATIMER: u32 = 46;

pub const RTC: u32 = 47;

pub const RESERVED_3: u32 = 48;

pub const WWDT: u32 = 49;

/// TXE instruction from the M0 subsystem core.
pub const M0SUB: u32 = 50;

pub const C_CAN0: u32 = 51;

pub const QEI: u32 = 52;

} // verus!
