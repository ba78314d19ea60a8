//! Register blocks of the device, as values.
//!
//! A block holds what its registers hold. Registers that the layer writes
//! field by field are structs of fields; registers that it addresses by bit
//! number are 32-bit words. A peripheral that the layer only gates and resets
//! is a token without contents.

use vstd::prelude::*;

verus! {

/// System clock source selection (`RCC_CFG.SCLKSW`).
#[derive(Clone, Copy, PartialEq, Eq, Structural, Debug)]
pub enum Sclksw {
    /// Internal 16 MHz oscillator
    Hsi,
    /// External oscillator
    Hse,
    /// PLL output
    Pll,
}

impl Sclksw {
    /// The bits that select this choice in the field.
    pub open spec fn spec_bits(self) -> u8 {
        match self {
            Sclksw::Hsi => 0,
            Sclksw::Hse => 1,
            Sclksw::Pll => 2,
        }
    }

    /// The bits that select this choice in the field.
    #[verifier::when_used_as_spec(spec_bits)]
    pub fn bits(self) -> (bits: u8)
        ensures
            bits == self.spec_bits(),
    {
        match self {
            Sclksw::Hsi => 0,
            Sclksw::Hse => 1,
            Sclksw::Pll => 2,
        }
    }

    /// The choice that `bits` select, if they select one.
    pub open spec fn spec_from_bits(bits: u8) -> Option<Sclksw> {
        if bits == 0 {
            Some(Sclksw::Hsi)
        } else if bits == 1 {
            Some(Sclksw::Hse)
        } else if bits == 2 {
            Some(Sclksw::Pll)
        } else {
            None
        }
    }

    /// The choice that `bits` select, if they select one.
    pub fn from_bits(bits: u8) -> (choice: Option<Sclksw>)
        ensures
            choice == Self::spec_from_bits(bits),
            choice matches Some(c) ==> c.spec_bits() == bits,
    {
        match bits {
            0 => Some(Sclksw::Hsi),
            1 => Some(Sclksw::Hse),
            2 => Some(Sclksw::Pll),
            _ => None,
        }
    }
}

/// AHB prescaler selection (`RCC_CFG.AHBPRES`).
#[derive(Clone, Copy, PartialEq, Eq, Structural, Debug)]
pub enum Ahbpres {
    Div1,
    Div2,
    Div4,
    Div8,
    Div16,
    Div64,
    Div128,
    Div256,
    Div512,
}

impl Ahbpres {
    /// The factor by which this selection divides the system clock.
    pub open spec fn spec_divisor(self) -> u32 {
        match self {
            Ahbpres::Div1 => 1,
            Ahbpres::Div2 => 2,
            Ahbpres::Div4 => 4,
            Ahbpres::Div8 => 8,
            Ahbpres::Div16 => 16,
            Ahbpres::Div64 => 64,
            Ahbpres::Div128 => 128,
            Ahbpres::Div256 => 256,
            Ahbpres::Div512 => 512,
        }
    }

    /// The factor by which this selection divides the system clock.
    #[verifier::when_used_as_spec(spec_divisor)]
    pub fn divisor(self) -> (d: u32)
        ensures
            d == self.spec_divisor(),
    {
        match self {
            Ahbpres::Div1 => 1,
            Ahbpres::Div2 => 2,
            Ahbpres::Div4 => 4,
            Ahbpres::Div8 => 8,
            Ahbpres::Div16 => 16,
            Ahbpres::Div64 => 64,
            Ahbpres::Div128 => 128,
            Ahbpres::Div256 => 256,
            Ahbpres::Div512 => 512,
        }
    }
}

impl Ahbpres {
    /// The bits that select this choice in the field.
    pub open spec fn spec_bits(self) -> u8 {
        match self {
            Ahbpres::Div1 => 0,
            Ahbpres::Div2 => 8,
            Ahbpres::Div4 => 9,
            Ahbpres::Div8 => 10,
            Ahbpres::Div16 => 11,
            Ahbpres::Div64 => 12,
            Ahbpres::Div128 => 13,
            Ahbpres::Div256 => 14,
            Ahbpres::Div512 => 15,
        }
    }

    /// The bits that select this choice in the field.
    #[verifier::when_used_as_spec(spec_bits)]
    pub fn bits(self) -> (bits: u8)
        ensures
            bits == self.spec_bits(),
    {
        match self {
            Ahbpres::Div1 => 0,
            Ahbpres::Div2 => 8,
            Ahbpres::Div4 => 9,
            Ahbpres::Div8 => 10,
            Ahbpres::Div16 => 11,
            Ahbpres::Div64 => 12,
            Ahbpres::Div128 => 13,
            Ahbpres::Div256 => 14,
            Ahbpres::Div512 => 15,
        }
    }

    /// The choice that `bits` select, if they select one.
    pub open spec fn spec_from_bits(bits: u8) -> Option<Ahbpres> {
        if bits == 0 {
            Some(Ahbpres::Div1)
        } else if bits == 8 {
            Some(Ahbpres::Div2)
        } else if bits == 9 {
            Some(Ahbpres::Div4)
        } else if bits == 10 {
            Some(Ahbpres::Div8)
        } else if bits == 11 {
            Some(Ahbpres::Div16)
        } else if bits == 12 {
            Some(Ahbpres::Div64)
        } else if bits == 13 {
            Some(Ahbpres::Div128)
        } else if bits == 14 {
            Some(Ahbpres::Div256)
        } else if bits == 15 {
            Some(Ahbpres::Div512)
        } else {
            None
        }
    }

    /// The choice that `bits` select, if they select one.
    pub fn from_bits(bits: u8) -> (choice: Option<Ahbpres>)
        ensures
            choice == Self::spec_from_bits(bits),
            choice matches Some(c) ==> c.spec_bits() == bits,
    {
        match bits {
            0 => Some(Ahbpres::Div1),
            8 => Some(Ahbpres::Div2),
            9 => Some(Ahbpres::Div4),
            10 => Some(Ahbpres::Div8),
            11 => Some(Ahbpres::Div16),
            12 => Some(Ahbpres::Div64),
            13 => Some(Ahbpres::Div128),
            14 => Some(Ahbpres::Div256),
            15 => Some(Ahbpres::Div512),
            _ => None,
        }
    }
}

/// APB prescaler selection (`RCC_CFG.APB1PRES` and `RCC_CFG.APB2PRES`).
#[derive(Clone, Copy, PartialEq, Eq, Structural, Debug)]
pub enum Apb1pres {
    Div1,
    Div2,
    Div4,
    Div8,
    Div16,
}

impl Apb1pres {
    /// The factor by which this selection divides the AHB clock.
    pub open spec fn spec_divisor(self) -> u32 {
        match self {
            Apb1pres::Div1 => 1,
            Apb1pres::Div2 => 2,
            Apb1pres::Div4 => 4,
            Apb1pres::Div8 => 8,
            Apb1pres::Div16 => 16,
        }
    }

    /// The factor by which this selection divides the AHB clock.
    #[verifier::when_used_as_spec(spec_divisor)]
    pub fn divisor(self) -> (d: u32)
        ensures
            d == self.spec_divisor(),
    {
        match self {
            Apb1pres::Div1 => 1,
            Apb1pres::Div2 => 2,
            Apb1pres::Div4 => 4,
            Apb1pres::Div8 => 8,
            Apb1pres::Div16 => 16,
        }
    }
}

impl Apb1pres {
    /// The bits that select this choice in the field.
    pub open spec fn spec_bits(self) -> u8 {
        match self {
            Apb1pres::Div1 => 0,
            Apb1pres::Div2 => 4,
            Apb1pres::Div4 => 5,
            Apb1pres::Div8 => 6,
            Apb1pres::Div16 => 7,
        }
    }

    /// The bits that select this choice in the field.
    #[verifier::when_used_as_spec(spec_bits)]
    pub fn bits(self) -> (bits: u8)
        ensures
            bits == self.spec_bits(),
    {
        match self {
            Apb1pres::Div1 => 0,
            Apb1pres::Div2 => 4,
            Apb1pres::Div4 => 5,
            Apb1pres::Div8 => 6,
            Apb1pres::Div16 => 7,
        }
    }

    /// The choice that `bits` select, if they select one.
    pub open spec fn spec_from_bits(bits: u8) -> Option<Apb1pres> {
        if bits == 0 {
            Some(Apb1pres::Div1)
        } else if bits == 4 {
            Some(Apb1pres::Div2)
        } else if bits == 5 {
            Some(Apb1pres::Div4)
        } else if bits == 6 {
            Some(Apb1pres::Div8)
        } else if bits == 7 {
            Some(Apb1pres::Div16)
        } else {
            None
        }
    }

    /// The choice that `bits` select, if they select one.
    pub fn from_bits(bits: u8) -> (choice: Option<Apb1pres>)
        ensures
            choice == Self::spec_from_bits(bits),
            choice matches Some(c) ==> c.spec_bits() == bits,
    {
        match bits {
            0 => Some(Apb1pres::Div1),
            4 => Some(Apb1pres::Div2),
            5 => Some(Apb1pres::Div4),
            6 => Some(Apb1pres::Div8),
            7 => Some(Apb1pres::Div16),
            _ => None,
        }
    }
}

/// Clock control register (`RCC_CTRL`).
#[derive(Clone, Copy, PartialEq, Eq, Structural, Debug)]
pub struct RccCtrl {
    /// External oscillator enable
    pub hseen: bool,
    /// External oscillator bypass
    pub hsebp: bool,
    /// External oscillator ready (set by the hardware)
    pub hserdf: bool,
    /// PLL enable
    pub pllen: bool,
    /// PLL ready (set by the hardware)
    pub pllrdf: bool,
}

/// Clock configuration register (`RCC_CFG`).
#[derive(Clone, Copy, PartialEq, Eq, Structural, Debug)]
pub struct RccCfg {
    /// System clock source
    pub sclksw: Sclksw,
    /// AHB prescaler
    pub ahbpres: Ahbpres,
    /// APB1 prescaler
    pub apb1pres: Apb1pres,
    /// APB2 prescaler
    pub apb2pres: Apb1pres,
    /// PLL input is the external oscillator
    pub pllsrc: bool,
    /// The external oscillator is halved before the PLL
    pub pllhsepres: bool,
    /// PLL multiplication factor, low part, as it is handed to the field's
    /// writer: the field keeps the low four bits
    pub pllmulfct: u8,
    /// PLL multiplication factor, extension bit
    pub pllmulfct_h: bool,
    /// USB prescaler
    pub usbpres: u8,
}

impl RccCfg {
    /// What the register holds after a reset.
    pub open spec fn spec_reset_value() -> RccCfg {
        RccCfg {
            sclksw: Sclksw::Hsi,
            ahbpres: Ahbpres::Div1,
            apb1pres: Apb1pres::Div1,
            apb2pres: Apb1pres::Div1,
            pllsrc: false,
            pllhsepres: false,
            pllmulfct: 0,
            pllmulfct_h: false,
            usbpres: 0,
        }
    }

    /// What the register holds after a reset.
    #[verifier::when_used_as_spec(spec_reset_value)]
    pub fn reset_value() -> (cfg: RccCfg)
        ensures
            cfg == Self::spec_reset_value(),
    {
        RccCfg {
            sclksw: Sclksw::Hsi,
            ahbpres: Ahbpres::Div1,
            apb1pres: Apb1pres::Div1,
            apb2pres: Apb1pres::Div1,
            pllsrc: false,
            pllhsepres: false,
            pllmulfct: 0,
            pllmulfct_h: false,
            usbpres: 0,
        }
    }
}

/// Clock configuration register 2 (`RCC_CFG2`).
#[derive(Clone, Copy, PartialEq, Eq, Structural, Debug)]
pub struct RccCfg2 {
    /// The ADC 1 MHz clock is taken from the external oscillator
    pub adc1msel: bool,
    /// ADC 1 MHz clock prescaler
    pub adc1mpres: u8,
    /// ADC AHB clock prescaler
    pub adchpres: u8,
    /// ADC PLL clock prescaler
    pub adcpllpres: u8,
}

/// Clock configuration register 3 (`RCC_CFG3`).
#[derive(Clone, Copy, PartialEq, Eq, Structural, Debug)]
pub struct RccCfg3 {
    /// The random number generator's 1 MHz clock is taken from the external oscillator
    pub trng1msel: bool,
    /// Random number generator 1 MHz clock prescaler
    pub trng1mpres: u8,
}

/// Reset and clock control block.
///
/// The bus gating and reset registers are words: the layer addresses them by
/// bit number.
#[derive(Clone, Copy, PartialEq, Eq, Structural, Debug)]
pub struct Rcc {
    pub ctrl: RccCtrl,
    pub cfg: RccCfg,
    pub cfg2: RccCfg2,
    pub cfg3: RccCfg3,
    /// AHB peripheral clock enable
    pub ahbpclken: u32,
    /// APB1 peripheral clock enable
    pub apb1pclken: u32,
    /// APB2 peripheral clock enable
    pub apb2pclken: u32,
    /// AHB peripheral reset
    pub ahbprst: u32,
    /// APB1 peripheral reset
    pub apb1prst: u32,
    /// APB2 peripheral reset
    pub apb2prst: u32,
}

/// Flash access control register (`FLASH_AC`).
#[derive(Clone, Copy, PartialEq, Eq, Structural, Debug)]
pub struct FlashAc {
    /// Wait states
    pub latency: u8,
    /// Prefetch buffer enable
    pub prftbfe: bool,
    /// Instruction cache enable
    pub icahen: bool,
}

/// Flash controller.
#[derive(Clone, Copy, PartialEq, Eq, Structural, Debug)]
pub struct Flash {
    pub ac: FlashAc,
}

/// Registers of one GPIO port.
///
/// The bit set/clear registers hold nothing: what a write to them does to
/// `pod` is part of the operations of [`crate::gpio`].
#[derive(Clone, Copy, PartialEq, Eq, Structural, Debug)]
pub struct GpioPort {
    /// Configuration of pins 0 to 7, four bits each
    pub pl_cfg: u32,
    /// Configuration of pins 8 to 15, four bits each
    pub ph_cfg: u32,
    /// Input data, one bit per pin (driven by the hardware)
    pub pid: u32,
    /// Output data, one bit per pin
    pub pod: u32,
}

/// All GPIO ports of the device.
#[derive(Clone, Copy, PartialEq, Eq, Structural, Debug)]
pub struct Gpio {
    pub a: GpioPort,
    pub b: GpioPort,
    pub c: GpioPort,
    pub d: GpioPort,
    pub e: GpioPort,
    pub f: GpioPort,
    pub g: GpioPort,
}

/// Remap configuration register (`AFIO_RMP_CFG`).
#[derive(Clone, Copy, PartialEq, Eq, Structural, Debug)]
pub struct RmpCfg {
    pub spi1_rmp_0: bool,
    pub usart1_rmp: bool,
    pub usart2_rmp_0: bool,
    pub usart3_rmp: u8,
    pub tim1_rmp: u8,
    pub tim2_rmp: u8,
}

/// Remap configuration register 3 (`AFIO_RMP_CFG3`).
#[derive(Clone, Copy, PartialEq, Eq, Structural, Debug)]
pub struct RmpCfg3 {
    pub spi1_rmp_1: bool,
    pub usart2_rmp_1: bool,
    pub spi2_rmp: u8,
    pub spi3_rmp: u8,
    pub uart4_rmp: u8,
    pub uart5_rmp: u8,
    pub uart6_rmp: u8,
    pub uart7_rmp: u8,
    pub tim8_rmp: u8,
}

/// Alternate function I/O block.
#[derive(Clone, Copy, PartialEq, Eq, Structural, Debug)]
pub struct Afio {
    /// Event control
    pub ectrl: u32,
    pub rmp_cfg: RmpCfg,
    /// External interrupt lines 0 to 3
    pub exti_cfg1: u32,
    /// External interrupt lines 4 to 7
    pub exti_cfg2: u32,
    /// External interrupt lines 8 to 11
    pub exti_cfg3: u32,
    /// External interrupt lines 12 to 15
    pub exti_cfg4: u32,
    pub rmp_cfg3: RmpCfg3,
    pub rmp_cfg4: u32,
    pub rmp_cfg5: u32,
}

/// Control register 1 of an SPI (`SPI_CTRL1`).
#[derive(Clone, Copy, PartialEq, Eq, Structural, Debug)]
pub struct SpiCtrl1 {
    /// Data is captured on the second clock transition
    pub clkpha: bool,
    /// The clock is high when idle
    pub clkpol: bool,
    /// Master
    pub msel: bool,
    /// Clock prescaler
    pub br: u8,
    /// The interface is enabled
    pub spien: bool,
    /// Least significant bit first
    pub lsbff: bool,
    /// Internal slave select
    pub ssel: bool,
    /// Software slave management
    pub ssmen: bool,
    /// Receive only
    pub ronly: bool,
    /// Frames of 16 bits
    pub datff: bool,
    /// Output enabled in bidirectional mode
    pub bidiroen: bool,
    /// One data line for both directions
    pub bidirmode: bool,
}

/// Control register 2 of an SPI (`SPI_CTRL2`).
#[derive(Clone, Copy, PartialEq, Eq, Structural, Debug)]
pub struct SpiCtrl2 {
    /// Slave select output enable
    pub ssoen: bool,
}

/// Registers of one SPI.
#[derive(Clone, Copy, PartialEq, Eq, Structural, Debug)]
pub struct SpiBlock {
    pub ctrl1: SpiCtrl1,
    pub ctrl2: SpiCtrl2,
}

/// Control register 1 of a serial port (`USART_CTRL1`).
#[derive(Clone, Copy, PartialEq, Eq, Structural, Debug)]
pub struct UsartCtrl1 {
    /// Receiver enable
    pub rxen: bool,
    /// Transmitter enable
    pub txen: bool,
    /// Odd parity
    pub psel: bool,
    /// Parity control enable
    pub pcen: bool,
    /// Nine data bits
    pub wl: bool,
    /// The port is enabled
    pub uen: bool,
}

/// Control register 2 of a serial port (`USART_CTRL2`).
#[derive(Clone, Copy, PartialEq, Eq, Structural, Debug)]
pub struct UsartCtrl2 {
    /// Stop bits
    pub stpb: u8,
}

/// Control register 3 of a serial port (`USART_CTRL3`).
#[derive(Clone, Copy, PartialEq, Eq, Structural, Debug)]
pub struct UsartCtrl3 {
    /// DMA for reception
    pub dmarxen: bool,
    /// DMA for transmission
    pub dmatxen: bool,
}

/// Registers of one serial port.
#[derive(Clone, Copy, PartialEq, Eq, Structural, Debug)]
pub struct UsartBlock {
    pub ctrl1: UsartCtrl1,
    pub ctrl2: UsartCtrl2,
    pub ctrl3: UsartCtrl3,
    /// Baud rate configuration
    pub brcf: u32,
}

/// The registers of an I2C interface that set its speed.
#[derive(Clone, Copy, PartialEq, Eq, Structural, Debug)]
pub struct I2cBlock {
    /// The interface is enabled (`I2C_CTRL1.EN`)
    pub en: bool,
    /// Frequency of the peripheral clock in MHz (`I2C_CTRL2.CLKFREQ`)
    pub clkfreq: u8,
    /// Maximum rise time (`I2C_TMRISE`)
    pub tmrise: u8,
    /// Fast mode (`I2C_CLKCTRL.FSMODE`)
    pub fsmode: bool,
    /// Duty cycle of 16 to 9 (`I2C_CLKCTRL.DUTY`)
    pub duty: bool,
    /// Clock control (`I2C_CLKCTRL.CLKCTRL`)
    pub clkctrl: u16,
}

/// The error flags of an I2C interface (`I2C_STS1`).
#[derive(Clone, Copy, PartialEq, Eq, Structural, Debug)]
pub struct I2cSts1 {
    /// Timeout
    pub timout: bool,
    /// Packet error check failed
    pub pecerr: bool,
    /// Overrun or underrun
    pub overrun: bool,
    /// Acknowledge failure
    pub ackfail: bool,
    /// Arbitration lost
    pub arlost: bool,
    /// Bus error
    pub buserr: bool,
}

/// GPIO port A
pub struct Gpioa;

/// GPIO port B
pub struct Gpiob;

/// GPIO port C
pub struct Gpioc;

/// GPIO port D
pub struct Gpiod;

/// GPIO port E
pub struct Gpioe;

/// GPIO port F
pub struct Gpiof;

/// GPIO port G
pub struct Gpiog;

/// CRC calculation unit
pub struct Crc;

/// Analog to digital converter 1
pub struct Adc1;

/// Analog to digital converter 2
pub struct Adc2;

/// Analog to digital converter 3
pub struct Adc3;

/// Analog to digital converter 4
pub struct Adc4;

/// DMA controller 1
pub struct Dma1;

/// DMA controller 2
pub struct Dma2;

/// SD card interface
pub struct Sdio;

/// Ethernet MAC
pub struct Eth;

/// Quad SPI interface
pub struct Qspi;

/// Power control
pub struct Pwr;

/// Backup registers
pub struct Bkp;

/// Digital to analog converter
pub struct Dac;

/// Operational amplifiers
pub struct Opamp;

/// Comparators
pub struct Comp;

/// Touch sensing controller
pub struct Tsc;

/// Window watchdog
pub struct Wwdg;

/// USB device
pub struct Usb;

/// CAN controller 1
pub struct Can1;

/// CAN controller 2
pub struct Can2;

/// I2C interface 1
pub struct I2c1;

/// I2C interface 2
pub struct I2c2;

/// I2C interface 3
pub struct I2c3;

/// I2C interface 4
pub struct I2c4;

/// SPI interface 1
pub struct Spi1;

/// SPI interface 2
pub struct Spi2;

/// SPI interface 3
pub struct Spi3;

/// USART 1
pub struct Usart1;

/// USART 2
pub struct Usart2;

/// USART 3
pub struct Usart3;

/// UART 4
pub struct Uart4;

/// UART 5
pub struct Uart5;

/// UART 6
pub struct Uart6;

/// UART 7
pub struct Uart7;

/// Advanced timer 1
pub struct Tim1;

/// General purpose timer 2
pub struct Tim2;

/// General purpose timer 3
pub struct Tim3;

/// General purpose timer 4
pub struct Tim4;

/// General purpose timer 5
pub struct Tim5;

/// Basic timer 6
pub struct Tim6;

/// Basic timer 7
pub struct Tim7;

/// Advanced timer 8
pub struct Tim8;

} // verus!
