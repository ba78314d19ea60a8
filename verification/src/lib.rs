//! Verified core of a hardware abstraction layer for the N32G45x family of
//! Cortex-M microcontrollers.
//!
//! Every peripheral block is represented by a plain value that holds its
//! registers ([`pac`]). The operations of the layer are functions on those
//! values, and their contracts say which register fields they change and to
//! what. Moving the values to and from the memory-mapped hardware is left to
//! the caller.

pub mod adc;
pub mod afio;
pub mod bb;
pub mod bkp;
pub mod crc;
pub mod dma;
pub mod fmc;
pub mod gpio;
pub mod i2c;
pub mod pac;
pub mod poll;
pub mod pwm;
pub mod pwr;
pub mod rcc;
pub mod sealed;
pub mod serial;
pub mod spi;
pub mod timer;
pub mod width;
