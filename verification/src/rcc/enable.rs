//! Which bus gates each peripheral, and at which bit.

use vstd::prelude::*;
use crate::rcc::Enable;
use crate::rcc::RccBus;
use crate::rcc::Reset;
use crate::rcc::AHB;
use crate::rcc::APB1;
use crate::rcc::APB2;
use crate::sealed::Sealed;

verus! {

impl Sealed for crate::pac::Gpioa {

}

impl RccBus for crate::pac::Gpioa {
    type Bus = APB2;

    open spec fn spec_bit() -> u32 {
        2
    }

    fn bit() -> (bit: u32) {
        2
    }

    proof fn lemma_bit() {
    }
}

impl Enable for crate::pac::Gpioa {

}

impl Reset for crate::pac::Gpioa {

}

impl Sealed for crate::pac::Gpiob {

}

impl RccBus for crate::pac::Gpiob {
    type Bus = APB2;

    open spec fn spec_bit() -> u32 {
        3
    }

    fn bit() -> (bit: u32) {
        3
    }

    proof fn lemma_bit() {
    }
}

impl Enable for crate::pac::Gpiob {

}

impl Reset for crate::pac::Gpiob {

}

impl Sealed for crate::pac::Gpioc {

}

impl RccBus for crate::pac::Gpioc {
    type Bus = APB2;

    open spec fn spec_bit() -> u32 {
        4
    }

    fn bit() -> (bit: u32) {
        4
    }

    proof fn lemma_bit() {
    }
}

impl Enable for crate::pac::Gpioc {

}

impl Reset for crate::pac::Gpioc {

}

impl Sealed for crate::pac::Gpiod {

}

impl RccBus for crate::pac::Gpiod {
    type Bus = APB2;

    open spec fn spec_bit() -> u32 {
        5
    }

    fn bit() -> (bit: u32) {
        5
    }

    proof fn lemma_bit() {
    }
}

impl Enable for crate::pac::Gpiod {

}

impl Reset for crate::pac::Gpiod {

}

impl Sealed for crate::pac::Gpioe {

}

impl RccBus for crate::pac::Gpioe {
    type Bus = APB2;

    open spec fn spec_bit() -> u32 {
        6
    }

    fn bit() -> (bit: u32) {
        6
    }

    proof fn lemma_bit() {
    }
}

impl Enable for crate::pac::Gpioe {

}

impl Reset for crate::pac::Gpioe {

}

impl Sealed for crate::pac::Gpiof {

}

impl RccBus for crate::pac::Gpiof {
    type Bus = APB2;

    open spec fn spec_bit() -> u32 {
        7
    }

    fn bit() -> (bit: u32) {
        7
    }

    proof fn lemma_bit() {
    }
}

impl Enable for crate::pac::Gpiof {

}

impl Reset for crate::pac::Gpiof {

}

impl Sealed for crate::pac::Gpiog {

}

impl RccBus for crate::pac::Gpiog {
    type Bus = APB2;

    open spec fn spec_bit() -> u32 {
        8
    }

    fn bit() -> (bit: u32) {
        8
    }

    proof fn lemma_bit() {
    }
}

impl Enable for crate::pac::Gpiog {

}

impl Reset for crate::pac::Gpiog {

}

impl Sealed for crate::pac::Crc {

}

impl RccBus for crate::pac::Crc {
    type Bus = AHB;

    open spec fn spec_bit() -> u32 {
        6
    }

    fn bit() -> (bit: u32) {
        6
    }

    proof fn lemma_bit() {
    }
}

impl Enable for crate::pac::Crc {

}

impl Reset for crate::pac::Crc {

}

impl Sealed for crate::pac::Adc1 {

}

impl RccBus for crate::pac::Adc1 {
    type Bus = AHB;

    open spec fn spec_bit() -> u32 {
        12
    }

    fn bit() -> (bit: u32) {
        12
    }

    proof fn lemma_bit() {
    }
}

impl Enable for crate::pac::Adc1 {

}

impl Reset for crate::pac::Adc1 {

}

impl Sealed for crate::pac::Dma1 {

}

impl RccBus for crate::pac::Dma1 {
    type Bus = AHB;

    open spec fn spec_bit() -> u32 {
        0
    }

    fn bit() -> (bit: u32) {
        0
    }

    proof fn lemma_bit() {
    }
}

impl Enable for crate::pac::Dma1 {

}

impl Reset for crate::pac::Dma1 {

}

impl Sealed for crate::pac::Pwr {

}

impl RccBus for crate::pac::Pwr {
    type Bus = APB1;

    open spec fn spec_bit() -> u32 {
        28
    }

    fn bit() -> (bit: u32) {
        28
    }

    proof fn lemma_bit() {
    }
}

impl Enable for crate::pac::Pwr {

}

impl Reset for crate::pac::Pwr {

}

impl Sealed for crate::pac::I2c2 {

}

impl RccBus for crate::pac::I2c2 {
    type Bus = APB1;

    open spec fn spec_bit() -> u32 {
        22
    }

    fn bit() -> (bit: u32) {
        22
    }

    proof fn lemma_bit() {
    }
}

impl Enable for crate::pac::I2c2 {

}

impl Reset for crate::pac::I2c2 {

}

impl Sealed for crate::pac::I2c1 {

}

impl RccBus for crate::pac::I2c1 {
    type Bus = APB1;

    open spec fn spec_bit() -> u32 {
        21
    }

    fn bit() -> (bit: u32) {
        21
    }

    proof fn lemma_bit() {
    }
}

impl Enable for crate::pac::I2c1 {

}

impl Reset for crate::pac::I2c1 {

}

impl Sealed for crate::pac::Usart2 {

}

impl RccBus for crate::pac::Usart2 {
    type Bus = APB1;

    open spec fn spec_bit() -> u32 {
        17
    }

    fn bit() -> (bit: u32) {
        17
    }

    proof fn lemma_bit() {
    }
}

impl Enable for crate::pac::Usart2 {

}

impl Reset for crate::pac::Usart2 {

}

impl Sealed for crate::pac::Wwdg {

}

impl RccBus for crate::pac::Wwdg {
    type Bus = APB1;

    open spec fn spec_bit() -> u32 {
        11
    }

    fn bit() -> (bit: u32) {
        11
    }

    proof fn lemma_bit() {
    }
}

impl Enable for crate::pac::Wwdg {

}

impl Reset for crate::pac::Wwdg {

}

impl Sealed for crate::pac::Comp {

}

impl RccBus for crate::pac::Comp {
    type Bus = APB1;

    open spec fn spec_bit() -> u32 {
        6
    }

    fn bit() -> (bit: u32) {
        6
    }

    proof fn lemma_bit() {
    }
}

impl Enable for crate::pac::Comp {

}

impl Reset for crate::pac::Comp {

}

impl Sealed for crate::pac::Tim6 {

}

impl RccBus for crate::pac::Tim6 {
    type Bus = APB1;

    open spec fn spec_bit() -> u32 {
        4
    }

    fn bit() -> (bit: u32) {
        4
    }

    proof fn lemma_bit() {
    }
}

impl Enable for crate::pac::Tim6 {

}

impl Reset for crate::pac::Tim6 {

}

impl Sealed for crate::pac::Tim5 {

}

impl RccBus for crate::pac::Tim5 {
    type Bus = APB1;

    open spec fn spec_bit() -> u32 {
        3
    }

    fn bit() -> (bit: u32) {
        3
    }

    proof fn lemma_bit() {
    }
}

impl Enable for crate::pac::Tim5 {

}

impl Reset for crate::pac::Tim5 {

}

impl Sealed for crate::pac::Tim4 {

}

impl RccBus for crate::pac::Tim4 {
    type Bus = APB1;

    open spec fn spec_bit() -> u32 {
        2
    }

    fn bit() -> (bit: u32) {
        2
    }

    proof fn lemma_bit() {
    }
}

impl Enable for crate::pac::Tim4 {

}

impl Reset for crate::pac::Tim4 {

}

impl Sealed for crate::pac::Tim3 {

}

impl RccBus for crate::pac::Tim3 {
    type Bus = APB1;

    open spec fn spec_bit() -> u32 {
        1
    }

    fn bit() -> (bit: u32) {
        1
    }

    proof fn lemma_bit() {
    }
}

impl Enable for crate::pac::Tim3 {

}

impl Reset for crate::pac::Tim3 {

}

impl Sealed for crate::pac::Tim2 {

}

impl RccBus for crate::pac::Tim2 {
    type Bus = APB1;

    open spec fn spec_bit() -> u32 {
        0
    }

    fn bit() -> (bit: u32) {
        0
    }

    proof fn lemma_bit() {
    }
}

impl Enable for crate::pac::Tim2 {

}

impl Reset for crate::pac::Tim2 {

}

impl Sealed for crate::pac::Usart1 {

}

impl RccBus for crate::pac::Usart1 {
    type Bus = APB2;

    open spec fn spec_bit() -> u32 {
        14
    }

    fn bit() -> (bit: u32) {
        14
    }

    proof fn lemma_bit() {
    }
}

impl Enable for crate::pac::Usart1 {

}

impl Reset for crate::pac::Usart1 {

}

impl Sealed for crate::pac::Tim8 {

}

impl RccBus for crate::pac::Tim8 {
    type Bus = APB2;

    open spec fn spec_bit() -> u32 {
        13
    }

    fn bit() -> (bit: u32) {
        13
    }

    proof fn lemma_bit() {
    }
}

impl Enable for crate::pac::Tim8 {

}

impl Reset for crate::pac::Tim8 {

}

impl Sealed for crate::pac::Spi1 {

}

impl RccBus for crate::pac::Spi1 {
    type Bus = APB2;

    open spec fn spec_bit() -> u32 {
        12
    }

    fn bit() -> (bit: u32) {
        12
    }

    proof fn lemma_bit() {
    }
}

impl Enable for crate::pac::Spi1 {

}

impl Reset for crate::pac::Spi1 {

}

impl Sealed for crate::pac::Tim1 {

}

impl RccBus for crate::pac::Tim1 {
    type Bus = APB2;

    open spec fn spec_bit() -> u32 {
        11
    }

    fn bit() -> (bit: u32) {
        11
    }

    proof fn lemma_bit() {
    }
}

impl Enable for crate::pac::Tim1 {

}

impl Reset for crate::pac::Tim1 {

}

impl Sealed for crate::pac::Afio {

}

impl RccBus for crate::pac::Afio {
    type Bus = APB2;

    open spec fn spec_bit() -> u32 {
        0
    }

    fn bit() -> (bit: u32) {
        0
    }

    proof fn lemma_bit() {
    }
}

impl Enable for crate::pac::Afio {

}

impl Reset for crate::pac::Afio {

}

impl Sealed for crate::pac::Qspi {

}

impl RccBus for crate::pac::Qspi {
    type Bus = AHB;

    open spec fn spec_bit() -> u32 {
        17
    }

    fn bit() -> (bit: u32) {
        17
    }

    proof fn lemma_bit() {
    }
}

impl Enable for crate::pac::Qspi {

}

impl Reset for crate::pac::Qspi {

}

impl Sealed for crate::pac::Eth {

}

impl RccBus for crate::pac::Eth {
    type Bus = AHB;

    open spec fn spec_bit() -> u32 {
        16
    }

    fn bit() -> (bit: u32) {
        16
    }

    proof fn lemma_bit() {
    }
}

impl Enable for crate::pac::Eth {

}

impl Reset for crate::pac::Eth {

}

impl Sealed for crate::pac::Adc4 {

}

impl RccBus for crate::pac::Adc4 {
    type Bus = AHB;

    open spec fn spec_bit() -> u32 {
        15
    }

    fn bit() -> (bit: u32) {
        15
    }

    proof fn lemma_bit() {
    }
}

impl Enable for crate::pac::Adc4 {

}

impl Reset for crate::pac::Adc4 {

}

impl Sealed for crate::pac::Adc3 {

}

impl RccBus for crate::pac::Adc3 {
    type Bus = AHB;

    open spec fn spec_bit() -> u32 {
        14
    }

    fn bit() -> (bit: u32) {
        14
    }

    proof fn lemma_bit() {
    }
}

impl Enable for crate::pac::Adc3 {

}

impl Reset for crate::pac::Adc3 {

}

impl Sealed for crate::pac::Adc2 {

}

impl RccBus for crate::pac::Adc2 {
    type Bus = AHB;

    open spec fn spec_bit() -> u32 {
        13
    }

    fn bit() -> (bit: u32) {
        13
    }

    proof fn lemma_bit() {
    }
}

impl Enable for crate::pac::Adc2 {

}

impl Reset for crate::pac::Adc2 {

}

impl Sealed for crate::pac::Sdio {

}

impl RccBus for crate::pac::Sdio {
    type Bus = AHB;

    open spec fn spec_bit() -> u32 {
        10
    }

    fn bit() -> (bit: u32) {
        10
    }

    proof fn lemma_bit() {
    }
}

impl Enable for crate::pac::Sdio {

}

impl Reset for crate::pac::Sdio {

}

impl Sealed for crate::pac::Dma2 {

}

impl RccBus for crate::pac::Dma2 {
    type Bus = AHB;

    open spec fn spec_bit() -> u32 {
        1
    }

    fn bit() -> (bit: u32) {
        1
    }

    proof fn lemma_bit() {
    }
}

impl Enable for crate::pac::Dma2 {

}

impl Reset for crate::pac::Dma2 {

}

impl Sealed for crate::pac::I2c4 {

}

impl RccBus for crate::pac::I2c4 {
    type Bus = APB2;

    open spec fn spec_bit() -> u32 {
        20
    }

    fn bit() -> (bit: u32) {
        20
    }

    proof fn lemma_bit() {
    }
}

impl Enable for crate::pac::I2c4 {

}

impl Reset for crate::pac::I2c4 {

}

impl Sealed for crate::pac::I2c3 {

}

impl RccBus for crate::pac::I2c3 {
    type Bus = APB2;

    open spec fn spec_bit() -> u32 {
        19
    }

    fn bit() -> (bit: u32) {
        19
    }

    proof fn lemma_bit() {
    }
}

impl Enable for crate::pac::I2c3 {

}

impl Reset for crate::pac::I2c3 {

}

impl Sealed for crate::pac::Uart7 {

}

impl RccBus for crate::pac::Uart7 {
    type Bus = APB2;

    open spec fn spec_bit() -> u32 {
        18
    }

    fn bit() -> (bit: u32) {
        18
    }

    proof fn lemma_bit() {
    }
}

impl Enable for crate::pac::Uart7 {

}

impl Reset for crate::pac::Uart7 {

}

impl Sealed for crate::pac::Uart6 {

}

impl RccBus for crate::pac::Uart6 {
    type Bus = APB2;

    open spec fn spec_bit() -> u32 {
        17
    }

    fn bit() -> (bit: u32) {
        17
    }

    proof fn lemma_bit() {
    }
}

impl Enable for crate::pac::Uart6 {

}

impl Reset for crate::pac::Uart6 {

}

impl Sealed for crate::pac::Opamp {

}

impl RccBus for crate::pac::Opamp {
    type Bus = APB1;

    open spec fn spec_bit() -> u32 {
        31
    }

    fn bit() -> (bit: u32) {
        31
    }

    proof fn lemma_bit() {
    }
}

impl Enable for crate::pac::Opamp {

}

impl Reset for crate::pac::Opamp {

}

impl Sealed for crate::pac::Dac {

}

impl RccBus for crate::pac::Dac {
    type Bus = APB1;

    open spec fn spec_bit() -> u32 {
        29
    }

    fn bit() -> (bit: u32) {
        29
    }

    proof fn lemma_bit() {
    }
}

impl Enable for crate::pac::Dac {

}

impl Reset for crate::pac::Dac {

}

impl Sealed for crate::pac::Usb {

}

impl RccBus for crate::pac::Usb {
    type Bus = APB1;

    open spec fn spec_bit() -> u32 {
        23
    }

    fn bit() -> (bit: u32) {
        23
    }

    proof fn lemma_bit() {
    }
}

impl Enable for crate::pac::Usb {

}

impl Reset for crate::pac::Usb {

}

impl Sealed for crate::pac::Usart3 {

}

impl RccBus for crate::pac::Usart3 {
    type Bus = APB1;

    open spec fn spec_bit() -> u32 {
        18
    }

    fn bit() -> (bit: u32) {
        18
    }

    proof fn lemma_bit() {
    }
}

impl Enable for crate::pac::Usart3 {

}

impl Reset for crate::pac::Usart3 {

}

impl Sealed for crate::pac::Tsc {

}

impl RccBus for crate::pac::Tsc {
    type Bus = APB1;

    open spec fn spec_bit() -> u32 {
        10
    }

    fn bit() -> (bit: u32) {
        10
    }

    proof fn lemma_bit() {
    }
}

impl Enable for crate::pac::Tsc {

}

impl Reset for crate::pac::Tsc {

}

impl Sealed for crate::pac::Tim7 {

}

impl RccBus for crate::pac::Tim7 {
    type Bus = APB1;

    open spec fn spec_bit() -> u32 {
        5
    }

    fn bit() -> (bit: u32) {
        5
    }

    proof fn lemma_bit() {
    }
}

impl Enable for crate::pac::Tim7 {

}

impl Reset for crate::pac::Tim7 {

}

impl Sealed for crate::pac::Bkp {

}

impl RccBus for crate::pac::Bkp {
    type Bus = APB1;

    open spec fn spec_bit() -> u32 {
        27
    }

    fn bit() -> (bit: u32) {
        27
    }

    proof fn lemma_bit() {
    }
}

impl Enable for crate::pac::Bkp {

}

impl Reset for crate::pac::Bkp {

}

impl Sealed for crate::pac::Uart5 {

}

impl RccBus for crate::pac::Uart5 {
    type Bus = APB1;

    open spec fn spec_bit() -> u32 {
        20
    }

    fn bit() -> (bit: u32) {
        20
    }

    proof fn lemma_bit() {
    }
}

impl Enable for crate::pac::Uart5 {

}

impl Reset for crate::pac::Uart5 {

}

impl Sealed for crate::pac::Uart4 {

}

impl RccBus for crate::pac::Uart4 {
    type Bus = APB1;

    open spec fn spec_bit() -> u32 {
        19
    }

    fn bit() -> (bit: u32) {
        19
    }

    proof fn lemma_bit() {
    }
}

impl Enable for crate::pac::Uart4 {

}

impl Reset for crate::pac::Uart4 {

}

impl Sealed for crate::pac::Spi3 {

}

impl RccBus for crate::pac::Spi3 {
    type Bus = APB1;

    open spec fn spec_bit() -> u32 {
        15
    }

    fn bit() -> (bit: u32) {
        15
    }

    proof fn lemma_bit() {
    }
}

impl Enable for crate::pac::Spi3 {

}

impl Reset for crate::pac::Spi3 {

}

impl Sealed for crate::pac::Spi2 {

}

impl RccBus for crate::pac::Spi2 {
    type Bus = APB1;

    open spec fn spec_bit() -> u32 {
        14
    }

    fn bit() -> (bit: u32) {
        14
    }

    proof fn lemma_bit() {
    }
}

impl Enable for crate::pac::Spi2 {

}

impl Reset for crate::pac::Spi2 {

}

impl Sealed for crate::pac::Can2 {

}

impl RccBus for crate::pac::Can2 {
    type Bus = APB1;

    open spec fn spec_bit() -> u32 {
        26
    }

    fn bit() -> (bit: u32) {
        26
    }

    proof fn lemma_bit() {
    }
}

impl Enable for crate::pac::Can2 {

}

impl Reset for crate::pac::Can2 {

}

impl Sealed for crate::pac::Can1 {

}

impl RccBus for crate::pac::Can1 {
    type Bus = APB1;

    open spec fn spec_bit() -> u32 {
        25
    }

    fn bit() -> (bit: u32) {
        25
    }

    proof fn lemma_bit() {
    }
}

impl Enable for crate::pac::Can1 {

}

impl Reset for crate::pac::Can1 {

}

} // verus!
