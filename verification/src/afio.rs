//! # Alternate Function I/Os
//!
//! The block holds the remap registers, which route peripheral signals to
//! pins, and the registers that route pins to the external interrupt lines.

use vstd::prelude::*;
use crate::pac::Afio;
use crate::pac::Rcc;
use crate::pac::RmpCfg;
use crate::pac::RmpCfg3;
use crate::rcc::after_enable;
use crate::rcc::after_reset;
use crate::rcc::Enable;
use crate::rcc::Reset;

verus! {

/// Extension trait that prepares the block for use
pub trait AfioExt {
    /// Enables the block's clock, resets the block and hands it out.
    fn constrain(self, rcc: &mut Rcc) -> (afio: Afio)
        ensures
            *final(rcc) == after_reset::<Afio>(after_enable::<Afio>(*old(rcc))),
    ;
}

impl AfioExt for Afio {
    fn constrain(self, rcc: &mut Rcc) -> (afio: Afio)
        ensures
            afio == self,
    {
        Afio::enable(rcc);
        Afio::reset(rcc);
        self
    }
}

/// HAL wrapper around the Afio registers
///
/// Each part stands for one register of the block and hands it out.
pub struct Parts {
    pub ectrl: ECTRL,
    pub rmp_cfg: RMP_CFG,
    pub exticfg1: EXTI_CFG1,
    pub exticfg2: EXTI_CFG2,
    pub exticfg3: EXTI_CFG3,
    pub exticfg4: EXTI_CFG4,
    pub rmp_cfg3: RMP_CFG3,
    pub rmp_cfg4: RMP_CFG4,
    pub rmp_cfg5: RMP_CFG5,
}

impl Parts {
    /// The parts of the block.
    pub fn new() -> (parts: Parts) {
        Parts {
            ectrl: ECTRL { _0: () },
            rmp_cfg: RMP_CFG { _0: () },
            exticfg1: EXTI_CFG1 { _0: () },
            exticfg2: EXTI_CFG2 { _0: () },
            exticfg3: EXTI_CFG3 { _0: () },
            exticfg4: EXTI_CFG4 { _0: () },
            rmp_cfg3: RMP_CFG3 { _0: () },
            rmp_cfg4: RMP_CFG4 { _0: () },
            rmp_cfg5: RMP_CFG5 { _0: () },
        }
    }
}

/// Which of the debug pins the debug port keeps
#[derive(Clone, Copy, PartialEq, Eq, Structural, Debug)]
pub enum DebugState {
    FullyEnabled,
    JtagNoTrstEnabled,
    SwdEnabled,
    DebugDisabled,
}

/// Event control register
#[allow(non_camel_case_types)]
pub struct ECTRL {
    _0: (),
}

impl ECTRL {
    pub fn ec<'a>(&mut self, afio: &'a mut Afio) -> (register: &'a mut u32)
        ensures
            *register == old(afio).ectrl,
            *final(afio) == (Afio { ectrl: *final(register), ..*old(afio) }),
    {
        &mut afio.ectrl
    }
}

/// External interrupt configuration register 1
#[allow(non_camel_case_types)]
pub struct EXTI_CFG1 {
    _0: (),
}

impl EXTI_CFG1 {
    pub fn exti_cfg1<'a>(&mut self, afio: &'a mut Afio) -> (register: &'a mut u32)
        ensures
            *register == old(afio).exti_cfg1,
            *final(afio) == (Afio { exti_cfg1: *final(register), ..*old(afio) }),
    {
        &mut afio.exti_cfg1
    }
}

/// External interrupt configuration register 2
#[allow(non_camel_case_types)]
pub struct EXTI_CFG2 {
    _0: (),
}

impl EXTI_CFG2 {
    pub fn exti_cfg2<'a>(&mut self, afio: &'a mut Afio) -> (register: &'a mut u32)
        ensures
            *register == old(afio).exti_cfg2,
            *final(afio) == (Afio { exti_cfg2: *final(register), ..*old(afio) }),
    {
        &mut afio.exti_cfg2
    }
}

/// External interrupt configuration register 3
#[allow(non_camel_case_types)]
pub struct EXTI_CFG3 {
    _0: (),
}

impl EXTI_CFG3 {
    pub fn exti_cfg3<'a>(&mut self, afio: &'a mut Afio) -> (register: &'a mut u32)
        ensures
            *register == old(afio).exti_cfg3,
            *final(afio) == (Afio { exti_cfg3: *final(register), ..*old(afio) }),
    {
        &mut afio.exti_cfg3
    }
}

/// External interrupt configuration register 4
#[allow(non_camel_case_types)]
pub struct EXTI_CFG4 {
    _0: (),
}

impl EXTI_CFG4 {
    pub fn exti_cfg3<'a>(&mut self, afio: &'a mut Afio) -> (register: &'a mut u32)
        ensures
            *register == old(afio).exti_cfg4,
            *final(afio) == (Afio { exti_cfg4: *final(register), ..*old(afio) }),
    {
        &mut afio.exti_cfg4
    }
}

/// AF remap and debug I/O configuration register
#[allow(non_camel_case_types)]
pub struct RMP_CFG {
    _0: (),
}

impl RMP_CFG {
    pub fn rmp_cfg<'a>(&mut self, afio: &'a mut Afio) -> (register: &'a mut RmpCfg)
        ensures
            *register == old(afio).rmp_cfg,
            *final(afio) == (Afio { rmp_cfg: *final(register), ..*old(afio) }),
    {
        &mut afio.rmp_cfg
    }
}

/// AF remap configuration register 3
#[allow(non_camel_case_types)]
pub struct RMP_CFG3 {
    _0: (),
}

impl RMP_CFG3 {
    pub fn rmp_cfg3<'a>(&mut self, afio: &'a mut Afio) -> (register: &'a mut RmpCfg3)
        ensures
            *register == old(afio).rmp_cfg3,
            *final(afio) == (Afio { rmp_cfg3: *final(register), ..*old(afio) }),
    {
        &mut afio.rmp_cfg3
    }
}

/// AF remap configuration register 4
#[allow(non_camel_case_types)]
pub struct RMP_CFG4 {
    _0: (),
}

impl RMP_CFG4 {
    pub fn rmp_cfg4<'a>(&mut self, afio: &'a mut Afio) -> (register: &'a mut u32)
        ensures
            *register == old(afio).rmp_cfg4,
            *final(afio) == (Afio { rmp_cfg4: *final(register), ..*old(afio) }),
    {
        &mut afio.rmp_cfg4
    }
}

/// AF remap configuration register 5
#[allow(non_camel_case_types)]
pub struct RMP_CFG5 {
    _0: (),
}

impl RMP_CFG5 {
    pub fn rmp_cfg5<'a>(&mut self, afio: &'a mut Afio) -> (register: &'a mut u32)
        ensures
            *register == old(afio).rmp_cfg5,
            *final(afio) == (Afio { rmp_cfg5: *final(register), ..*old(afio) }),
    {
        &mut afio.rmp_cfg5
    }
}

} // verus!
