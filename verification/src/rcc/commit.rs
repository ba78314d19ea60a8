//! The order in which a clock configuration reaches the hardware.
//!
//! The flash needs its wait states before the clock rises. The PLL can only
//! be started once its source runs, and the system clock can only be
//! switched to a source that is ready and whose dividers are in place. So
//! the registers are written in steps, and between some of them the
//! hardware has to be waited for.

use vstd::prelude::*;
use crate::pac::Ahbpres;
use crate::pac::Apb1pres;
use crate::pac::Flash;
use crate::pac::FlashAc;
use crate::pac::Rcc;
use crate::pac::RccCfg;
use crate::pac::RccCfg2;
use crate::pac::RccCfg3;
use crate::pac::RccCtrl;
use crate::pac::Sclksw;
use crate::rcc::pll;
use crate::rcc::tree::adc_1m;
use crate::rcc::tree::flash_wait_states;
use crate::rcc::tree::trng_1m;
use crate::rcc::tree::usb_prescaler_bits;
use crate::rcc::tree::ClockRequest;

verus! {

/// Number of AHB cycles after which new prescalers are sure to be in effect
pub const PRESCALER_DELAY: u32 = 16;

/// One step on the way of a clock configuration to the hardware
#[derive(Clone, Copy, PartialEq, Eq, Structural, Debug)]
pub enum ClockStep {
    /// Write the clock configuration register as a whole: the PLL's fields
    /// as given, every other field at its reset value
    WritePll { pllmulfct_h: bool, pllmulfct: u8, pllhsepres: bool, pllsrc: bool },
    /// Set the flash wait states and switch on prefetch buffer and
    /// instruction cache
    SetFlashLatency { latency: u8 },
    /// Switch on the external oscillator, with or without bypass
    EnableHse { bypass: bool },
    /// Wait until the external oscillator is ready
    AwaitHseReady,
    /// Switch on the PLL
    EnablePll,
    /// Wait until the PLL is ready
    AwaitPllReady,
    /// Write the three bus prescalers in one access
    SetPrescalers { ahbpres: Ahbpres, apb1pres: Apb1pres, apb2pres: Apb1pres },
    /// Wait for a number of cycles
    Delay { cycles: u32 },
    /// Write the USB prescaler
    SetUsbPrescaler { usbpres: u8 },
    /// Write source and prescaler of the ADC's 1 MHz clock
    SetAdc1m { adc1msel: bool, adc1mpres: u8 },
    /// Write the ADC's AHB and PLL clock prescalers
    SetAdcPrescalers { adchpres: u8, adcpllpres: u8 },
    /// Write source and prescaler of the random number generator's 1 MHz
    /// clock
    SetTrng1m { trng1msel: bool, trng1mpres: u8 },
    /// Switch the system clock to a source
    SelectSysclk { sclksw: Sclksw },
}

/// What a step does to the registers. Waiting changes nothing that the
/// layer writes.
pub open spec fn after_step(step: ClockStep, registers: (Rcc, Flash)) -> (Rcc, Flash) {
    let (rcc, flash) = registers;
    match step {
        ClockStep::WritePll { pllmulfct_h, pllmulfct, pllhsepres, pllsrc } => (
            Rcc {
                cfg: RccCfg {
                    pllmulfct_h,
                    pllmulfct,
                    pllhsepres,
                    pllsrc,
                    ..RccCfg::spec_reset_value()
                },
                ..rcc
            },
            flash,
        ),
        ClockStep::SetFlashLatency { latency } => (
            rcc,
            Flash { ac: FlashAc { latency, prftbfe: true, icahen: true } },
        ),
        ClockStep::EnableHse { bypass } => (
            Rcc {
                ctrl: RccCtrl { hseen: true, hsebp: rcc.ctrl.hsebp || bypass, ..rcc.ctrl },
                ..rcc
            },
            flash,
        ),
        ClockStep::AwaitHseReady => registers,
        ClockStep::EnablePll => (Rcc { ctrl: RccCtrl { pllen: true, ..rcc.ctrl }, ..rcc }, flash),
        ClockStep::AwaitPllReady => registers,
        ClockStep::SetPrescalers { ahbpres, apb1pres, apb2pres } => (
            Rcc { cfg: RccCfg { ahbpres, apb1pres, apb2pres, ..rcc.cfg }, ..rcc },
            flash,
        ),
        ClockStep::Delay { .. } => registers,
        ClockStep::SetUsbPrescaler { usbpres } => (
            Rcc { cfg: RccCfg { usbpres, ..rcc.cfg }, ..rcc },
            flash,
        ),
        ClockStep::SetAdc1m { adc1msel, adc1mpres } => (
            Rcc { cfg2: RccCfg2 { adc1msel, adc1mpres, ..rcc.cfg2 }, ..rcc },
            flash,
        ),
        ClockStep::SetAdcPrescalers { adchpres, adcpllpres } => (
            Rcc { cfg2: RccCfg2 { adchpres, adcpllpres, ..rcc.cfg2 }, ..rcc },
            flash,
        ),
        ClockStep::SetTrng1m { trng1msel, trng1mpres } => (
            Rcc { cfg3: RccCfg3 { trng1msel, trng1mpres } , ..rcc },
            flash,
        ),
        ClockStep::SelectSysclk { sclksw } => (
            Rcc { cfg: RccCfg { sclksw, ..rcc.cfg }, ..rcc },
            flash,
        ),
    }
}

/// What a sequence of steps, taken in order, does to the registers.
pub open spec fn after_steps(steps: Seq<ClockStep>, registers: (Rcc, Flash)) -> (Rcc, Flash)
    decreases steps.len(),
{
    if steps.len() == 0 {
        registers
    } else {
        after_step(steps.last(), after_steps(steps.drop_last(), registers))
    }
}

/// A sequence with one more step does what the sequence does and then what
/// the step does.
pub proof fn lemma_after_push(steps: Seq<ClockStep>, step: ClockStep, registers: (Rcc, Flash))
    ensures
        after_steps(steps.push(step), registers) == after_step(
            step,
            after_steps(steps, registers),
        ),
{
    assert(steps.push(step).drop_last() =~= steps);
    assert(steps.push(step).last() == step);
}

impl ClockRequest {
    /// The steps that set up the PLL's factor and prescaler and the flash:
    /// what has to be in place before any clock is switched on.
    pub open spec fn preparing_steps(self) -> Seq<ClockStep> {
        let pll = if self.on_pll() {
            let cfg = pll::pll_cfg(self.pll_source(), self.hse is Some, self.target());
            Seq::<ClockStep>::empty().push(
                ClockStep::WritePll {
                    pllmulfct_h: cfg.pllmulfct_h,
                    pllmulfct: cfg.pllmulfct,
                    pllhsepres: cfg.pllhsepres,
                    pllsrc: cfg.pllsrc,
                },
            )
        } else {
            Seq::<ClockStep>::empty()
        };
        pll.push(ClockStep::SetFlashLatency { latency: flash_wait_states(self.sysclk()) as u8 })
    }

    /// The preparing steps and the steps that switch on the external
    /// oscillator and the PLL, as far as each is used, and wait for it.
    pub open spec fn starting_steps(self) -> Seq<ClockStep> {
        let prepared = self.preparing_steps();
        let hse = if self.hse is Some {
            prepared.push(ClockStep::EnableHse { bypass: self.hse_bypass }).push(
                ClockStep::AwaitHseReady,
            )
        } else {
            prepared
        };
        if self.on_pll() {
            hse.push(ClockStep::EnablePll).push(ClockStep::AwaitPllReady)
        } else {
            hse
        }
    }

    /// All steps, in the order in which they have to be taken: after the
    /// clocks are started the bus prescalers are written and given time to
    /// take effect, then the prescalers of the derived clocks, and at the
    /// very end the system clock is switched to its source.
    pub open spec fn steps(self) -> Seq<ClockStep> {
        self.starting_steps().push(
            ClockStep::SetPrescalers {
                ahbpres: self.ahb_prescaler(),
                apb1pres: self.apb1_prescaler(),
                apb2pres: self.apb2_prescaler(),
            },
        ).push(ClockStep::Delay { cycles: PRESCALER_DELAY }).push(
            ClockStep::SetUsbPrescaler { usbpres: usb_prescaler_bits(self.hclk()) },
        ).push(
            ClockStep::SetAdc1m { adc1msel: adc_1m(self.hse).0, adc1mpres: adc_1m(self.hse).1 },
        ).push(ClockStep::SetAdcPrescalers { adchpres: 1, adcpllpres: 17 }).push(
            ClockStep::SetTrng1m {
                trng1msel: trng_1m(self.hse).0,
                trng1mpres: trng_1m(self.hse).1,
            },
        ).push(ClockStep::SetUsbPrescaler { usbpres: usb_prescaler_bits(self.hclk()) }).push(
            ClockStep::SelectSysclk { sclksw: self.source() },
        )
    }
}

/// What the steps that start the clocks do, for any values in them.
proof fn lemma_starting(
    on_pll: bool,
    cfg: RccCfg,
    latency: u8,
    hse: bool,
    bypass: bool,
    registers: (Rcc, Flash),
)
    ensures
        ({
            let write_pll = ClockStep::WritePll {
                pllmulfct_h: cfg.pllmulfct_h,
                pllmulfct: cfg.pllmulfct,
                pllhsepres: cfg.pllhsepres,
                pllsrc: cfg.pllsrc,
            };
            let pll = if on_pll {
                Seq::<ClockStep>::empty().push(write_pll)
            } else {
                Seq::<ClockStep>::empty()
            };
            let prepared = pll.push(ClockStep::SetFlashLatency { latency });
            let with_hse = if hse {
                prepared.push(ClockStep::EnableHse { bypass }).push(ClockStep::AwaitHseReady)
            } else {
                prepared
            };
            let started = if on_pll {
                with_hse.push(ClockStep::EnablePll).push(ClockStep::AwaitPllReady)
            } else {
                with_hse
            };
            let rcc = registers.0;
            after_steps(started, registers) == (
                Rcc {
                    cfg: if on_pll {
                        RccCfg {
                            pllmulfct_h: cfg.pllmulfct_h,
                            pllmulfct: cfg.pllmulfct,
                            pllhsepres: cfg.pllhsepres,
                            pllsrc: cfg.pllsrc,
                            ..RccCfg::spec_reset_value()
                        }
                    } else {
                        rcc.cfg
                    },
                    ctrl: RccCtrl {
                        hseen: rcc.ctrl.hseen || hse,
                        hsebp: rcc.ctrl.hsebp || (hse && bypass),
                        pllen: rcc.ctrl.pllen || on_pll,
                        ..rcc.ctrl
                    },
                    ..rcc
                },
                Flash { ac: FlashAc { latency, prftbfe: true, icahen: true } },
            )
        }),
{
    let empty = Seq::<ClockStep>::empty();
    assert(after_steps(empty, registers) == registers);
    let write_pll = ClockStep::WritePll {
        pllmulfct_h: cfg.pllmulfct_h,
        pllmulfct: cfg.pllmulfct,
        pllhsepres: cfg.pllhsepres,
        pllsrc: cfg.pllsrc,
    };
    let pll = if on_pll {
        empty.push(write_pll)
    } else {
        empty
    };
    lemma_after_push(empty, write_pll, registers);
    let set_flash = ClockStep::SetFlashLatency { latency };
    lemma_after_push(pll, set_flash, registers);
    let prepared = pll.push(set_flash);
    let enable_hse = ClockStep::EnableHse { bypass };
    lemma_after_push(prepared, enable_hse, registers);
    lemma_after_push(prepared.push(enable_hse), ClockStep::AwaitHseReady, registers);
    let with_hse = if hse {
        prepared.push(enable_hse).push(ClockStep::AwaitHseReady)
    } else {
        prepared
    };
    lemma_after_push(with_hse, ClockStep::EnablePll, registers);
    lemma_after_push(with_hse.push(ClockStep::EnablePll), ClockStep::AwaitPllReady, registers);
}

/// What the steps after the start of the clocks do, for any values in them
/// and after any steps before them.
proof fn lemma_finishing(
    started: Seq<ClockStep>,
    registers: (Rcc, Flash),
    prescalers: (Ahbpres, Apb1pres, Apb1pres),
    usbpres: u8,
    adc: (bool, u8),
    trng: (bool, u8),
    sclksw: Sclksw,
)
    ensures
        ({
            let steps = started.push(
                ClockStep::SetPrescalers {
                    ahbpres: prescalers.0,
                    apb1pres: prescalers.1,
                    apb2pres: prescalers.2,
                },
            ).push(ClockStep::Delay { cycles: PRESCALER_DELAY }).push(
                ClockStep::SetUsbPrescaler { usbpres },
            ).push(ClockStep::SetAdc1m { adc1msel: adc.0, adc1mpres: adc.1 }).push(
                ClockStep::SetAdcPrescalers { adchpres: 1, adcpllpres: 17 },
            ).push(ClockStep::SetTrng1m { trng1msel: trng.0, trng1mpres: trng.1 }).push(
                ClockStep::SetUsbPrescaler { usbpres },
            ).push(ClockStep::SelectSysclk { sclksw });
            let (rcc, flash) = after_steps(started, registers);
            after_steps(steps, registers) == (
                Rcc {
                    cfg: RccCfg {
                        sclksw,
                        ahbpres: prescalers.0,
                        apb1pres: prescalers.1,
                        apb2pres: prescalers.2,
                        usbpres,
                        ..rcc.cfg
                    },
                    cfg2: RccCfg2 {
                        adc1msel: adc.0,
                        adc1mpres: adc.1,
                        adchpres: 1,
                        adcpllpres: 17,
                    },
                    cfg3: RccCfg3 { trng1msel: trng.0, trng1mpres: trng.1 },
                    ..rcc
                },
                flash,
            )
        }),
{
    let p1 = ClockStep::SetPrescalers {
        ahbpres: prescalers.0,
        apb1pres: prescalers.1,
        apb2pres: prescalers.2,
    };
    let p2 = ClockStep::Delay { cycles: PRESCALER_DELAY };
    let p3 = ClockStep::SetUsbPrescaler { usbpres };
    let p4 = ClockStep::SetAdc1m { adc1msel: adc.0, adc1mpres: adc.1 };
    let p5 = ClockStep::SetAdcPrescalers { adchpres: 1, adcpllpres: 17 };
    let p6 = ClockStep::SetTrng1m { trng1msel: trng.0, trng1mpres: trng.1 };
    let p7 = ClockStep::SelectSysclk { sclksw };
    let t1 = started.push(p1);
    let t2 = t1.push(p2);
    let t3 = t2.push(p3);
    let t4 = t3.push(p4);
    let t5 = t4.push(p5);
    let t6 = t5.push(p6);
    let t7 = t6.push(p3);
    lemma_after_push(started, p1, registers);
    lemma_after_push(t1, p2, registers);
    lemma_after_push(t2, p3, registers);
    lemma_after_push(t3, p4, registers);
    lemma_after_push(t4, p5, registers);
    lemma_after_push(t5, p6, registers);
    lemma_after_push(t6, p3, registers);
    lemma_after_push(t7, p7, registers);
}

/// The steps of a request, taken in order, leave the registers as the
/// request's commitment describes them.
pub proof fn lemma_steps_commit(request: ClockRequest, rcc: Rcc, flash: Flash)
    ensures
        after_steps(request.steps(), (rcc, flash)) == (
            request.committed(rcc),
            request.flash_committed(flash),
        ),
{
    reveal(pll::pll_cfg);
    let cfg = pll::pll_cfg(request.pll_source(), request.hse is Some, request.target());
    lemma_starting(
        request.on_pll(),
        cfg,
        flash_wait_states(request.sysclk()) as u8,
        request.hse is Some,
        request.hse_bypass,
        (rcc, flash),
    );
    lemma_finishing(
        request.starting_steps(),
        (rcc, flash),
        (request.ahb_prescaler(), request.apb1_prescaler(), request.apb2_prescaler()),
        usb_prescaler_bits(request.hclk()),
        adc_1m(request.hse),
        trng_1m(request.hse),
        request.source(),
    );
}

} // verus!
