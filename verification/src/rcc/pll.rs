//! Main PLL: choice of input prescaler and multiplier for a target frequency.

use vstd::prelude::*;
use vstd::arithmetic::div_mod::lemma_fundamental_div_mod;
use vstd::arithmetic::div_mod::lemma_mod_bound;
use vstd::arithmetic::div_mod::lemma_div_pos_is_pos;
use crate::pac::Rcc;
use crate::pac::RccCfg;

verus! {

/// Largest factor that the multiplier field and its extension bit can hold.
pub const PLL_MUL_MAX: u32 = 32;

/// Frequency at the PLL's input: the source divided by the prescaler.
pub open spec fn vco_in(pllsrcclk: int, presc: int) -> int {
    pllsrcclk / presc
}

/// The factor chosen for a prescaler: as many whole input periods as fit
/// into the target.
pub open spec fn multiplier_for(pllsrcclk: int, presc: int, target: int) -> int {
    target / vco_in(pllsrcclk, presc)
}

/// How far under the target the PLL's output stays with a prescaler.
pub open spec fn residual(pllsrcclk: int, presc: int, target: int) -> int {
    target - vco_in(pllsrcclk, presc) * multiplier_for(pllsrcclk, presc, target)
}

/// The prescaler chosen for a source and a target.
///
/// The internal oscillator is always halved. For the external oscillator
/// both 1 and 2 are tried, and the one with the smaller residual is taken,
/// 1 if they are equal.
pub open spec fn prescaler(pllsrcclk: int, use_hse: bool, target: int) -> int {
    if use_hse {
        if residual(pllsrcclk, 1, target) <= residual(pllsrcclk, 2, target) {
            1
        } else {
            2
        }
    } else {
        2
    }
}

/// The factor chosen for a source and a target.
pub open spec fn multiplier(pllsrcclk: int, use_hse: bool, target: int) -> int {
    multiplier_for(pllsrcclk, prescaler(pllsrcclk, use_hse, target), target)
}

/// The frequency that the PLL delivers for a source and a target.
pub open spec fn output(pllsrcclk: int, use_hse: bool, target: int) -> int {
    vco_in(pllsrcclk, prescaler(pllsrcclk, use_hse, target)) * multiplier(
        pllsrcclk,
        use_hse,
        target,
    )
}

/// A source and a target for which a prescaler and a factor of at least 1
/// exist: the halved source is not zero, and the target is not below the
/// input frequency that the choice of prescaler leads to.
pub open spec fn solvable(pllsrcclk: int, use_hse: bool, target: int) -> bool {
    &&& pllsrcclk >= 2
    &&& target >= 0
    &&& multiplier(pllsrcclk, use_hse, target) >= 1
}

/// A solvable source and target whose factor the hardware can hold.
pub open spec fn in_range(pllsrcclk: int, use_hse: bool, target: int) -> bool {
    &&& solvable(pllsrcclk, use_hse, target)
    &&& multiplier(pllsrcclk, use_hse, target) <= PLL_MUL_MAX
}

/// The multiplier field for a factor: the factor less 1 up to 16, the
/// factor less 17 above, each taken modulo 256 as the field's writer does.
pub open spec fn mul_field(factor: int) -> u8 {
    if factor > 16 {
        ((factor - 17) % 256) as u8
    } else {
        ((factor - 1) % 256) as u8
    }
}

/// The configuration register after the PLL was set up: every field at its
/// reset value but the four that describe the PLL.
#[verifier::opaque]
pub open spec fn pll_cfg(pllsrcclk: int, use_hse: bool, target: int) -> RccCfg {
    RccCfg {
        pllmulfct_h: multiplier(pllsrcclk, use_hse, target) > 16,
        pllmulfct: mul_field(multiplier(pllsrcclk, use_hse, target)),
        pllhsepres: use_hse && prescaler(pllsrcclk, use_hse, target) == 2,
        pllsrc: use_hse,
        ..RccCfg::spec_reset_value()
    }
}

/// With a divisor that is not zero, the residual is a remainder: it is not
/// negative and it is less than the input frequency.
pub proof fn lemma_residual_bounds(pllsrcclk: int, presc: int, target: int)
    requires
        vco_in(pllsrcclk, presc) > 0,
        target >= 0,
    ensures
        0 <= residual(pllsrcclk, presc, target) < vco_in(pllsrcclk, presc),
        residual(pllsrcclk, presc, target) == target % vco_in(pllsrcclk, presc),
        0 <= multiplier_for(pllsrcclk, presc, target),
        0 <= vco_in(pllsrcclk, presc) * multiplier_for(pllsrcclk, presc, target) <= target,
{
    let v = vco_in(pllsrcclk, presc);
    lemma_fundamental_div_mod(target, v);
    lemma_mod_bound(target, v);
    lemma_div_pos_is_pos(target, v);
}

/// The PLL's output for a solvable source and target: it does not exceed the
/// target, it misses it by less than one input period, no candidate
/// prescaler would have come closer, and it is the product of the input
/// frequency and the factor.
pub proof fn lemma_output_closest(pllsrcclk: int, use_hse: bool, target: int)
    requires
        solvable(pllsrcclk, use_hse, target),
    ensures
        prescaler(pllsrcclk, use_hse, target) == 1 || prescaler(pllsrcclk, use_hse, target) == 2,
        !use_hse ==> prescaler(pllsrcclk, use_hse, target) == 2,
        output(pllsrcclk, use_hse, target) <= target,
        target - output(pllsrcclk, use_hse, target) < vco_in(
            pllsrcclk,
            prescaler(pllsrcclk, use_hse, target),
        ),
        target - output(pllsrcclk, use_hse, target) == residual(
            pllsrcclk,
            prescaler(pllsrcclk, use_hse, target),
            target,
        ),
        use_hse ==> target - output(pllsrcclk, use_hse, target) <= residual(pllsrcclk, 1, target),
        use_hse ==> target - output(pllsrcclk, use_hse, target) <= residual(pllsrcclk, 2, target),
        output(pllsrcclk, use_hse, target) >= vco_in(
            pllsrcclk,
            prescaler(pllsrcclk, use_hse, target),
        ) > 0,
{
    let p = prescaler(pllsrcclk, use_hse, target);
    let v = vco_in(pllsrcclk, p);
    let m = multiplier(pllsrcclk, use_hse, target);
    assert(pllsrcclk / 1 == pllsrcclk);
    assert(pllsrcclk / 2 >= 1);
    assert(v > 0);
    lemma_residual_bounds(pllsrcclk, p, target);
    assert(v * m >= v) by (nonlinear_arith)
        requires
            v > 0,
            m >= 1,
    ;
}

/// Where the target is a whole multiple of the undivided source, the PLL
/// delivers exactly the target.
pub proof fn lemma_output_exact(pllsrcclk: int, target: int, factor: int)
    requires
        pllsrcclk >= 2,
        factor >= 1,
        target == pllsrcclk * factor,
    ensures
        solvable(pllsrcclk, true, target),
        prescaler(pllsrcclk, true, target) == 1,
        multiplier(pllsrcclk, true, target) == factor,
        output(pllsrcclk, true, target) == target,
{
    assert(pllsrcclk / 1 == pllsrcclk);
    assert(pllsrcclk / 2 >= 1);
    assert(target >= 0) by (nonlinear_arith)
        requires
            pllsrcclk >= 2,
            factor >= 1,
            target == pllsrcclk * factor,
    ;
    vstd::arithmetic::div_mod::lemma_div_multiples_vanish(factor, pllsrcclk);
    assert(target / pllsrcclk == factor);
    assert(residual(pllsrcclk, 1, target) == 0);
    lemma_residual_bounds(pllsrcclk, 2, target);
}

/// Result of setting up the main PLL.
#[derive(Clone, Copy, PartialEq, Eq, Structural, Debug)]
pub struct MainPll {
    /// Whether the PLL is to drive the system clock
    pub use_pll: bool,
    /// The frequency that the PLL delivers, if it is used
    pub pllsysclk: Option<u32>,
}

/// Whether a prescaler and a factor of at least 1 exist for a source and a
/// target.
pub fn is_solvable(pllsrcclk: u32, use_hse: bool, target: u32) -> (ok: bool)
    ensures
        ok == solvable(pllsrcclk as int, use_hse, target as int),
{
    if pllsrcclk < 2 {
        return false;
    }
    let presc: u32 = choose_prescaler(pllsrcclk, use_hse, target);
    target / (pllsrcclk / presc) >= 1
}

/// Chooses the prescaler for a source and a target.
pub fn choose_prescaler(pllsrcclk: u32, use_hse: bool, target: u32) -> (presc: u32)
    requires
        pllsrcclk >= 2,
    ensures
        presc == prescaler(pllsrcclk as int, use_hse, target as int),
        presc == 1 || presc == 2,
        pllsrcclk / presc > 0,
{
    if use_hse {
        let undivided: u32 = residual_with(pllsrcclk, 1, target);
        let halved: u32 = residual_with(pllsrcclk, 2, target);
        if undivided <= halved {
            1
        } else {
            2
        }
    } else {
        2
    }
}

/// How far under `target` the PLL stays with the prescaler `presc`.
pub fn residual_with(pllsrcclk: u32, presc: u32, target: u32) -> (r: u32)
    requires
        presc > 0,
        pllsrcclk / presc > 0,
    ensures
        r == residual(pllsrcclk as int, presc as int, target as int),
{
    proof {
        lemma_residual_bounds(pllsrcclk as int, presc as int, target as int);
    }
    let vco_in: u32 = pllsrcclk / presc;
    let plln: u32 = target / vco_in;
    target - vco_in * plln
}

impl MainPll {
    /// Chooses prescaler and multiplier for the target frequency
    /// `pllsysclk` and writes them to the clock configuration register.
    ///
    /// Without a target the PLL is not used and no register changes. With
    /// one, the configuration register is written as a whole: its other
    /// fields return to their reset values.
    pub fn fast_setup(
        pllsrcclk: u32,
        use_hse: bool,
        pllsysclk: Option<u32>,
        rcc: &mut Rcc,
    ) -> (pll: MainPll)
        requires
            pllsysclk matches Some(target) ==> solvable(pllsrcclk as int, use_hse, target as int),
        ensures
            pllsysclk is None ==> pll == (MainPll { use_pll: false, pllsysclk: None })
                && *final(rcc) == *old(rcc),
            pllsysclk matches Some(target) ==> ({
                &&& pll.use_pll
                &&& pll.pllsysclk matches Some(achieved)
                &&& achieved == output(pllsrcclk as int, use_hse, target as int)
                &&& *final(rcc) == (Rcc {
                    cfg: pll_cfg(pllsrcclk as int, use_hse, target as int),
                    ..*old(rcc)
                })
            }),
    {
        let target_freq: u32 = match pllsysclk {
            None => {
                return MainPll { use_pll: false, pllsysclk: None };
            },
            Some(target) => target,
        };
        let pll_presc: u32 = choose_prescaler(pllsrcclk, use_hse, target_freq);
        proof {
            reveal(pll_cfg);
            lemma_residual_bounds(pllsrcclk as int, pll_presc as int, target_freq as int);
        }
        let vco_in: u32 = pllsrcclk / pll_presc;
        let pll_mul: u32 = target_freq / vco_in;
        let (pllmulfct_h, pllmulfct): (bool, u32) = if pll_mul > 16 {
            (true, pll_mul - 17)
        } else {
            (false, pll_mul - 1)
        };
        rcc.cfg = RccCfg {
            pllmulfct_h,
            pllmulfct: (pllmulfct % 256) as u8,
            pllhsepres: use_hse && pll_presc == 2,
            pllsrc: use_hse,
            ..RccCfg::reset_value()
        };
        let real_pllsysclk: u32 = vco_in * pll_mul;
        MainPll { use_pll: true, pllsysclk: Some(real_pllsysclk) }
    }

    /// The factor by which the PLL multiplies its input for a source and a
    /// target.
    pub fn factor(pllsrcclk: u32, use_hse: bool, target: u32) -> (factor: u32)
        requires
            pllsrcclk >= 2,
        ensures
            factor == multiplier(pllsrcclk as int, use_hse, target as int),
    {
        let presc: u32 = choose_prescaler(pllsrcclk, use_hse, target);
        target / (pllsrcclk / presc)
    }
}

} // verus!
