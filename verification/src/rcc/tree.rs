//! The clock tree: which frequencies and register fields follow from a
//! request.
//!
//! ```text
//! HSI or HSE --+--------------------> sysclk --AHB prescaler--> hclk --+--APB1 prescaler--> pclk1
//!              +--prescaler--PLL--/                                    +--APB2 prescaler--> pclk2
//! ```

use vstd::prelude::*;
use crate::pac::Ahbpres;
use crate::pac::Apb1pres;
use crate::pac::Flash;
use crate::pac::FlashAc;
use crate::pac::Rcc;
use crate::pac::RccCfg;
use crate::pac::RccCfg2;
use crate::pac::RccCfg3;
use crate::pac::RccCtrl;
use crate::pac::Sclksw;
use crate::rcc::pll;
use crate::rcc::Clocks;
use crate::rcc::FLASH_LATENCY_STEP;
use crate::rcc::HSI;
use crate::rcc::PCLK1_MAX;
use crate::rcc::PCLK2_MAX;
use crate::rcc::SYSCLK_MAX;
use crate::rcc::SYSCLK_MIN;

verus! {

/// The AHB prescaler for a system clock and a requested AHB clock: the
/// smallest divider that brings the system clock down to the request. Where
/// even the largest leaves it above the request, the largest is taken. The
/// hardware has no divider 32.
pub open spec fn ahb_least(sysclk: int, request: int) -> Ahbpres {
    if sysclk <= request {
        Ahbpres::Div1
    } else if sysclk / 2 <= request {
        Ahbpres::Div2
    } else if sysclk / 4 <= request {
        Ahbpres::Div4
    } else if sysclk / 8 <= request {
        Ahbpres::Div8
    } else if sysclk / 16 <= request {
        Ahbpres::Div16
    } else if sysclk / 64 <= request {
        Ahbpres::Div64
    } else if sysclk / 128 <= request {
        Ahbpres::Div128
    } else if sysclk / 256 <= request {
        Ahbpres::Div256
    } else {
        Ahbpres::Div512
    }
}

/// The APB prescaler for an AHB clock and a requested APB clock: the
/// smallest divider that brings the AHB clock down to the request. Where
/// even the largest leaves it above the request, the largest is taken.
pub open spec fn apb_least(hclk: int, request: int) -> Apb1pres {
    if hclk <= request {
        Apb1pres::Div1
    } else if hclk / 2 <= request {
        Apb1pres::Div2
    } else if hclk / 4 <= request {
        Apb1pres::Div4
    } else if hclk / 8 <= request {
        Apb1pres::Div8
    } else {
        Apb1pres::Div16
    }
}

/// The USB prescaler field for an AHB clock: the divider that yields 48 MHz
/// where one exists.
pub open spec fn usb_prescaler_bits(hclk: int) -> u8 {
    if hclk == 144_000_000 {
        3
    } else if hclk == 96_000_000 {
        2
    } else if hclk == 48_000_000 {
        1
    } else if hclk == 72_000_000 {
        0
    } else {
        3
    }
}

/// Source and prescaler field of the random number generator's 1 MHz clock
/// for an external oscillator: the oscillator where it is a whole even number
/// of MHz up to 32, with the field one less than that number.
pub open spec fn trng_1m(hse: Option<u32>) -> (bool, u8) {
    match hse {
        Some(f) => if f % 2_000_000 == 0 && 2_000_000 <= f <= 32_000_000 {
            (true, (f / 1_000_000 - 1) as u8)
        } else {
            (false, 6)
        },
        None => (false, 6),
    }
}

/// Source and prescaler field of the ADC's 1 MHz clock: the external
/// oscillator where there is one of at most 32 MHz, else the internal one.
pub open spec fn adc_1m(hse: Option<u32>) -> (bool, u8) {
    match hse {
        Some(f) => if f > 32_000_000 {
            (false, (HSI / 1_000_000 - 1) as u8)
        } else {
            (true, (f / 1_000_000 - 1) as u8)
        },
        None => (false, (HSI / 1_000_000 - 1) as u8),
    }
}

/// Flash wait states for a system clock: one for each started 24 MHz beyond
/// the first.
pub open spec fn flash_wait_states(sysclk: int) -> int {
    (sysclk - 1) / (FLASH_LATENCY_STEP as int)
}

/// A requested frequency, or `default` where nothing was asked for.
pub open spec fn request_or(request: Option<u32>, default: int) -> int {
    match request {
        Some(f) => f as int,
        None => default,
    }
}

/// The AHB prescaler for a system clock and a request for the AHB clock;
/// without a request the AHB clock is to be the system clock.
pub open spec fn ahb_prescaler_of(sysclk: int, request: Option<u32>) -> Ahbpres {
    ahb_least(sysclk, request_or(request, sysclk))
}

/// The AHB clock that results from a system clock and a request.
pub open spec fn ahb_divided(sysclk: int, request: Option<u32>) -> int {
    sysclk / (ahb_prescaler_of(sysclk, request).spec_divisor() as int)
}

/// Whether the AHB clock can be derived: neither the system clock nor the
/// request is zero.
pub open spec fn ahb_computable(sysclk: int, request: Option<u32>) -> bool {
    &&& sysclk >= 1
    &&& request_or(request, sysclk) >= 1
}

/// The request for an APB clock where nothing was asked for: the AHB clock,
/// or the bus's maximum if that is less.
pub open spec fn apb_default(hclk: int, max: int) -> int {
    if hclk < max {
        hclk
    } else {
        max
    }
}

/// The APB prescaler for an AHB clock, a request and the bus's maximum.
pub open spec fn apb_prescaler_of(hclk: int, request: Option<u32>, max: int) -> Apb1pres {
    apb_least(hclk, request_or(request, apb_default(hclk, max)))
}

/// The APB clock that results from an AHB clock, a request and the bus's
/// maximum.
pub open spec fn apb_divided(hclk: int, request: Option<u32>, max: int) -> int {
    hclk / (apb_prescaler_of(hclk, request, max).spec_divisor() as int)
}

/// Whether an APB clock can be derived: the request is not zero.
pub open spec fn apb_computable(hclk: int, request: Option<u32>, max: int) -> bool {
    request_or(request, apb_default(hclk, max)) >= 1
}

/// The requested clock configuration: each frequency in Hz, or none where
/// nothing was asked for.
pub struct ClockRequest {
    /// Frequency of the external oscillator; without one the internal
    /// oscillator is the source
    pub hse: Option<u32>,
    /// The external clock is fed in directly
    pub hse_bypass: bool,
    /// AHB clock
    pub hclk: Option<u32>,
    /// APB1 clock
    pub pclk1: Option<u32>,
    /// APB2 clock
    pub pclk2: Option<u32>,
    /// System clock
    pub sysclk: Option<u32>,
}

impl ClockRequest {
    /// The request that asks for nothing.
    pub open spec fn none() -> ClockRequest {
        ClockRequest {
            hse: None,
            hse_bypass: false,
            hclk: None,
            pclk1: None,
            pclk2: None,
            sysclk: None,
        }
    }

    /// Frequency of the oscillator in use.
    pub open spec fn pll_source(self) -> int {
        match self.hse {
            Some(f) => f as int,
            None => HSI as int,
        }
    }

    /// The system clock aimed at: the one asked for, else that of the
    /// oscillator.
    pub open spec fn target(self) -> int {
        match self.sysclk {
            Some(f) => f as int,
            None => self.pll_source(),
        }
    }

    /// Whether the PLL has to drive the system clock.
    pub open spec fn on_pll(self) -> bool {
        self.target() != self.pll_source()
    }

    /// The system clock that results.
    pub open spec fn sysclk(self) -> int {
        if self.on_pll() {
            pll::output(self.pll_source(), self.hse is Some, self.target())
        } else {
            self.target()
        }
    }

    /// The AHB prescaler that results.
    pub open spec fn ahb_prescaler(self) -> Ahbpres {
        ahb_prescaler_of(self.sysclk(), self.hclk)
    }

    /// The AHB clock that results.
    pub open spec fn hclk(self) -> int {
        ahb_divided(self.sysclk(), self.hclk)
    }

    /// The APB1 prescaler that results.
    pub open spec fn apb1_prescaler(self) -> Apb1pres {
        apb_prescaler_of(self.hclk(), self.pclk1, PCLK1_MAX as int)
    }

    /// The APB1 clock that results.
    pub open spec fn pclk1(self) -> int {
        apb_divided(self.hclk(), self.pclk1, PCLK1_MAX as int)
    }

    /// The APB2 prescaler that results.
    pub open spec fn apb2_prescaler(self) -> Apb1pres {
        apb_prescaler_of(self.hclk(), self.pclk2, PCLK2_MAX as int)
    }

    /// The APB2 clock that results.
    pub open spec fn pclk2(self) -> int {
        apb_divided(self.hclk(), self.pclk2, PCLK2_MAX as int)
    }

    /// The system clock source that results.
    pub open spec fn source(self) -> Sclksw {
        if self.on_pll() {
            Sclksw::Pll
        } else if self.hse is Some {
            Sclksw::Hse
        } else {
            Sclksw::Hsi
        }
    }

    /// Requests from which every step of the derivation can be computed:
    /// the PLL has a solution where it is needed, neither the system clock
    /// nor a request for a bus clock is zero, and an external oscillator of
    /// up to 32 MHz has at least 1 MHz.
    pub open spec fn computable(self) -> bool {
        &&& self.on_pll() ==> pll::solvable(self.pll_source(), self.hse is Some, self.target())
        &&& ahb_computable(self.sysclk(), self.hclk)
        &&& apb_computable(self.hclk(), self.pclk1, PCLK1_MAX as int)
        &&& apb_computable(self.hclk(), self.pclk2, PCLK2_MAX as int)
        &&& self.hse matches Some(f) ==> f > 32_000_000 || f >= 1_000_000
    }

    /// Requests that lead to clocks within the device's limits: the system
    /// clock within its range, each APB clock at most its maximum, and the
    /// PLL factor, where the PLL is used, one that the hardware can hold.
    pub open spec fn valid(self) -> bool {
        &&& self.computable()
        &&& SYSCLK_MIN <= self.sysclk() <= SYSCLK_MAX
        &&& self.pclk1() <= PCLK1_MAX
        &&& self.pclk2() <= PCLK2_MAX
        &&& self.on_pll() ==> pll::in_range(self.pll_source(), self.hse is Some, self.target())
    }

    /// The frequencies that result.
    pub open spec fn clocks(self) -> Clocks {
        Clocks {
            hclk: self.hclk() as u32,
            pclk1: self.pclk1() as u32,
            pclk2: self.pclk2() as u32,
            sysclk: self.sysclk() as u32,
        }
    }

    /// The clock control block once the request is committed.
    ///
    /// Where the PLL is used the configuration register starts from its
    /// reset value with the PLL's fields set. The oscillator and the PLL are
    /// switched on as far as they are needed, never off. The ready flags,
    /// the bus gates and the reset registers stay.
    pub open spec fn committed(self, rcc: Rcc) -> Rcc {
        let base = if self.on_pll() {
            pll::pll_cfg(self.pll_source(), self.hse is Some, self.target())
        } else {
            rcc.cfg
        };
        Rcc {
            ctrl: RccCtrl {
                hseen: rcc.ctrl.hseen || self.hse is Some,
                hsebp: rcc.ctrl.hsebp || (self.hse is Some && self.hse_bypass),
                pllen: rcc.ctrl.pllen || self.on_pll(),
                ..rcc.ctrl
            },
            cfg: RccCfg {
                sclksw: self.source(),
                ahbpres: self.ahb_prescaler(),
                apb1pres: self.apb1_prescaler(),
                apb2pres: self.apb2_prescaler(),
                usbpres: usb_prescaler_bits(self.hclk()),
                ..base
            },
            cfg2: RccCfg2 {
                adc1msel: adc_1m(self.hse).0,
                adc1mpres: adc_1m(self.hse).1,
                adchpres: 1,
                adcpllpres: 17,
            },
            cfg3: RccCfg3 { trng1msel: trng_1m(self.hse).0, trng1mpres: trng_1m(self.hse).1 },
            ..rcc
        }
    }

    /// The flash controller once the request is committed: wait states for
    /// the system clock, prefetch buffer and instruction cache on.
    pub open spec fn flash_committed(self, flash: Flash) -> Flash {
        Flash {
            ac: FlashAc {
                latency: flash_wait_states(self.sysclk()) as u8,
                prftbfe: true,
                icahen: true,
            },
        }
    }
}

/// The AHB prescaler picked for a system clock and a request is the least
/// that serves the request.
///
/// Its factor is one that the hardware has. No prescaler with a smaller
/// factor brings the system clock down to the request, and the one picked
/// does so wherever the largest does.
pub proof fn lemma_ahb_least(sysclk: int, request: int)
    ensures
        ({
            let d = ahb_least(sysclk, request).spec_divisor() as int;
            &&& d == 1 || d == 2 || d == 4 || d == 8 || d == 16 || d == 64 || d == 128 || d == 256
                || d == 512
            &&& sysclk / 512 <= request ==> sysclk / d <= request
            &&& forall|other: Ahbpres| #[trigger]
                other.spec_divisor() < d ==> sysclk / (other.spec_divisor() as int) > request
        }),
{
}

/// A prescaler that brings the system clock down to the request, while no
/// prescaler with a smaller factor does, is the one picked.
pub proof fn lemma_ahb_least_unique(sysclk: int, request: int, pres: Ahbpres)
    requires
        sysclk / (pres.spec_divisor() as int) <= request,
        forall|other: Ahbpres| #[trigger]
            other.spec_divisor() < pres.spec_divisor() ==> sysclk / (other.spec_divisor() as int)
                > request,
    ensures
        ahb_least(sysclk, request) == pres,
{
    assert(Ahbpres::Div1.spec_divisor() == 1);
    assert(Ahbpres::Div2.spec_divisor() == 2);
    assert(Ahbpres::Div4.spec_divisor() == 4);
    assert(Ahbpres::Div8.spec_divisor() == 8);
    assert(Ahbpres::Div16.spec_divisor() == 16);
    assert(Ahbpres::Div64.spec_divisor() == 64);
    assert(Ahbpres::Div128.spec_divisor() == 128);
    assert(Ahbpres::Div256.spec_divisor() == 256);
}

/// The APB prescaler picked for an AHB clock and a request is the least that
/// serves the request.
///
/// Its factor is 1, 2, 4, 8 or 16. No prescaler with a smaller factor brings
/// the AHB clock down to the request, and the one picked does so wherever
/// the largest does.
pub proof fn lemma_apb_least(hclk: int, request: int)
    ensures
        ({
            let d = apb_least(hclk, request).spec_divisor() as int;
            &&& d == 1 || d == 2 || d == 4 || d == 8 || d == 16
            &&& hclk / 16 <= request ==> hclk / d <= request
            &&& forall|other: Apb1pres| #[trigger]
                other.spec_divisor() < d ==> hclk / (other.spec_divisor() as int) > request
        }),
{
}

/// A prescaler that brings the AHB clock down to the request, while no
/// prescaler with a smaller factor does, is the one picked.
pub proof fn lemma_apb_least_unique(hclk: int, request: int, pres: Apb1pres)
    requires
        hclk / (pres.spec_divisor() as int) <= request,
        forall|other: Apb1pres| #[trigger]
            other.spec_divisor() < pres.spec_divisor() ==> hclk / (other.spec_divisor() as int)
                > request,
    ensures
        apb_least(hclk, request) == pres,
{
    assert(Apb1pres::Div1.spec_divisor() == 1);
    assert(Apb1pres::Div2.spec_divisor() == 2);
    assert(Apb1pres::Div4.spec_divisor() == 4);
    assert(Apb1pres::Div8.spec_divisor() == 8);
}

/// A request for an APB clock above the bus's maximum that still leads to a
/// clock within the maximum is served as a request for the maximum would
/// be.
pub proof fn lemma_apb_as_clamped(hclk: int, request: int, max: int)
    requires
        request > max,
        hclk / (apb_least(hclk, request).spec_divisor() as int) <= max,
    ensures
        apb_least(hclk, request) == apb_least(hclk, max),
{
}

/// The system clock that a valid request leads to.
///
/// Without the PLL it is the oscillator's frequency. With the PLL it is the
/// product of the PLL's input frequency and a whole factor from 1 to 32; it
/// does not exceed the requested frequency, it misses it by less than one
/// input period, and with an external oscillator no other prescaler would
/// have come closer. Either way it lies within the device's range.
pub proof fn lemma_sysclk_closest(request: ClockRequest)
    requires
        request.valid(),
    ensures
        SYSCLK_MIN <= request.sysclk() <= SYSCLK_MAX,
        !request.on_pll() ==> request.sysclk() == request.pll_source(),
        request.on_pll() ==> ({
            let source = request.pll_source();
            let target = request.target();
            let use_hse = request.hse is Some;
            let presc = pll::prescaler(source, use_hse, target);
            let factor = pll::multiplier(source, use_hse, target);
            &&& presc == 1 || presc == 2
            &&& !use_hse ==> presc == 2
            &&& 1 <= factor <= pll::PLL_MUL_MAX
            &&& request.sysclk() == pll::vco_in(source, presc) * factor
            &&& request.sysclk() <= target
            &&& target - request.sysclk() < pll::vco_in(source, presc)
            &&& use_hse ==> target - request.sysclk() <= pll::residual(source, 1, target)
            &&& use_hse ==> target - request.sysclk() <= pll::residual(source, 2, target)
        }),
{
    if request.on_pll() {
        pll::lemma_output_closest(request.pll_source(), request.hse is Some, request.target());
    }
}

/// The AHB clock that a computable request leads to: the system clock
/// divided by one of the factors that the AHB prescaler has, and so at most
/// the system clock. It is never zero.
///
/// Without a request for it, it is the system clock. With one, the factor is
/// the least that brings the system clock down to the request: no smaller
/// one does, and the one picked does wherever the largest, 512, does.
pub proof fn lemma_hclk_divides(request: ClockRequest)
    requires
        request.computable(),
    ensures
        ({
            let d = request.ahb_prescaler().spec_divisor();
            &&& d == 1 || d == 2 || d == 4 || d == 8 || d == 16 || d == 64 || d == 128 || d == 256
                || d == 512
            &&& request.hclk() == request.sysclk() / (d as int)
            &&& request.clocks().hclk == request.hclk()
            &&& request.clocks().sysclk == request.sysclk()
            &&& request.hclk is None ==> d == 1 && request.hclk() == request.sysclk()
            &&& request.hclk matches Some(wanted) ==> {
                &&& request.sysclk() / 512 <= wanted ==> request.hclk() <= wanted
                &&& forall|other: Ahbpres| #[trigger]
                    other.spec_divisor() < d ==> request.sysclk() / (other.spec_divisor() as int)
                        > wanted
            }
        }),
        1 <= request.hclk() <= request.sysclk(),
{
    lemma_ahb_least(request.sysclk(), request_or(request.hclk, request.sysclk()));
    assert(HSI == 16_000_000);
    if request.on_pll() {
        pll::lemma_output_closest(request.pll_source(), request.hse is Some, request.target());
    }
    assert(request.sysclk() >= 500_000);
}

/// The APB clocks that a computable request leads to: each is the AHB clock
/// divided by 1, 2, 4, 8 or 16.
///
/// With a request for a bus, the factor is the least that brings the AHB
/// clock down to the request: no smaller one does, and the one picked does
/// wherever the largest, 16, does. A request above the bus's maximum is
/// served as a request for the maximum would be, where the result is within
/// the maximum at all.
///
/// A valid request keeps each at or below its bus's maximum. Where nothing
/// was asked for a bus and the AHB clock is at most the greatest system
/// clock, that bus also stays at or below its maximum.
pub proof fn lemma_pclk_divides(request: ClockRequest)
    requires
        request.computable(),
    ensures
        ({
            let d1 = request.apb1_prescaler().spec_divisor();
            let d2 = request.apb2_prescaler().spec_divisor();
            &&& d1 == 1 || d1 == 2 || d1 == 4 || d1 == 8 || d1 == 16
            &&& d2 == 1 || d2 == 2 || d2 == 4 || d2 == 8 || d2 == 16
            &&& request.pclk1() == request.hclk() / (d1 as int)
            &&& request.pclk2() == request.hclk() / (d2 as int)
            &&& request.clocks().pclk1 == request.pclk1()
            &&& request.clocks().pclk2 == request.pclk2()
            &&& request.pclk1 matches Some(wanted) ==> {
                &&& request.hclk() / 16 <= wanted ==> request.pclk1() <= wanted
                &&& forall|other: Apb1pres| #[trigger]
                    other.spec_divisor() < d1 ==> request.hclk() / (other.spec_divisor() as int)
                        > wanted
                &&& wanted > PCLK1_MAX && request.pclk1() <= PCLK1_MAX
                    ==> request.apb1_prescaler() == apb_least(request.hclk(), PCLK1_MAX as int)
            }
            &&& request.pclk2 matches Some(wanted) ==> {
                &&& request.hclk() / 16 <= wanted ==> request.pclk2() <= wanted
                &&& forall|other: Apb1pres| #[trigger]
                    other.spec_divisor() < d2 ==> request.hclk() / (other.spec_divisor() as int)
                        > wanted
                &&& wanted > PCLK2_MAX && request.pclk2() <= PCLK2_MAX
                    ==> request.apb2_prescaler() == apb_least(request.hclk(), PCLK2_MAX as int)
            }
        }),
        0 <= request.pclk1() <= request.hclk(),
        0 <= request.pclk2() <= request.hclk(),
        request.valid() ==> request.pclk1() <= PCLK1_MAX && request.pclk2() <= PCLK2_MAX,
        request.pclk1 is None && request.hclk() <= SYSCLK_MAX ==> request.pclk1() <= PCLK1_MAX,
        request.pclk2 is None && request.hclk() <= SYSCLK_MAX ==> request.pclk2() <= PCLK2_MAX,
{
    lemma_hclk_divides(request);
    let hclk = request.hclk();
    lemma_apb_least(hclk, request_or(request.pclk1, apb_default(hclk, PCLK1_MAX as int)));
    lemma_apb_least(hclk, request_or(request.pclk2, apb_default(hclk, PCLK2_MAX as int)));
    if hclk <= SYSCLK_MAX {
        lemma_default_clamped(hclk);
    }
}

/// With an AHB clock of at most the greatest system clock, the prescaler
/// picked where nothing was asked for keeps each APB clock at or below its
/// maximum.
pub proof fn lemma_default_clamped(hclk: int)
    requires
        0 <= hclk <= SYSCLK_MAX,
    ensures
        apb_divided(hclk, None, PCLK1_MAX as int) <= PCLK1_MAX,
        apb_divided(hclk, None, PCLK2_MAX as int) <= PCLK2_MAX,
{
    assert(PCLK1_MAX == 36_000_000);
    assert(PCLK2_MAX == 72_000_000);
    assert(SYSCLK_MAX == 144_000_000);
    assert(hclk / 16 <= 36_000_000);
    lemma_apb_least(hclk, apb_default(hclk, PCLK1_MAX as int));
    lemma_apb_least(hclk, apb_default(hclk, PCLK2_MAX as int));
}

/// Picks the AHB prescaler for a system clock and a requested AHB clock.
pub fn ahb_prescaler_for(sysclk: u32, hclk: u32) -> (pres: Ahbpres)
    ensures
        pres == ahb_least(sysclk as int, hclk as int),
{
    if sysclk <= hclk {
        Ahbpres::Div1
    } else if sysclk / 2 <= hclk {
        Ahbpres::Div2
    } else if sysclk / 4 <= hclk {
        Ahbpres::Div4
    } else if sysclk / 8 <= hclk {
        Ahbpres::Div8
    } else if sysclk / 16 <= hclk {
        Ahbpres::Div16
    } else if sysclk / 64 <= hclk {
        Ahbpres::Div64
    } else if sysclk / 128 <= hclk {
        Ahbpres::Div128
    } else if sysclk / 256 <= hclk {
        Ahbpres::Div256
    } else {
        Ahbpres::Div512
    }
}

/// Picks the APB prescaler for an AHB clock and a requested APB clock.
pub fn apb_prescaler_for(hclk: u32, pclk: u32) -> (pres: Apb1pres)
    ensures
        pres == apb_least(hclk as int, pclk as int),
{
    if hclk <= pclk {
        Apb1pres::Div1
    } else if hclk / 2 <= pclk {
        Apb1pres::Div2
    } else if hclk / 4 <= pclk {
        Apb1pres::Div4
    } else if hclk / 8 <= pclk {
        Apb1pres::Div8
    } else {
        Apb1pres::Div16
    }
}

/// The USB prescaler field for an AHB clock.
pub fn usb_prescaler(hclk: u32) -> (bits: u8)
    ensures
        bits == usb_prescaler_bits(hclk as int),
{
    if hclk == 144_000_000 {
        3
    } else if hclk == 96_000_000 {
        2
    } else if hclk == 48_000_000 {
        1
    } else if hclk == 72_000_000 {
        0
    } else {
        3
    }
}

/// Source and prescaler field of the random number generator's 1 MHz clock.
pub fn trng_1m_setup(hse: Option<u32>) -> (setup: (bool, u8))
    ensures
        setup == trng_1m(hse),
{
    match hse {
        Some(f) => {
            if f % 2_000_000 == 0 && 2_000_000 <= f && f <= 32_000_000 {
                (true, (f / 1_000_000 - 1) as u8)
            } else {
                (false, 6)
            }
        },
        None => (false, 6),
    }
}

/// Source and prescaler field of the ADC's 1 MHz clock.
pub fn adc_1m_setup(hse: Option<u32>) -> (setup: (bool, u8))
    requires
        hse matches Some(f) ==> f > 32_000_000 || f >= 1_000_000,
    ensures
        setup == adc_1m(hse),
{
    match hse {
        Some(f) => {
            if f > 32_000_000 {
                (false, (HSI / 1_000_000 - 1) as u8)
            } else {
                (true, (f / 1_000_000 - 1) as u8)
            }
        },
        None => (false, (HSI / 1_000_000 - 1) as u8),
    }
}

/// Derives the AHB prescaler and the AHB clock from the system clock and
/// the request, or `None` where they cannot be computed.
pub fn ahb_stage(sysclk: u32, request: Option<u32>) -> (stage: Option<(Ahbpres, u32)>)
    ensures
        stage is Some <==> ahb_computable(sysclk as int, request),
        stage matches Some((pres, hclk)) ==> pres == ahb_prescaler_of(sysclk as int, request)
            && hclk == ahb_divided(sysclk as int, request),
{
    let wanted: u32 = match request {
        Some(f) => f,
        None => sysclk,
    };
    if sysclk < 1 || wanted < 1 {
        return None;
    }
    let pres = ahb_prescaler_for(sysclk, wanted);
    Some((pres, sysclk / pres.divisor()))
}

/// Derives an APB prescaler and the APB clock from the AHB clock, the
/// request and the bus's maximum, or `None` where they cannot be computed.
pub fn apb_stage(hclk: u32, request: Option<u32>, max: u32) -> (stage: Option<(Apb1pres, u32)>)
    ensures
        stage is Some <==> apb_computable(hclk as int, request, max as int),
        stage matches Some((pres, pclk)) ==> pres == apb_prescaler_of(
            hclk as int,
            request,
            max as int,
        ) && pclk == apb_divided(hclk as int, request, max as int),
{
    let wanted: u32 = match request {
        Some(f) => f,
        None => if hclk < max {
            hclk
        } else {
            max
        },
    };
    if wanted < 1 {
        return None;
    }
    let pres = apb_prescaler_for(hclk, wanted);
    Some((pres, hclk / pres.divisor()))
}

/// Flash wait states for a system clock.
pub fn flash_latency(sysclk: u32) -> (wait_states: u8)
    requires
        sysclk >= 1,
    ensures
        wait_states == flash_wait_states(sysclk as int),
{
    ((sysclk - 1) / FLASH_LATENCY_STEP) as u8
}

} // verus!
