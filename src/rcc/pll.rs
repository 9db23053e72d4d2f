//! Phase locked loop configuration.
use vstd::prelude::*;

verus! {

/// Fixed-point scale of the fractional part of the feedback divider (2^13).
pub const FRACN_DIVISOR: u32 = 8192;

/// Largest value of the fractional part of the feedback divider.
pub const FRACN_MAX: u32 = 8191;

/// Strategies for configuring a Phase Locked Loop (PLL)
#[derive(Copy, Clone, Debug, PartialEq, Eq, Structural)]
pub enum PllConfigStrategy {
    /// VCOL, highest PFD frequency, highest VCO frequency
    Normal,
    /// VCOH, choose PFD frequency for accuracy, highest VCO frequency
    Iterative,
    /// VCOH, choose PFD frequency for accuracy, highest VCO frequency.
    /// Uses fractional mode to precisely set the P clock
    Fractional,
    /// VCOH, choose PFD frequency for accuracy, highest VCO frequency.
    /// Uses fractional mode to precisely set the P clock not less than
    /// the target frequency
    FractionalNotLess,
}

/// Configuration of a Phase Locked Loop (PLL)
#[derive(Copy, Clone, Debug, PartialEq, Eq, Structural)]
pub struct PllConfig {
    pub strategy: PllConfigStrategy,
    pub p_ck: Option<u32>,
    pub q_ck: Option<u32>,
    pub r_ck: Option<u32>,
}

impl Default for PllConfig {
    /// No outputs requested, Normal strategy.
    fn default() -> (r: PllConfig)
        ensures
            r == (PllConfig {
                strategy: PllConfigStrategy::Normal,
                p_ck: None,
                q_ck: None,
                r_ck: None,
            }),
    {
        PllConfig { strategy: PllConfigStrategy::Normal, p_ck: None, q_ck: None, r_ck: None }
    }
}

/// Absolute value.
pub open spec fn abs(x: int) -> int {
    if x < 0 { -x } else { x }
}

/// Divider `d` puts the output `vco / d` at least as close to `target` as
/// divider `k` does (exact division, compared crosswise).
pub open spec fn div_no_worse(vco: int, target: int, d: int, k: int) -> bool {
    abs(vco - target * d) * k <= abs(vco - target * k) * d
}

/// The divider in 1..=128 whose output is closest to the target; of two
/// equally close, the lower. Only the dividers around `vco / target` can be
/// closest.
pub open spec fn closest_div(vco: int, target: int) -> int {
    let f = vco / target;
    if f < 1 {
        1
    } else if f >= PLL_DIV_MAX {
        PLL_DIV_MAX as int
    } else if (vco - target * f) * (f + 1) <= (target * (f + 1) - vco) * f {
        f
    } else {
        f + 1
    }
}

/// The divider whose output is closest to the target without going over it
/// (Fractional) or without falling under it (FractionalNotLess), with no
/// bound on its range.
pub open spec fn one_sided_spec(s: PllConfigStrategy, vco_ck: int, target_ck: int) -> int {
    if s == PllConfigStrategy::FractionalNotLess {
        vco_ck / target_ck
    } else {
        (vco_ck + target_ck - 1) / target_ck
    }
}

/// `d` brought into the legal divider range 1..=128.
pub open spec fn clamp_div(d: int) -> int {
    if d < 1 {
        1
    } else if d > PLL_DIV_MAX {
        PLL_DIV_MAX as int
    } else {
        d
    }
}

/// The {Q,R} divider, always in 1..=128: for Normal and Iterative the one
/// whose output is closest to the target; for Fractional the one closest
/// without going over the target, and for FractionalNotLess without falling
/// under it, each brought into range where no divider in range fits on that
/// side (`on_side` then fails).
pub open spec fn ck_div_spec(s: PllConfigStrategy, vco_ck: int, target_ck: int) -> int {
    if s == PllConfigStrategy::Fractional || s == PllConfigStrategy::FractionalNotLess {
        clamp_div(one_sided_spec(s, vco_ck, target_ck))
    } else {
        closest_div(vco_ck, target_ck)
    }
}

/// Divider `d` keeps the output on the strategy's side of the target: not
/// over it for Fractional, not under it for FractionalNotLess.
pub open spec fn on_side(s: PllConfigStrategy, vco_ck: int, target_ck: int, d: int) -> bool {
    &&& s == PllConfigStrategy::Fractional ==> target_ck * d >= vco_ck
    &&& s == PllConfigStrategy::FractionalNotLess ==> target_ck * d <= vco_ck
}

/// No divider in 1..=128 gives an output closer to the target than
/// `closest_div`.
pub proof fn lemma_closest_div_optimal(vco: int, target: int, k: int)
    requires
        vco >= 0,
        target > 0,
        1 <= k <= PLL_DIV_MAX,
    ensures
        1 <= closest_div(vco, target) <= PLL_DIV_MAX,
        div_no_worse(vco, target, closest_div(vco, target), k),
{
    let (v, t) = (vco, target);
    let f = v / t;
    let d = closest_div(v, t);
    assert(t * f <= v < t * (f + 1) && f >= 0) by (nonlinear_arith)
        requires f == v / t, t > 0, v >= 0;
    if f < 1 {
        assert(t * k >= t) by (nonlinear_arith)
            requires k >= 1, t > 0;
        assert((t - v) * k <= t * k - v) by (nonlinear_arith)
            requires k >= 1, v >= 0;
        assert(d == 1);
        assert(abs(v - t * d) == t - v);
        assert(abs(v - t * k) == t * k - v);
    } else if f >= PLL_DIV_MAX {
        assert(t * k <= t * 128 <= t * f) by (nonlinear_arith)
            requires k <= 128, 128 <= f, t > 0;
        assert((v - t * 128) * k <= (v - t * k) * 128) by (nonlinear_arith)
            requires k <= 128, v >= 0;
        assert(abs(v - t * d) == v - t * 128);
        assert(abs(v - t * k) == v - t * k);
    } else {
        // the error of f and of f + 1, each against the other
        let ef = v - t * f;
        let eg = t * (f + 1) - v;
        if k <= f {
            assert(t * k <= t * f) by (nonlinear_arith)
                requires k <= f, t > 0;
            assert(ef * k <= (v - t * k) * f) by (nonlinear_arith)
                requires ef == v - t * f, k <= f, v >= 0;
            assert(abs(v - t * k) == v - t * k);
            assert(abs(v - t * f) == ef);
            assert(abs(v - t * (f + 1)) == eg);
            if d == f + 1 {
                assert(eg * f <= ef * (f + 1));
                assert(eg * k <= (v - t * k) * (f + 1)) by (nonlinear_arith)
                    requires eg * f <= ef * (f + 1), ef * k <= (v - t * k) * f, f >= 1, k >= 1,
                        eg >= 0, ef >= 0;
            }
        } else {
            assert(t * k >= t * (f + 1)) by (nonlinear_arith)
                requires k >= f + 1, t > 0;
            assert(eg * k <= (t * k - v) * (f + 1)) by (nonlinear_arith)
                requires eg == t * (f + 1) - v, k >= f + 1, v >= 0;
            assert(abs(v - t * k) == t * k - v);
            assert(abs(v - t * f) == ef);
            assert(abs(v - t * (f + 1)) == eg);
            if d == f {
                assert(ef * (f + 1) <= eg * f);
                assert(ef * k <= (t * k - v) * f) by (nonlinear_arith)
                    requires ef * (f + 1) <= eg * f, eg * k <= (t * k - v) * (f + 1), f >= 1, k >= 1,
                        eg >= 0, ef >= 0;
            }
        }
    }
}

/// Divider whose output is closest to the target on one side of it: not
/// over it, or for FractionalNotLess not under it.
fn one_sided_div(strategy: PllConfigStrategy, vco_ck: u32, target_ck: u32) -> (r: u32)
    requires
        target_ck > 0,
        strategy == PllConfigStrategy::Fractional || strategy == PllConfigStrategy::FractionalNotLess,
    ensures
        r == one_sided_spec(strategy, vco_ck as int, target_ck as int),
{
    let div: u64 = (vco_ck as u64 + target_ck as u64 - 1) / target_ck as u64;
    proof {
        let (v, t, d) = (vco_ck as int, target_ck as int, div as int);
        assert(t * d <= v + t - 1) by (nonlinear_arith)
            requires d == (v + t - 1) / t, t > 0, v >= 0;
    }
    // Step back where the divider takes us under the target clock
    if strategy == PllConfigStrategy::FractionalNotLess && target_ck as u64 * div > vco_ck as u64 {
        proof {
            let v = vco_ck as int;
            let t = target_ck as int;
            assert(div - 1 == v / t) by (nonlinear_arith)
                requires div == (v + t - 1) / t, t > 0, v >= 0, t * div > v;
        }
        (div - 1) as u32
    } else {
        proof {
            let v = vco_ck as int;
            let t = target_ck as int;
            if strategy == PllConfigStrategy::FractionalNotLess {
                assert(div == v / t) by (nonlinear_arith)
                    requires div == (v + t - 1) / t, t > 0, v >= 0, t * div <= v;
            }
            assert(div <= u32::MAX) by (nonlinear_arith)
                requires div == (v + t - 1) / t, t > 0, v >= 0, v <= u32::MAX;
        }
        div as u32
    }
}

/// Calculates the {Q,R}-divider, in 1..=128. Must NOT be used for the
/// P-divider, as this has additional restrictions on PLL1. For the
/// fractional strategies the caller checks that the divider keeps the output
/// on the strategy's side of the target (`on_side`).
///
/// vco_ck - VCO output frequency
/// target_ck - Target {Q,R} output frequency
pub fn calc_ck_div(strategy: PllConfigStrategy, vco_ck: u32, target_ck: u32) -> (r: u32)
    requires
        target_ck > 0,
    ensures
        r == ck_div_spec(strategy, vco_ck as int, target_ck as int),
        1 <= r <= PLL_DIV_MAX,
        strategy == PllConfigStrategy::Normal || strategy == PllConfigStrategy::Iterative ==> forall|k: int| 1 <= k <= PLL_DIV_MAX ==> #[trigger] div_no_worse(
            vco_ck as int,
            target_ck as int,
            r as int,
            k,
        ),
{
    if strategy == PllConfigStrategy::Fractional || strategy == PllConfigStrategy::FractionalNotLess {
        let d = one_sided_div(strategy, vco_ck, target_ck);
        return if d < 1 {
            1
        } else if d > PLL_DIV_MAX {
            PLL_DIV_MAX
        } else {
            d
        };
    }
    let ghost (v, t) = (vco_ck as int, target_ck as int);
    let f: u32 = vco_ck / target_ck;
    let d: u32 = if f < 1 {
        1
    } else if f >= PLL_DIV_MAX {
        PLL_DIV_MAX
    } else {
        proof {
            assert(t * f <= v < t * (f + 1)) by (nonlinear_arith)
                requires f == v / t, t > 0, v >= 0;
            assert((v - t * f) * (f + 1) <= t * 128 && (t * (f + 1) - v) * f <= t * 128) by (nonlinear_arith)
                requires t * f <= v < t * (f + 1), 1 <= f < 128;
        }
        proof {
            assert(t * (f + 1) <= 4_294_967_295 * 128) by (nonlinear_arith)
                requires t <= 4_294_967_295, f + 1 <= 128;
        }
        let low: u64 = target_ck as u64 * f as u64;
        let high: u64 = target_ck as u64 * (f as u64 + 1);
        let below: u64 = (vco_ck as u64 - low) * (f as u64 + 1);
        let above: u64 = (high - vco_ck as u64) * f as u64;
        if below <= above {
            f
        } else {
            f + 1
        }
    };
    proof {
        assert forall|k: int| 1 <= k <= PLL_DIV_MAX implies #[trigger] div_no_worse(v, t, d as int, k) by {
            lemma_closest_div_optimal(v, t, k);
        }
    }
    d
}

/// Fractional part of the feedback divider that brings the VCO as close as
/// possible to `vco_target` without going over it.
pub open spec fn fracn_spec(ref_ck: int, pll_n: int, vco_target: int) -> int {
    FRACN_DIVISOR * (vco_target - ref_ck * pll_n) / ref_ck
}

/// Calculates the Fractional-N part of the divider: the largest value for
/// which `ref_ck * (pll_n + fracn / 8192)` does not exceed `output * pll_p`.
///
/// ref_ck - Frequency at the PFD input
/// pll_n - Integer-N part of the divider
/// pll_p - P-divider
/// output - Wanted output frequency
pub fn calc_fracn(ref_ck: u32, pll_n: u32, pll_p: u32, output: u32) -> (r: u16)
    requires
        ref_ck > 0,
        output * pll_p <= u32::MAX,
        pll_n == (output * pll_p) / (ref_ck as int),
    ensures
        r == fracn_spec(ref_ck as int, pll_n as int, output * pll_p),
        r <= FRACN_MAX,
{
    let target: u64 = output as u64 * pll_p as u64;
    proof {
        let (t, c, n) = (target as int, ref_ck as int, pll_n as int);
        assert(c * n <= t && t - c * n < c) by (nonlinear_arith)
            requires n == t / c, c > 0;
    }
    let rem: u64 = target - ref_ck as u64 * pll_n as u64;
    proof {
        let (e, c) = (rem as int, ref_ck as int);
        assert(8192 * e / c < 8192) by (nonlinear_arith)
            requires e < c, c > 0, e >= 0;
    }
    (8192 * rem / ref_ck as u64) as u16
}


/// One of the three PLL units. PLL1's P output divider is restricted to 1 or
/// an even value; the P dividers of PLL2 and PLL3 take any value in 1..=128.
#[derive(Copy, Clone, Debug, PartialEq, Eq, Structural)]
pub enum PllId {
    Pll1,
    Pll2,
    Pll3,
}

/// Why a PLL cannot produce the requested outputs.
#[derive(Copy, Clone, Debug, PartialEq, Eq, Structural)]
pub enum PllError {
    /// The P target is zero, or no permitted P divider puts the VCO in its band.
    OutputUnreachable,
    /// No input (M) divider puts the reference frequency in its band.
    NoReferenceDivider,
    /// The achieved VCO frequency falls outside the VCO band.
    VcoOutOfRange,
    /// A Q or R target is zero, or under a fractional strategy no divider in
    /// 1..=128 keeps its output on the strategy's side of the target.
    TapDividerOutOfRange,
}

/// Dividers and internal frequencies of a configured PLL.
#[derive(Copy, Clone, Debug, PartialEq, Eq, Structural)]
pub struct PllSettings {
    /// Input (M) divider
    pub m: u32,
    /// Integer part of the feedback divider
    pub n: u32,
    /// Fractional part of the feedback divider, in 1/8192
    pub fracn: u16,
    /// P output divider
    pub p: u32,
    /// Q output divider, where Q is enabled
    pub q: Option<u32>,
    /// R output divider, where R is enabled
    pub r: Option<u32>,
    /// Reference (PFD input) frequency
    pub ref_ck: u32,
    /// Achieved VCO frequency
    pub vco_ck: u32,
}

/// Result of configuring one PLL: its settings where P is requested, and the
/// achieved frequency of each enabled output.
#[derive(Copy, Clone, Debug, PartialEq, Eq, Structural)]
pub struct PllOutputs {
    pub settings: Option<PllSettings>,
    pub p_ck: Option<u32>,
    pub q_ck: Option<u32>,
    pub r_ck: Option<u32>,
}

/// Largest input (M) divider.
pub const PLL_M_MAX: u32 = 63;
/// Largest feedback (N) divider.
pub const PLL_N_MAX: u32 = 512;
/// Largest output (P, Q, R) divider.
pub const PLL_DIV_MAX: u32 = 128;

/// Whether the PLL runs its wide VCO band (192 to 836 MHz, reference 2 to
/// 16 MHz) rather than its medium one (150 to 420 MHz, reference 1 to 2 MHz):
/// all strategies but Normal do, and Normal does for outputs the medium band
/// cannot reach.
pub open spec fn wide_band(s: PllConfigStrategy, output: int) -> bool {
    s != PllConfigStrategy::Normal || output > 420_000_000
}

/// Lower end of the VCO band.
pub open spec fn vco_min(wide: bool) -> int {
    if wide { 192_000_000 } else { 150_000_000 }
}

/// Upper end of the VCO band.
pub open spec fn vco_max(wide: bool) -> int {
    if wide { 836_000_000 } else { 420_000_000 }
}

/// Lower end of the reference (PFD input) band that goes with the VCO band.
pub open spec fn ref_min(wide: bool) -> int {
    if wide { 2_000_000 } else { 1_000_000 }
}

/// Upper end of the reference (PFD input) band that goes with the VCO band.
pub open spec fn ref_max(wide: bool) -> int {
    if wide { 16_000_000 } else { 2_000_000 }
}

/// Whether `d` is a permitted P divider of the unit.
pub open spec fn p_div_permitted(unit: PllId, d: int) -> bool {
    1 <= d <= PLL_DIV_MAX && (unit != PllId::Pll1 || d == 1 || d % 2 == 0)
}

/// The largest permitted P divider that keeps `output * p` within `vco_top`,
/// or 0 where there is none.
pub open spec fn p_div_spec(unit: PllId, vco_top: int, output: int) -> int {
    let d = if vco_top / output > PLL_DIV_MAX { PLL_DIV_MAX as int } else { vco_top / output };
    if unit == PllId::Pll1 && d > 1 && d % 2 == 1 { d - 1 } else { d }
}

/// Smallest input divider that keeps the reference at or under the band.
pub open spec fn m_lo(wide: bool, src: int) -> int {
    (src + ref_max(wide) - 1) / ref_max(wide)
}

/// Largest input divider that keeps the reference at or over the band.
pub open spec fn m_hi(wide: bool, src: int) -> int {
    if src / ref_min(wide) > PLL_M_MAX { PLL_M_MAX as int } else { src / ref_min(wide) }
}

/// Whether `m` is a legal input divider for the reference band.
pub open spec fn m_legal(wide: bool, src: int, m: int) -> bool {
    1 <= m && m_lo(wide, src) <= m <= m_hi(wide, src)
}

/// Distance from the target VCO frequency to the closest VCO frequency
/// under it that input divider `m` reaches with an integer feedback divider.
pub open spec fn m_err(src: int, vco_target: int, m: int) -> int {
    vco_target % (src / m)
}

/// `m` is the first legal input divider with the smallest error.
pub open spec fn is_best_m(wide: bool, src: int, vco_target: int, m: int) -> bool {
    &&& m_legal(wide, src, m)
    &&& forall|k: int| m_legal(wide, src, k) ==> m_err(src, vco_target, m) <= #[trigger] m_err(src, vco_target, k)
    &&& forall|k: int| m_legal(wide, src, k) && k < m ==> m_err(src, vco_target, m) < #[trigger] m_err(src, vco_target, k)
}

/// The input divider the strategy picks: the smallest legal one (highest
/// reference frequency) for Normal, the most accurate one otherwise.
pub open spec fn m_choice(s: PllConfigStrategy, wide: bool, src: int, vco_target: int) -> int {
    if s == PllConfigStrategy::Normal {
        m_lo(wide, src)
    } else {
        choose|m: int| is_best_m(wide, src, vco_target, m)
    }
}

/// Feedback divider in 1/8192 units: integer for Normal and Iterative;
/// refined to the largest value not over the target for Fractional, and one
/// unit more for FractionalNotLess.
pub open spec fn feedback_spec(s: PllConfigStrategy, ref_ck: int, vco_target: int) -> int {
    let n = vco_target / ref_ck;
    if s == PllConfigStrategy::Fractional {
        n * 8192 + fracn_spec(ref_ck, n, vco_target)
    } else if s == PllConfigStrategy::FractionalNotLess {
        n * 8192 + fracn_spec(ref_ck, n, vco_target) + 1
    } else {
        n * 8192
    }
}

/// Whether a requested Q or R output can be produced from `vco`.
pub open spec fn tap_ok(s: PllConfigStrategy, vco: int, target: Option<u32>) -> bool {
    match target {
        None => true,
        Some(t) => t > 0 && on_side(s, vco, t as int, ck_div_spec(s, vco, t as int)),
    }
}

/// Divider of a requested Q or R output.
pub open spec fn tap_div(s: PllConfigStrategy, vco: int, target: Option<u32>) -> Option<u32> {
    match target {
        None => None,
        Some(t) => Some(ck_div_spec(s, vco, t as int) as u32),
    }
}

/// Frequency of an output behind divider `div`.
pub open spec fn tap_ck(vco: int, div: Option<u32>) -> Option<u32> {
    match div {
        None => None,
        Some(d) => Some((vco / (d as int)) as u32),
    }
}

/// Outputs of a PLL with no P output requested: everything disabled.
pub open spec fn pll_disabled() -> PllOutputs {
    PllOutputs { settings: None, p_ck: None, q_ck: None, r_ck: None }
}

/// What configuring PLL `unit` from source frequency `src` with `cfg` gives.
pub open spec fn pll_synthesis(unit: PllId, src: int, cfg: PllConfig) -> Result<PllOutputs, PllError> {
    match cfg.p_ck {
        None => Ok(pll_disabled()),
        Some(output) => {
            let s = cfg.strategy;
            let w = wide_band(s, output as int);
            let p = if output == 0 { 0 } else { p_div_spec(unit, vco_max(w), output as int) };
            let vco_target = output * p;
            if p == 0 || vco_target < vco_min(w) {
                Err(PllError::OutputUnreachable)
            } else if !(1 <= m_lo(w, src) <= m_hi(w, src)) {
                Err(PllError::NoReferenceDivider)
            } else {
                let m = m_choice(s, w, src, vco_target);
                let ref_ck = src / m;
                let fb = feedback_spec(s, ref_ck, vco_target);
                let n = fb / 8192;
                let fracn = fb % 8192;
                let vco = vco_ck_spec(ref_ck, n, fracn);
                if vco < vco_min(w) || vco > vco_max(w) {
                    Err(PllError::VcoOutOfRange)
                } else if !tap_ok(s, vco, cfg.q_ck) || !tap_ok(s, vco, cfg.r_ck) {
                    Err(PllError::TapDividerOutOfRange)
                } else {
                    let q = tap_div(s, vco, cfg.q_ck);
                    let r = tap_div(s, vco, cfg.r_ck);
                    Ok(PllOutputs {
                        settings: Some(PllSettings {
                            m: m as u32,
                            n: n as u32,
                            fracn: fracn as u16,
                            p: p as u32,
                            q,
                            r,
                            ref_ck: ref_ck as u32,
                            vco_ck: vco as u32,
                        }),
                        p_ck: Some((vco / p) as u32),
                        q_ck: tap_ck(vco, q),
                        r_ck: tap_ck(vco, r),
                    })
                }
            }
        },
    }
}

/// Division by a divisor in the legal range stays in the band.
proof fn lemma_div_in_band(lo: int, hi: int, src: int, m: int)
    requires
        lo > 0,
        hi > 0,
        m >= 1,
        (src + hi - 1) / hi <= m,
        m <= src / lo,
    ensures
        lo <= src / m <= hi,
        m * lo <= src,
{
    assert(m * lo <= src) by (nonlinear_arith)
        requires m <= src / lo, lo > 0, m >= 1;
    assert(src <= m * hi) by (nonlinear_arith)
        requires (src + hi - 1) / hi <= m, hi > 0, m >= 1;
    assert(lo <= src / m) by (nonlinear_arith)
        requires m * lo <= src, m >= 1;
    assert(src / m <= hi) by (nonlinear_arith)
        requires src <= m * hi, m >= 1;
}

/// Calculate VCO output divider (p-divider). Choose the highest VCO
/// frequency to give specified output.
fn vco_output_divider_setup(unit: PllId, output: u32, vco_top: u32) -> (p: u32)
    requires
        output > 0,
    ensures
        p == p_div_spec(unit, vco_top as int, output as int),
        p <= PLL_DIV_MAX,
{
    let d0: u32 = vco_top / output;
    let d: u32 = if d0 > PLL_DIV_MAX { PLL_DIV_MAX } else { d0 };
    if unit == PllId::Pll1 && d > 1 && d % 2 == 1 {
        d - 1
    } else {
        d
    }
}

/// The chosen P divider is the largest permitted one that keeps the target
/// VCO frequency within the band: it gives the highest VCO frequency.
pub proof fn lemma_p_div_highest(unit: PllId, vco_top: int, output: int, d: int)
    requires
        output > 0,
        vco_top >= 0,
        p_div_permitted(unit, d),
        output * d <= vco_top,
    ensures
        p_div_permitted(unit, p_div_spec(unit, vco_top, output)),
        d <= p_div_spec(unit, vco_top, output),
{
    assert(d <= vco_top / output) by (nonlinear_arith)
        requires output * d <= vco_top, output > 0;
}

/// The VCO band.
fn vco_band(wide: bool) -> (r: (u32, u32))
    ensures
        r.0 == vco_min(wide),
        r.1 == vco_max(wide),
{
    if wide {
        (192_000_000, 836_000_000)
    } else {
        (150_000_000, 420_000_000)
    }
}

/// The reference band that goes with the VCO band.
fn ref_band(wide: bool) -> (r: (u32, u32))
    ensures
        r.0 == ref_min(wide),
        r.1 == ref_max(wide),
{
    if wide {
        (2_000_000, 16_000_000)
    } else {
        (1_000_000, 2_000_000)
    }
}

/// Input (M) divider: the smallest legal one for Normal, else the first
/// legal one minimising the distance between the target VCO frequency and
/// the closest integer multiple of the reference under it.
fn vco_setup_m(s: PllConfigStrategy, wide: bool, pllsrc: u32, vco_target: u32) -> (r: Option<u32>)
    ensures
        r is None <==> !(1 <= m_lo(wide, pllsrc as int) <= m_hi(wide, pllsrc as int)),
        r matches Some(m) ==> m == m_choice(s, wide, pllsrc as int, vco_target as int)
            && m_legal(wide, pllsrc as int, m as int)
            && (s != PllConfigStrategy::Normal ==> is_best_m(wide, pllsrc as int, vco_target as int, m as int)),
{
    let (ref_lo, ref_hi) = ref_band(wide);
    let lo: u32 = ((pllsrc as u64 + ref_hi as u64 - 1) / ref_hi as u64) as u32;
    let q: u32 = pllsrc / ref_lo;
    let hi: u32 = if q > PLL_M_MAX { PLL_M_MAX } else { q };
    proof {
        let src = pllsrc as int;
        if wide {
            assert(lo == (src + 16_000_000 - 1) / 16_000_000);
            assert(lo == m_lo(wide, src));
        } else {
            assert(lo == (src + 2_000_000 - 1) / 2_000_000);
            assert(lo == m_lo(wide, src));
        }
        assert(hi == m_hi(wide, src));
    }
    if lo == 0 || lo > hi {
        return None;
    }
    if s == PllConfigStrategy::Normal {
        return Some(lo);
    }
    let ghost src = pllsrc as int;
    let ghost tgt = vco_target as int;
    proof {
        lemma_div_in_band(ref_lo as int, ref_hi as int, src, lo as int);
    }
    let mut best: u32 = lo;
    let mut best_err: u32 = vco_target % (pllsrc / lo);
    let mut m: u32 = lo + 1;
    while m <= hi
        invariant
            1 <= lo <= best < m <= hi + 1,
            hi <= PLL_M_MAX,
            lo == m_lo(wide, src),
            hi == m_hi(wide, src),
            ref_lo == ref_min(wide),
            ref_hi == ref_max(wide),
            src == pllsrc,
            tgt == vco_target,
            best_err == m_err(src, tgt, best as int),
            forall|k: int| lo <= k < m ==> m_err(src, tgt, best as int) <= #[trigger] m_err(src, tgt, k),
            forall|k: int| lo <= k < best ==> m_err(src, tgt, best as int) < #[trigger] m_err(src, tgt, k),
        decreases hi + 1 - m,
    {
        proof {
            lemma_div_in_band(ref_lo as int, ref_hi as int, src, m as int);
        }
        let e: u32 = vco_target % (pllsrc / m);
        if e < best_err {
            best = m;
            best_err = e;
        }
        m = m + 1;
    }
    proof {
        assert(is_best_m(wide, src, tgt, best as int));
        lemma_best_m_unique(s, wide, src, tgt, best as int);
    }
    Some(best)
}

/// There is one best input divider at most, so `m_choice` names it.
pub proof fn lemma_best_m_unique(s: PllConfigStrategy, wide: bool, src: int, vco_target: int, m: int)
    requires
        is_best_m(wide, src, vco_target, m),
    ensures
        s != PllConfigStrategy::Normal ==> m_choice(s, wide, src, vco_target) == m,
{
    let c = choose|k: int| is_best_m(wide, src, vco_target, k);
    assert(is_best_m(wide, src, vco_target, c));
    if c < m {
        assert(m_err(src, vco_target, m) < m_err(src, vco_target, c));
    } else if m < c {
        assert(m_err(src, vco_target, c) < m_err(src, vco_target, m));
    }
}

/// `m` is the first divider in `lo..=hi` with the smallest error.
pub open spec fn first_min_in(src: int, vco_target: int, lo: int, hi: int, m: int) -> bool {
    &&& lo <= m <= hi
    &&& forall|k: int| lo <= k <= hi ==> m_err(src, vco_target, m) <= #[trigger] m_err(src, vco_target, k)
    &&& forall|k: int| lo <= k < m ==> m_err(src, vco_target, m) < #[trigger] m_err(src, vco_target, k)
}

/// Over a nonempty range of input dividers some divider has the smallest
/// error, ahead of all others with that error.
proof fn lemma_first_min_exists(src: int, vco_target: int, lo: int, hi: int)
    requires
        lo <= hi,
    ensures
        exists|m: int| #[trigger] first_min_in(src, vco_target, lo, hi, m),
    decreases hi - lo,
{
    if lo == hi {
        assert(first_min_in(src, vco_target, lo, hi, lo));
    } else {
        lemma_first_min_exists(src, vco_target, lo, hi - 1);
        let m = choose|m: int| #[trigger] first_min_in(src, vco_target, lo, hi - 1, m);
        if m_err(src, vco_target, hi) < m_err(src, vco_target, m) {
            assert(first_min_in(src, vco_target, lo, hi, hi));
        } else {
            assert(first_min_in(src, vco_target, lo, hi, m));
        }
    }
}

/// Wherever a legal input divider exists, a best one exists, so the
/// iterative strategies' choice is well defined.
pub proof fn lemma_best_m_exists(wide: bool, src: int, vco_target: int)
    requires
        1 <= m_lo(wide, src) <= m_hi(wide, src),
    ensures
        exists|m: int| is_best_m(wide, src, vco_target, m),
{
    let (lo, hi) = (m_lo(wide, src), m_hi(wide, src));
    lemma_first_min_exists(src, vco_target, lo, hi);
    let m = choose|m: int| #[trigger] first_min_in(src, vco_target, lo, hi, m);
    assert(is_best_m(wide, src, vco_target, m));
}

/// Every configured PLL runs its reference within the band that goes with
/// its VCO band, from a legal input divider.
pub proof fn lemma_reference_in_band(unit: PllId, src: int, cfg: PllConfig)
    requires
        0 <= src <= u32::MAX,
        pll_synthesis(unit, src, cfg) is Ok,
        pll_synthesis(unit, src, cfg)->Ok_0.settings is Some,
    ensures
        cfg.p_ck is Some,
        ({
            let st = pll_synthesis(unit, src, cfg)->Ok_0.settings->Some_0;
            let w = wide_band(cfg.strategy, cfg.p_ck->Some_0 as int);
            &&& ref_min(w) <= st.ref_ck <= ref_max(w)
            &&& m_legal(w, src, st.m as int)
        }),
{
    let output = cfg.p_ck->Some_0;
    let s = cfg.strategy;
    let w = wide_band(s, output as int);
    let p = p_div_spec(unit, vco_max(w), output as int);
    let vco_target = output * p;
    let m = m_choice(s, w, src, vco_target);
    if s != PllConfigStrategy::Normal {
        lemma_best_m_exists(w, src, vco_target);
        let c = choose|k: int| is_best_m(w, src, vco_target, k);
        assert(is_best_m(w, src, vco_target, c));
    }
    assert(m_legal(w, src, m));
    lemma_div_in_band(ref_min(w), ref_max(w), src, m);
    assert(src / m <= src) by (nonlinear_arith)
        requires m >= 1, src >= 0;
}

/// Divider of a requested Q or R output, or `None` where it cannot be had.
fn tap_setup(s: PllConfigStrategy, vco_ck: u32, target: Option<u32>) -> (r: Option<Option<u32>>)
    ensures
        r is Some <==> tap_ok(s, vco_ck as int, target),
        r matches Some(d) ==> d == tap_div(s, vco_ck as int, target),
{
    match target {
        None => Some(None),
        Some(t) => {
            if t == 0 {
                return None;
            }
            let d = calc_ck_div(s, vco_ck, t);
            proof {
                assert(t * d <= 4_294_967_295 * 128) by (nonlinear_arith)
                    requires t <= 4_294_967_295, 1 <= d <= 128;
            }
            let reached: u64 = t as u64 * d as u64;
            let fits = match s {
                PllConfigStrategy::Fractional => reached >= vco_ck as u64,
                PllConfigStrategy::FractionalNotLess => reached <= vco_ck as u64,
                _ => true,
            };
            if fits {
                Some(Some(d))
            } else {
                None
            }
        },
    }
}

/// Configures PLL `unit` from source frequency `pllsrc`: picks the P, M, N
/// (and fractional N) dividers for the requested P output under the
/// configured strategy, then the Q and R dividers against the achieved VCO
/// frequency. Returns the settings and the achieved output frequencies.
pub fn pll_setup(unit: PllId, pllsrc: u32, pll: &PllConfig) -> (r: Result<PllOutputs, PllError>)
    ensures
        r == pll_synthesis(unit, pllsrc as int, *pll),
        r matches Ok(o) ==> (o.settings matches Some(st) ==> 4 <= st.n <= PLL_N_MAX),
        r matches Ok(o) ==> (o.settings matches Some(st) ==> (pll.q_ck matches Some(t) ==> st.q == Some(
            ck_div_spec(pll.strategy, st.vco_ck as int, t as int) as u32,
        )) && (pll.r_ck matches Some(t) ==> st.r == Some(
            ck_div_spec(pll.strategy, st.vco_ck as int, t as int) as u32,
        ))),
        r matches Ok(o) ==> (o.settings matches Some(st) ==> pll.p_ck matches Some(t) ==> ({
            let w = wide_band(pll.strategy, t as int);
            &&& ref_min(w) <= st.ref_ck <= ref_max(w)
            &&& m_legal(w, pllsrc as int, st.m as int)
            &&& pll.strategy == PllConfigStrategy::Normal ==> st.m == m_lo(w, pllsrc as int)
            &&& pll.strategy != PllConfigStrategy::Normal ==> is_best_m(w, pllsrc as int, t * st.p, st.m as int)
        })),
        r matches Ok(o) ==> (pll.p_ck matches Some(t) ==> o.p_ck matches Some(a)
            && (pll.strategy == PllConfigStrategy::Fractional ==> a <= t)
            && (pll.strategy == PllConfigStrategy::FractionalNotLess ==> a >= t)),
{
    let output: u32 = match pll.p_ck {
        None => {
            return Ok(PllOutputs { settings: None, p_ck: None, q_ck: None, r_ck: None });
        },
        Some(output) => output,
    };
    let s = pll.strategy;
    let wide = s != PllConfigStrategy::Normal || output > 420_000_000;
    let (vmin, vmax) = vco_band(wide);
    if output == 0 {
        return Err(PllError::OutputUnreachable);
    }
    // VCO output frequency. Choose the highest VCO frequency
    let p = vco_output_divider_setup(unit, output, vmax);
    if p == 0 {
        return Err(PllError::OutputUnreachable);
    }
    proof {
        assert(output * p <= vmax) by (nonlinear_arith)
            requires p <= (vmax as int) / (output as int), output > 0;
    }
    let vco_target: u32 = output * p;
    if vco_target < vmin {
        return Err(PllError::OutputUnreachable);
    }
    // Input divisor
    let m = match vco_setup_m(s, wide, pllsrc, vco_target) {
        None => {
            return Err(PllError::NoReferenceDivider);
        },
        Some(m) => m,
    };
    let (ref_lo, ref_hi) = ref_band(wide);
    proof {
        lemma_div_in_band(ref_lo as int, ref_hi as int, pllsrc as int, m as int);
    }
    let ref_ck: u32 = pllsrc / m;
    // Feedback divider
    let n0: u32 = vco_target / ref_ck;
    proof {
        assert(ref_ck * n0 <= vco_target) by (nonlinear_arith)
            requires n0 == (vco_target as int) / (ref_ck as int), ref_ck > 0;
        assert(n0 <= vco_target) by (nonlinear_arith)
            requires n0 == (vco_target as int) / (ref_ck as int), ref_ck >= 1;
    }
    let (n, fracn): (u32, u16) = match s {
        PllConfigStrategy::Fractional => (n0, calc_fracn(ref_ck, n0, p, output)),
        PllConfigStrategy::FractionalNotLess => {
            let f = calc_fracn(ref_ck, n0, p, output);
            if f as u32 == FRACN_MAX {
                (n0 + 1, 0)
            } else {
                (n0, f + 1)
            }
        },
        _ => (n0, 0),
    };
    proof {
        let fb = feedback_spec(s, ref_ck as int, vco_target as int);
        assert(fb == n * 8192 + fracn);
        assert(fb / 8192 == n && fb % 8192 == fracn) by (nonlinear_arith)
            requires fb == n * 8192 + fracn, 0 <= fracn < 8192;
    }
    proof {
        // The bands keep the feedback divider within 4..=512
        let (c, t) = (ref_ck as int, vco_target as int);
        assert(12 <= n0 <= 420) by (nonlinear_arith)
            requires
                n0 == t / c,
                ref_min(wide) <= c <= ref_max(wide),
                vco_min(wide) <= t <= vco_max(wide),
                ref_min(wide) == 1_000_000 && ref_max(wide) == 2_000_000 && vco_min(wide) == 150_000_000
                    && vco_max(wide) == 420_000_000 || ref_min(wide) == 2_000_000 && ref_max(wide)
                    == 16_000_000 && vco_min(wide) == 192_000_000 && vco_max(wide) == 836_000_000;
    }
    proof {
        assert(ref_ck * (n + 1) <= ref_ck * n0 + 2 * ref_ck) by (nonlinear_arith)
            requires n <= n0 + 1, ref_ck >= 0;
    }
    let vco_ck = calc_vco_ck(ref_ck, n, fracn);
    proof {
        lemma_fractional_brackets_target(ref_ck as int, vco_target as int);
        let v = vco_ck as int;
        let (o, pp) = (output as int, p as int);
        if s == PllConfigStrategy::Fractional {
            assert(v / pp <= o) by (nonlinear_arith)
                requires v <= o * pp, pp >= 1;
        }
        if s == PllConfigStrategy::FractionalNotLess {
            assert(v / pp >= o) by (nonlinear_arith)
                requires v >= o * pp, pp >= 1;
        }
    }
    if vco_ck < vmin || vco_ck > vmax {
        return Err(PllError::VcoOutOfRange);
    }
    let q = match tap_setup(s, vco_ck, pll.q_ck) {
        None => {
            return Err(PllError::TapDividerOutOfRange);
        },
        Some(q) => q,
    };
    let r = match tap_setup(s, vco_ck, pll.r_ck) {
        None => {
            return Err(PllError::TapDividerOutOfRange);
        },
        Some(r) => r,
    };
    let q_ck = match q {
        None => None,
        Some(d) => Some(vco_ck / d),
    };
    let r_ck = match r {
        None => None,
        Some(d) => Some(vco_ck / d),
    };
    Ok(PllOutputs {
        settings: Some(PllSettings { m, n, fracn, p, q, r, ref_ck, vco_ck }),
        p_ck: Some(vco_ck / p),
        q_ck,
        r_ck,
    })
}

/// The fractional strategies bracket the target VCO frequency: Fractional
/// reaches at most the target, FractionalNotLess at least the target.
pub proof fn lemma_fractional_brackets_target(ref_ck: int, vco_target: int)
    requires
        ref_ck > 0,
        vco_target >= 0,
    ensures
        ({
            let fb = feedback_spec(PllConfigStrategy::Fractional, ref_ck, vco_target);
            vco_ck_spec(ref_ck, fb / 8192, fb % 8192) <= vco_target
        }),
        ({
            let fb = feedback_spec(PllConfigStrategy::FractionalNotLess, ref_ck, vco_target);
            vco_ck_spec(ref_ck, fb / 8192, fb % 8192) >= vco_target
        }),
{
    let n = vco_target / ref_ck;
    let rem = vco_target - ref_ck * n;
    assert(0 <= rem < ref_ck) by (nonlinear_arith)
        requires n == vco_target / ref_ck, rem == vco_target - ref_ck * n, ref_ck > 0, vco_target >= 0;
    let f = fracn_spec(ref_ck, n, vco_target);
    assert(f == 8192 * rem / ref_ck);
    assert(ref_ck * f <= 8192 * rem && 8192 * rem < ref_ck * (f + 1)) by (nonlinear_arith)
        requires f == 8192 * rem / ref_ck, ref_ck > 0, rem >= 0;
    let fb1 = n * 8192 + f;
    let fb2 = fb1 + 1;
    assert(fb1 / 8192 * 8192 + fb1 % 8192 == fb1) by (nonlinear_arith);
    assert(fb2 / 8192 * 8192 + fb2 % 8192 == fb2) by (nonlinear_arith);
    assert(ref_ck * fb1 <= 8192 * vco_target) by (nonlinear_arith)
        requires fb1 == n * 8192 + f, ref_ck * f <= 8192 * rem, rem == vco_target - ref_ck * n;
    assert(ref_ck * fb1 / 8192 <= vco_target) by (nonlinear_arith)
        requires ref_ck * fb1 <= 8192 * vco_target;
    assert(ref_ck * fb2 > 8192 * vco_target) by (nonlinear_arith)
        requires fb2 == n * 8192 + f + 1, 8192 * rem < ref_ck * (f + 1), rem == vco_target - ref_ck * n;
    assert(ref_ck * fb2 / 8192 >= vco_target) by (nonlinear_arith)
        requires ref_ck * fb2 > 8192 * vco_target;
}

/// Normal strategy: in either band, the chosen input divider is legal
/// wherever any is, and gives the highest reference frequency of all legal
/// dividers.
pub proof fn lemma_normal_reference_highest(wide: bool, src: int, vco_target: int, m: int)
    requires
        src >= 0,
        m_legal(wide, src, m),
    ensures
        m_legal(wide, src, m_choice(PllConfigStrategy::Normal, wide, src, vco_target)),
        m_choice(PllConfigStrategy::Normal, wide, src, vco_target) <= m,
        src / m <= src / m_choice(PllConfigStrategy::Normal, wide, src, vco_target),
{
    let lo = m_lo(wide, src);
    let h = ref_max(wide);
    assert(1 <= lo) by (nonlinear_arith)
        requires lo == (src + h - 1) / h, src >= 1, h >= 1;
    assert(src / m <= src / lo) by (nonlinear_arith)
        requires 1 <= lo <= m, src >= 0;
}

/// Accuracy of a Q or R output whose target is at most the VCO frequency:
/// under Normal and Iterative no legal divider comes closer. Where the target
/// is at least 1/128 of the VCO frequency, under Fractional the output is
/// never over the target and off by less than `target / div + 1` hertz, and
/// under FractionalNotLess never under it and off by less than
/// `target / div`. Where the target divides the VCO frequency in 1..=128
/// parts the output is exact.
pub proof fn lemma_tap_accuracy(s: PllConfigStrategy, vco: int, target: int)
    requires
        0 < target <= vco,
    ensures
        ({
            let d = ck_div_spec(s, vco, target);
            let a = vco / d;
            &&& 1 <= d <= PLL_DIV_MAX
            &&& (s == PllConfigStrategy::Normal || s == PllConfigStrategy::Iterative) ==> forall|k: int|
                1 <= k <= PLL_DIV_MAX ==> #[trigger] div_no_worse(vco, target, d, k)
            &&& s == PllConfigStrategy::Fractional && vco <= PLL_DIV_MAX * target ==> on_side(s, vco, target, d)
                && a <= target && (target - a) * d < target + d
            &&& s == PllConfigStrategy::FractionalNotLess ==> on_side(s, vco, target, d)
            &&& s == PllConfigStrategy::FractionalNotLess && vco <= PLL_DIV_MAX * target ==> target <= a
                && (a - target) * d < target
            &&& vco % target == 0 && vco / target <= PLL_DIV_MAX ==> a == target
        }),
{
    let d = ck_div_spec(s, vco, target);
    let a = vco / d;
    let f = vco / target;
    assert(target * f <= vco < target * (f + 1) && f >= 1) by (nonlinear_arith)
        requires f == vco / target, 0 < target <= vco;
    if vco % target == 0 {
        assert(f * target == vco && target * f == vco) by (nonlinear_arith)
            requires f == vco / target, vco % target == 0, target > 0;
    }
    if s == PllConfigStrategy::FractionalNotLess {
        if f <= PLL_DIV_MAX {
            assert(d == f);
            assert(target <= a && (a - target) * d < target) by (nonlinear_arith)
                requires a == vco / d, d >= 1, target * d <= vco, vco < target * (d + 1);
        } else {
            assert(d == PLL_DIV_MAX);
            assert(target * d <= target * f) by (nonlinear_arith)
                requires d <= f, target > 0;
        }
        if vco <= PLL_DIV_MAX * target {
            assert(f <= PLL_DIV_MAX) by (nonlinear_arith)
                requires f == vco / target, vco <= 128 * target, target > 0;
        }
    } else if s == PllConfigStrategy::Fractional {
        let c = (vco + target - 1) / target;
        assert(c >= 1 && c * target >= vco && (c - 1) * target < vco) by (nonlinear_arith)
            requires c == (vco + target - 1) / target, 0 < target <= vco;
        if vco <= PLL_DIV_MAX * target {
            assert(c <= PLL_DIV_MAX) by (nonlinear_arith)
                requires (c - 1) * target < vco, vco <= 128 * target, target > 0;
            assert(d == c);
            assert(target * d >= vco) by (nonlinear_arith)
                requires d * target >= vco;
            assert(a <= target && (target - a) * d < target + d) by (nonlinear_arith)
                requires a == vco / d, d >= 1, d * target >= vco, (d - 1) * target < vco;
        }
        if vco % target == 0 && f <= PLL_DIV_MAX {
            assert(c == f) by (nonlinear_arith)
                requires c == (vco + target - 1) / target, f * target == vco, target > 0;
        }
    } else {
        assert forall|k: int| 1 <= k <= PLL_DIV_MAX implies #[trigger] div_no_worse(vco, target, d, k) by {
            lemma_closest_div_optimal(vco, target, k);
        }
        lemma_closest_div_optimal(vco, target, 1);
        if vco % target == 0 && f <= PLL_DIV_MAX {
            assert(vco - target * f == 0);
            assert((target * (f + 1) - vco) * f >= 0) by (nonlinear_arith)
                requires target * (f + 1) > vco, f >= 1;
            assert(d == f);
        }
    }
    if vco % target == 0 && f <= PLL_DIV_MAX && d == f {
        assert(a == target) by (nonlinear_arith)
            requires a == vco / d, d * target == vco, d >= 1;
    }
}

/// Calculates the VCO output frequency of a PLL, rounded down to whole hertz:
/// `ref_ck * (pll_n + pll_fracn / 8192)`.
///
/// ref_ck - Frequency at the PFD input
/// pll_n - Integer-N part of the divider
/// pll_fracn - Fractional-N part of the divider
pub fn calc_vco_ck(ref_ck: u32, pll_n: u32, pll_fracn: u16) -> (r: u32)
    requires
        pll_fracn <= FRACN_MAX,
        ref_ck * (pll_n + 1) <= u32::MAX,
    ensures
        r == vco_ck_spec(ref_ck as int, pll_n as int, pll_fracn as int),
{
    let fb: u64 = pll_n as u64 * 8192 + pll_fracn as u64;
    proof {
        let (c, f, n) = (ref_ck as int, fb as int, pll_n as int);
        assert(c * f <= c * (n + 1) * 8192) by (nonlinear_arith)
            requires f <= (n + 1) * 8192, c >= 0;
        assert(c * f / 8192 <= c * (n + 1)) by (nonlinear_arith)
            requires c * f <= c * (n + 1) * 8192, c * f >= 0;
    }
    let vco: u64 = ref_ck as u64 * fb / 8192;
    vco as u32
}

/// VCO frequency, in whole hertz, for a reference frequency and a feedback
/// divider of `n + fracn / 8192`.
pub open spec fn vco_ck_spec(ref_ck: int, n: int, fracn: int) -> int {
    ref_ck * (n * 8192 + fracn) / 8192
}

} // verus!
