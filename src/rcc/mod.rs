//! Reset and clock control: a builder of requested clock frequencies, the
//! rules by which some requests imply others, the synthesis of the three PLLs,
//! and the frozen record of achieved frequencies with the peripherals'
//! single-owner enable/reset handles.
//!
//! Some clock specifications imply other clock specifications, as follows:
//!
//! * `use_hse(a)` implies `sys_ck(a)`
//!
//! * `sys_ck(b)` implies `pll1_p_ck(b)` unless `b` equals HSI
//!
//! * `pll1_p_ck(c)` implies `pll1_r_ck(c/2)`, including when `pll1_p_ck` was
//!   implied by `sys_ck(c)`
//!
//! Implied clock specifications can always be overridden by explicitly
//! specifying that clock.
use vstd::prelude::*;

pub mod pll;

use pll::{PllConfig, PllConfigStrategy, PllError, PllId, PllOutputs, pll_setup, pll_synthesis};

verus! {

/// Frequency of the internal high-speed oscillator.
pub const HSI: u32 = 64_000_000;

/// Configuration of the core clocks. A field that is `Some` was set
/// explicitly; `None` leaves it to the implication rules and defaults.
#[derive(Copy, Clone, Debug, PartialEq, Eq, Structural)]
pub struct Config {
    pub hse: Option<u32>,
    pub bypass_hse: bool,
    pub sys_ck: Option<u32>,
    pub per_ck: Option<u32>,
    pub rcc_hclk: Option<u32>,
    pub rcc_pclk1: Option<u32>,
    pub rcc_pclk2: Option<u32>,
    pub rcc_pclk3: Option<u32>,
    pub rcc_pclk4: Option<u32>,
    pub pll1: PllConfig,
    pub pll2: PllConfig,
    pub pll3: PllConfig,
}

/// First rule: an external oscillator implies a system clock of its frequency.
pub open spec fn implied_sys_ck(c: Config) -> Option<u32> {
    match (c.sys_ck, c.hse) {
        (None, Some(f)) => Some(f),
        _ => c.sys_ck,
    }
}

/// Second rule: a system clock other than HSI implies PLL1's P output.
pub open spec fn implied_pll1_p_ck(c: Config) -> Option<u32> {
    match (c.pll1.p_ck, implied_sys_ck(c)) {
        (None, Some(f)) => if f != HSI { Some(f) } else { None },
        _ => c.pll1.p_ck,
    }
}

/// Third rule: PLL1's P output implies its R output at half the frequency.
pub open spec fn implied_pll1_r_ck(c: Config) -> Option<u32> {
    match (c.pll1.r_ck, implied_pll1_p_ck(c)) {
        (None, Some(f)) => Some((f / 2) as u32),
        _ => c.pll1.r_ck,
    }
}

/// The clock tree after the implication rules, applied in order.
pub open spec fn resolve_spec(c: Config) -> Config {
    Config {
        sys_ck: implied_sys_ck(c),
        pll1: PllConfig {
            p_ck: implied_pll1_p_ck(c),
            r_ck: implied_pll1_r_ck(c),
            ..c.pll1
        },
        ..c
    }
}

/// Frequency that feeds the PLLs: the external oscillator where there is one.
pub open spec fn pll_source(c: Config) -> int {
    match c.hse {
        Some(f) => f as int,
        None => HSI as int,
    }
}

/// What the three PLLs give for the resolved tree of `c`.
pub open spec fn plls_spec(c: Config) -> (
    Result<PllOutputs, PllError>,
    Result<PllOutputs, PllError>,
    Result<PllOutputs, PllError>,
) {
    let t = resolve_spec(c);
    (
        pll_synthesis(PllId::Pll1, pll_source(c), t.pll1),
        pll_synthesis(PllId::Pll2, pll_source(c), t.pll2),
        pll_synthesis(PllId::Pll3, pll_source(c), t.pll3),
    )
}

/// PLL settings with nothing requested.
pub open spec fn pll_unused() -> PllConfig {
    PllConfig { strategy: PllConfigStrategy::Normal, p_ck: None, q_ck: None, r_ck: None }
}

/// A configuration with nothing requested.
pub open spec fn empty_config() -> Config {
    Config {
        hse: None,
        bypass_hse: false,
        sys_ck: None,
        per_ck: None,
        rcc_hclk: None,
        rcc_pclk1: None,
        rcc_pclk2: None,
        rcc_pclk3: None,
        rcc_pclk4: None,
        pll1: pll_unused(),
        pll2: pll_unused(),
        pll3: pll_unused(),
    }
}

impl Config {
    /// Nothing requested: HSI drives the system clock, all PLLs are off.
    pub fn new() -> (r: Config)
        ensures
            r == empty_config(),
    {
        Config {
            hse: None,
            bypass_hse: false,
            sys_ck: None,
            per_ck: None,
            rcc_hclk: None,
            rcc_pclk1: None,
            rcc_pclk2: None,
            rcc_pclk3: None,
            rcc_pclk4: None,
            pll1: PllConfig::default(),
            pll2: PllConfig::default(),
            pll3: PllConfig::default(),
        }
    }

    /// Expands the configuration by the implication rules, leaving every
    /// explicit setting as it is.
    pub fn resolve(&self) -> (r: Config)
        ensures
            r == resolve_spec(*self),
    {
        let sys_ck = match (self.sys_ck, self.hse) {
            (None, Some(f)) => Some(f),
            _ => self.sys_ck,
        };
        let p_ck = match (self.pll1.p_ck, sys_ck) {
            (None, Some(f)) => if f != HSI {
                Some(f)
            } else {
                None
            },
            _ => self.pll1.p_ck,
        };
        let r_ck = match (self.pll1.r_ck, p_ck) {
            (None, Some(f)) => Some(f / 2),
            _ => self.pll1.r_ck,
        };
        let mut t = *self;
        t.sys_ck = sys_ck;
        t.pll1.p_ck = p_ck;
        t.pll1.r_ck = r_ck;
        t
    }

    /// Resolves the configuration and configures the three PLLs from it.
    pub fn pll_setups(&self) -> (r: (
        Result<PllOutputs, PllError>,
        Result<PllOutputs, PllError>,
        Result<PllOutputs, PllError>,
    ))
        ensures
            r == plls_spec(*self),
    {
        let t = self.resolve();
        let pllsrc = match self.hse {
            Some(f) => f,
            None => HSI,
        };
        (
            pll_setup(PllId::Pll1, pllsrc, &t.pll1),
            pll_setup(PllId::Pll2, pllsrc, &t.pll2),
            pll_setup(PllId::Pll3, pllsrc, &t.pll3),
        )
    }
}

/// An explicit setting is never changed by the implication rules.
pub proof fn lemma_explicit_settings_kept(c: Config)
    ensures
        ({
            let t = resolve_spec(c);
            &&& t.hse == c.hse
            &&& t.bypass_hse == c.bypass_hse
            &&& c.sys_ck is Some ==> t.sys_ck == c.sys_ck
            &&& t.per_ck == c.per_ck
            &&& t.rcc_hclk == c.rcc_hclk
            &&& t.rcc_pclk1 == c.rcc_pclk1
            &&& t.rcc_pclk2 == c.rcc_pclk2
            &&& t.rcc_pclk3 == c.rcc_pclk3
            &&& t.rcc_pclk4 == c.rcc_pclk4
            &&& t.pll1.strategy == c.pll1.strategy
            &&& c.pll1.p_ck is Some ==> t.pll1.p_ck == c.pll1.p_ck
            &&& t.pll1.q_ck == c.pll1.q_ck
            &&& c.pll1.r_ck is Some ==> t.pll1.r_ck == c.pll1.r_ck
            &&& t.pll2 == c.pll2
            &&& t.pll3 == c.pll3
        }),
{
}

/// Resolving an already resolved configuration changes nothing, so the PLLs
/// come out the same from a configuration and from its resolved tree, and
/// from every repeated resolution.
pub proof fn lemma_resolution_idempotent(c: Config)
    ensures
        resolve_spec(resolve_spec(c)) == resolve_spec(c),
        plls_spec(resolve_spec(c)) == plls_spec(c),
{
    let t = resolve_spec(c);
    assert(resolve_spec(t) == t);
}

/// Frequencies achieved by a frozen clock tree.
#[derive(Copy, Clone, Debug, PartialEq, Eq, Structural)]
pub struct ClockRecord {
    /// External oscillator, where one is used
    pub hse_ck: Option<u32>,
    /// System clock
    pub sys_ck: u32,
    /// Outputs of each PLL
    pub pll1: PllOutputs,
    pub pll2: PllOutputs,
    pub pll3: PllOutputs,
}

/// Frozen core clock frequencies. Only freezing an `Rcc` creates one.
pub struct CoreClocks {
    record: ClockRecord,
}

impl CoreClocks {
    /// The achieved frequencies.
    pub closed spec fn view(&self) -> ClockRecord {
        self.record
    }

    /// Returns the frequency of the external oscillator, if used.
    pub fn hse_ck(&self) -> (r: Option<u32>)
        ensures
            r == self@.hse_ck,
    {
        self.record.hse_ck
    }

    /// Returns the system clock frequency.
    pub fn sys_ck(&self) -> (r: u32)
        ensures
            r == self@.sys_ck,
    {
        self.record.sys_ck
    }

    /// Returns `pll1_p_ck`, if running.
    pub fn pll1_p_ck(&self) -> (r: Option<u32>)
        ensures
            r == self@.pll1.p_ck,
    {
        self.record.pll1.p_ck
    }

    /// Returns `pll1_q_ck`, if running.
    pub fn pll1_q_ck(&self) -> (r: Option<u32>)
        ensures
            r == self@.pll1.q_ck,
    {
        self.record.pll1.q_ck
    }

    /// Returns `pll1_r_ck`, if running.
    pub fn pll1_r_ck(&self) -> (r: Option<u32>)
        ensures
            r == self@.pll1.r_ck,
    {
        self.record.pll1.r_ck
    }

    /// Returns `pll2_p_ck`, if running.
    pub fn pll2_p_ck(&self) -> (r: Option<u32>)
        ensures
            r == self@.pll2.p_ck,
    {
        self.record.pll2.p_ck
    }

    /// Returns `pll2_q_ck`, if running.
    pub fn pll2_q_ck(&self) -> (r: Option<u32>)
        ensures
            r == self@.pll2.q_ck,
    {
        self.record.pll2.q_ck
    }

    /// Returns `pll2_r_ck`, if running.
    pub fn pll2_r_ck(&self) -> (r: Option<u32>)
        ensures
            r == self@.pll2.r_ck,
    {
        self.record.pll2.r_ck
    }

    /// Returns `pll3_p_ck`, if running.
    pub fn pll3_p_ck(&self) -> (r: Option<u32>)
        ensures
            r == self@.pll3.p_ck,
    {
        self.record.pll3.p_ck
    }

    /// Returns `pll3_q_ck`, if running.
    pub fn pll3_q_ck(&self) -> (r: Option<u32>)
        ensures
            r == self@.pll3.q_ck,
    {
        self.record.pll3.q_ck
    }

    /// Returns `pll3_r_ck`, if running.
    pub fn pll3_r_ck(&self) -> (r: Option<u32>)
        ensures
            r == self@.pll3.r_ck,
    {
        self.record.pll3.r_ck
    }
}

/// Why a configuration cannot be frozen.
#[derive(Copy, Clone, Debug, PartialEq, Eq, Structural)]
pub enum ClockError {
    /// The system clock needs PLL1's P output, which was explicitly set to
    /// another frequency.
    ConflictingSettings,
    /// A PLL cannot produce its requested outputs.
    Pll(PllId, PllError),
}

/// Whether the system clock must come from PLL1's P output: it is neither
/// the oscillator that feeds the PLLs nor HSI, which always runs.
pub open spec fn sys_ck_from_pll1(c: Config) -> bool {
    match resolve_spec(c).sys_ck {
        Some(f) => f != pll_source(c) && f != HSI,
        None => false,
    }
}

/// The system clock frequency where no PLL produces it: the requested one
/// (the PLL source or HSI), else the PLL source.
pub open spec fn sys_ck_direct(c: Config) -> u32 {
    match resolve_spec(c).sys_ck {
        Some(f) => f,
        None => pll_source(c) as u32,
    }
}

/// What freezing configuration `c` gives.
pub open spec fn freeze_spec(c: Config) -> Result<ClockRecord, ClockError> {
    let t = resolve_spec(c);
    let (r1, r2, r3) = plls_spec(c);
    if sys_ck_from_pll1(c) && t.pll1.p_ck != t.sys_ck {
        Err(ClockError::ConflictingSettings)
    } else {
        match (r1, r2, r3) {
            (Err(e), _, _) => Err(ClockError::Pll(PllId::Pll1, e)),
            (Ok(_), Err(e), _) => Err(ClockError::Pll(PllId::Pll2, e)),
            (Ok(_), Ok(_), Err(e)) => Err(ClockError::Pll(PllId::Pll3, e)),
            (Ok(o1), Ok(o2), Ok(o3)) => Ok(
                ClockRecord {
                    hse_ck: c.hse,
                    sys_ck: if sys_ck_from_pll1(c) {
                        o1.p_ck->Some_0
                    } else {
                        sys_ck_direct(c)
                    },
                    pll1: o1,
                    pll2: o2,
                    pll3: o3,
                },
            ),
        }
    }
}

/// Peripherals whose clock gating the clock tree hands out.
#[derive(Copy, Clone, Debug, PartialEq, Eq, Structural)]
pub enum Peripheral {
    Qspi,
    Fdcan,
}

/// Enable and reset control of one peripheral. A `Ccdr` hands out one for
/// each peripheral, once; whoever holds it alone gates that peripheral.
pub struct PeripheralRec {
    kind: Peripheral,
    enabled: bool,
}

impl PeripheralRec {
    /// The peripheral and whether its clock is enabled.
    pub closed spec fn view(&self) -> (Peripheral, bool) {
        (self.kind, self.enabled)
    }

    /// Which peripheral this handle controls.
    pub fn kind(&self) -> (r: Peripheral)
        ensures
            r == self@.0,
    {
        self.kind
    }

    /// Whether the peripheral's clock is enabled.
    pub fn is_enabled(&self) -> (r: bool)
        ensures
            r == self@.1,
    {
        self.enabled
    }

    /// Enables the peripheral's clock.
    pub fn enable(self) -> (r: PeripheralRec)
        ensures
            r@ == (self@.0, true),
    {
        PeripheralRec { kind: self.kind, enabled: true }
    }

    /// Disables the peripheral's clock.
    pub fn disable(self) -> (r: PeripheralRec)
        ensures
            r@ == (self@.0, false),
    {
        PeripheralRec { kind: self.kind, enabled: false }
    }

    /// Resets the peripheral; its clock stays as it was.
    pub fn reset(self) -> (r: PeripheralRec)
        ensures
            r@ == self@,
    {
        self
    }
}

/// Core Clock Distribution and Reset (CCDR): the frozen clocks, and the
/// enable/reset handles of the peripherals not yet handed out.
pub struct Ccdr {
    clocks: CoreClocks,
    qspi: bool,
    fdcan: bool,
}

impl Ccdr {
    /// The frozen clock frequencies.
    pub closed spec fn view(&self) -> ClockRecord {
        self.clocks@
    }

    /// The frozen core clocks, to pass to whatever needs their frequencies.
    pub fn clocks(&self) -> (r: &CoreClocks)
        ensures
            r@ == self@,
    {
        &self.clocks
    }

    /// Whether the handle of `p` is still held here.
    pub closed spec fn holds(&self, p: Peripheral) -> bool {
        match p {
            Peripheral::Qspi => self.qspi,
            Peripheral::Fdcan => self.fdcan,
        }
    }

    /// Hands out the enable/reset handle of `p`, with its clock disabled, if
    /// it is still held here; it is held no more afterwards.
    pub fn take(&mut self, p: Peripheral) -> (r: Option<PeripheralRec>)
        ensures
            r is Some <==> old(self).holds(p),
            r matches Some(h) ==> h@ == (p, false),
            !final(self).holds(p),
            forall|o: Peripheral| o != p ==> final(self).holds(o) == old(self).holds(o),
            final(self)@ == old(self)@,
    {
        match p {
            Peripheral::Qspi => {
                if self.qspi {
                    self.qspi = false;
                    Some(PeripheralRec { kind: p, enabled: false })
                } else {
                    None
                }
            },
            Peripheral::Fdcan => {
                if self.fdcan {
                    self.fdcan = false;
                    Some(PeripheralRec { kind: p, enabled: false })
                } else {
                    None
                }
            },
        }
    }
}

/// Constrained RCC peripheral: accumulates the requested clock settings.
pub struct Rcc {
    config: Config,
}

impl Rcc {
    /// The settings requested so far.
    pub closed spec fn view(&self) -> Config {
        self.config
    }

    /// An RCC with nothing requested.
    pub fn new() -> (r: Rcc)
        ensures
            r@ == empty_config(),
    {
        Rcc { config: Config::new() }
    }

    /// The settings requested so far.
    pub fn config(&self) -> (r: &Config)
        ensures
            *r == self@,
    {
        &self.config
    }

    /// Uses an external oscillator of frequency `freq`.
    pub fn use_hse(self, freq: u32) -> (r: Rcc)
        ensures
            r@ == (Config { hse: Some(freq), ..self@ }),
    {
        let mut c = self.config;
        c.hse = Some(freq);
        Rcc { config: c }
    }

    /// Bypasses the external oscillator: it is an external clock signal.
    pub fn bypass_hse(self) -> (r: Rcc)
        ensures
            r@ == (Config { bypass_hse: true, ..self@ }),
    {
        let mut c = self.config;
        c.bypass_hse = true;
        Rcc { config: c }
    }

    /// Requests the system clock at `freq`.
    pub fn sys_ck(self, freq: u32) -> (r: Rcc)
        ensures
            r@ == (Config { sys_ck: Some(freq), ..self@ }),
    {
        let mut c = self.config;
        c.sys_ck = Some(freq);
        Rcc { config: c }
    }

    /// Requests the peripheral clock at `freq`.
    pub fn per_ck(self, freq: u32) -> (r: Rcc)
        ensures
            r@ == (Config { per_ck: Some(freq), ..self@ }),
    {
        let mut c = self.config;
        c.per_ck = Some(freq);
        Rcc { config: c }
    }

    /// Requests the AHB clock at `freq`.
    pub fn hclk(self, freq: u32) -> (r: Rcc)
        ensures
            r@ == (Config { rcc_hclk: Some(freq), ..self@ }),
    {
        let mut c = self.config;
        c.rcc_hclk = Some(freq);
        Rcc { config: c }
    }

    /// Requests the APB1 clock at `freq`.
    pub fn pclk1(self, freq: u32) -> (r: Rcc)
        ensures
            r@ == (Config { rcc_pclk1: Some(freq), ..self@ }),
    {
        let mut c = self.config;
        c.rcc_pclk1 = Some(freq);
        Rcc { config: c }
    }

    /// Requests the APB2 clock at `freq`.
    pub fn pclk2(self, freq: u32) -> (r: Rcc)
        ensures
            r@ == (Config { rcc_pclk2: Some(freq), ..self@ }),
    {
        let mut c = self.config;
        c.rcc_pclk2 = Some(freq);
        Rcc { config: c }
    }

    /// Requests the APB3 clock at `freq`.
    pub fn pclk3(self, freq: u32) -> (r: Rcc)
        ensures
            r@ == (Config { rcc_pclk3: Some(freq), ..self@ }),
    {
        let mut c = self.config;
        c.rcc_pclk3 = Some(freq);
        Rcc { config: c }
    }

    /// Requests the APB4 clock at `freq`.
    pub fn pclk4(self, freq: u32) -> (r: Rcc)
        ensures
            r@ == (Config { rcc_pclk4: Some(freq), ..self@ }),
    {
        let mut c = self.config;
        c.rcc_pclk4 = Some(freq);
        Rcc { config: c }
    }

    /// Sets the strategy of PLL1.
    pub fn pll1_strategy(self, strategy: PllConfigStrategy) -> (r: Rcc)
        ensures
            r@ == (Config { pll1: PllConfig { strategy, ..self@.pll1 }, ..self@ }),
    {
        let mut c = self.config;
        c.pll1.strategy = strategy;
        Rcc { config: c }
    }

    /// Requests the P output of PLL1 at `freq`.
    pub fn pll1_p_ck(self, freq: u32) -> (r: Rcc)
        ensures
            r@ == (Config { pll1: PllConfig { p_ck: Some(freq), ..self@.pll1 }, ..self@ }),
    {
        let mut c = self.config;
        c.pll1.p_ck = Some(freq);
        Rcc { config: c }
    }

    /// Requests the Q output of PLL1 at `freq`.
    pub fn pll1_q_ck(self, freq: u32) -> (r: Rcc)
        ensures
            r@ == (Config { pll1: PllConfig { q_ck: Some(freq), ..self@.pll1 }, ..self@ }),
    {
        let mut c = self.config;
        c.pll1.q_ck = Some(freq);
        Rcc { config: c }
    }

    /// Requests the R output of PLL1 at `freq`.
    pub fn pll1_r_ck(self, freq: u32) -> (r: Rcc)
        ensures
            r@ == (Config { pll1: PllConfig { r_ck: Some(freq), ..self@.pll1 }, ..self@ }),
    {
        let mut c = self.config;
        c.pll1.r_ck = Some(freq);
        Rcc { config: c }
    }

    /// Sets the strategy of PLL2.
    pub fn pll2_strategy(self, strategy: PllConfigStrategy) -> (r: Rcc)
        ensures
            r@ == (Config { pll2: PllConfig { strategy, ..self@.pll2 }, ..self@ }),
    {
        let mut c = self.config;
        c.pll2.strategy = strategy;
        Rcc { config: c }
    }

    /// Requests the P output of PLL2 at `freq`.
    pub fn pll2_p_ck(self, freq: u32) -> (r: Rcc)
        ensures
            r@ == (Config { pll2: PllConfig { p_ck: Some(freq), ..self@.pll2 }, ..self@ }),
    {
        let mut c = self.config;
        c.pll2.p_ck = Some(freq);
        Rcc { config: c }
    }

    /// Requests the Q output of PLL2 at `freq`.
    pub fn pll2_q_ck(self, freq: u32) -> (r: Rcc)
        ensures
            r@ == (Config { pll2: PllConfig { q_ck: Some(freq), ..self@.pll2 }, ..self@ }),
    {
        let mut c = self.config;
        c.pll2.q_ck = Some(freq);
        Rcc { config: c }
    }

    /// Requests the R output of PLL2 at `freq`.
    pub fn pll2_r_ck(self, freq: u32) -> (r: Rcc)
        ensures
            r@ == (Config { pll2: PllConfig { r_ck: Some(freq), ..self@.pll2 }, ..self@ }),
    {
        let mut c = self.config;
        c.pll2.r_ck = Some(freq);
        Rcc { config: c }
    }

    /// Sets the strategy of PLL3.
    pub fn pll3_strategy(self, strategy: PllConfigStrategy) -> (r: Rcc)
        ensures
            r@ == (Config { pll3: PllConfig { strategy, ..self@.pll3 }, ..self@ }),
    {
        let mut c = self.config;
        c.pll3.strategy = strategy;
        Rcc { config: c }
    }

    /// Requests the P output of PLL3 at `freq`.
    pub fn pll3_p_ck(self, freq: u32) -> (r: Rcc)
        ensures
            r@ == (Config { pll3: PllConfig { p_ck: Some(freq), ..self@.pll3 }, ..self@ }),
    {
        let mut c = self.config;
        c.pll3.p_ck = Some(freq);
        Rcc { config: c }
    }

    /// Requests the Q output of PLL3 at `freq`.
    pub fn pll3_q_ck(self, freq: u32) -> (r: Rcc)
        ensures
            r@ == (Config { pll3: PllConfig { q_ck: Some(freq), ..self@.pll3 }, ..self@ }),
    {
        let mut c = self.config;
        c.pll3.q_ck = Some(freq);
        Rcc { config: c }
    }

    /// Requests the R output of PLL3 at `freq`.
    pub fn pll3_r_ck(self, freq: u32) -> (r: Rcc)
        ensures
            r@ == (Config { pll3: PllConfig { r_ck: Some(freq), ..self@.pll3 }, ..self@ }),
    {
        let mut c = self.config;
        c.pll3.r_ck = Some(freq);
        Rcc { config: c }
    }

    /// Resolves the configuration, configures the PLLs and records the
    /// achieved frequencies, consuming the RCC. Fails where the system clock
    /// conflicts with PLL1's P output or a PLL cannot produce its outputs.
    ///
    /// The system clock comes from the PLL source or HSI where it equals
    /// one of them, else from PLL1's P output. Bus prescalers are not solved
    /// here: the `hclk`, `pclk1` to `pclk4` and `per_ck` requests, and
    /// `bypass_hse`, are kept in the configuration but not configured, and
    /// the record holds no bus clock frequencies.
    pub fn freeze(self) -> (r: Result<Ccdr, ClockError>)
        ensures
            r is Ok <==> freeze_spec(self@) is Ok,
            r matches Ok(c) ==> c@ == freeze_spec(self@)->Ok_0 && c.holds(Peripheral::Qspi)
                && c.holds(Peripheral::Fdcan),
            r matches Err(e) ==> freeze_spec(self@) == Err::<ClockRecord, ClockError>(e),
    {
        let c = self.config;
        let t = c.resolve();
        let pllsrc = match c.hse {
            Some(f) => f,
            None => HSI,
        };
        let from_pll1 = match t.sys_ck {
            Some(f) => f != pllsrc && f != HSI,
            None => false,
        };
        if from_pll1 && t.pll1.p_ck != t.sys_ck {
            return Err(ClockError::ConflictingSettings);
        }
        let (r1, r2, r3) = c.pll_setups();
        let o1 = match r1 {
            Err(e) => {
                return Err(ClockError::Pll(PllId::Pll1, e));
            },
            Ok(o) => o,
        };
        let o2 = match r2 {
            Err(e) => {
                return Err(ClockError::Pll(PllId::Pll2, e));
            },
            Ok(o) => o,
        };
        let o3 = match r3 {
            Err(e) => {
                return Err(ClockError::Pll(PllId::Pll3, e));
            },
            Ok(o) => o,
        };
        let sys_ck = if from_pll1 {
            match o1.p_ck {
                Some(f) => f,
                None => pllsrc,
            }
        } else {
            match t.sys_ck {
                Some(f) => f,
                None => pllsrc,
            }
        };
        let record = ClockRecord { hse_ck: c.hse, sys_ck, pll1: o1, pll2: o2, pll3: o3 };
        Ok(Ccdr { clocks: CoreClocks { record }, qspi: true, fdcan: true })
    }
}

} // verus!
