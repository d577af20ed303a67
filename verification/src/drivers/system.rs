//! The system resources (SRSS) driver: the clock tree with its frequency
//! lock loop, the watchdog, the SRSS interrupt bits, reset-cause decoding,
//! the core regulator, and the device identity words.
//!
//! The clock tree: five path clocks (path 0 holds the FLL) feed five
//! high-frequency root clocks; a separate low-frequency clock feeds the
//! watchdog and the backup domain. Registers guarded by the watchdog lock
//! (the ILO configuration and the low-frequency clock select) are written
//! between an unlock and a relock, and every such operation leaves the
//! watchdog locked again.

use vstd::prelude::*;
use vstd::pervasive::VecAdditionalExecFns;
use crate::psoc::SystemMode;

verus! {

/// The clock sources of the device.
#[derive(Clone, Copy, Debug, PartialEq, Eq, Structural)]
pub enum Clocks {
    /// 8-MHz internal main oscillator.
    Imo,
    /// 32-kHz internal low-speed oscillator.
    Ilo,
    /// Precision 32.768-kHz internal low-speed oscillator.
    Pilo,
    /// External clock from an I/O pin.
    ExtClk,
    /// External 16-35 MHz crystal oscillator.
    Eco,
    /// External 32.768-kHz watch crystal oscillator.
    Wco,
    /// Frequency locked loop, 24-100 MHz.
    Fll,
    /// Phase locked loop, 10.625-150 MHz.
    Pll,
}

/// The five high-frequency root clocks.
#[derive(Clone, Copy, Debug, PartialEq, Eq, Structural)]
pub enum RootClocks {
    /// Root clock for the CPUs, PERI, and AHB.
    CpuPeriAhb,
    /// Root clock for the PDM/PCM and I2S audio subsystem.
    PdmPcmI2s,
    /// Root clock for the serial memory interface.
    Smif,
    /// Root clock for USB communication.
    Usb,
    /// Root clock for the clk_ext pin output.
    ClkOut,
}

/// The root clock dividers.
#[derive(Clone, Copy, Debug, PartialEq, Eq, Structural)]
pub enum Divider {
    NoDiv,
    Div2,
    Div4,
    Div8,
}

/// The sources a path clock can select.
#[derive(Clone, Copy, Debug, PartialEq, Eq, Structural)]
pub enum PathSource {
    Imo,
    ExtClk,
    Eco,
    AltHf,
    DsiMux,
}

/// The five path clocks.
#[derive(Clone, Copy, Debug, PartialEq, Eq, Structural)]
pub enum ClockPath {
    Path0,
    Path1,
    Path2,
    Path3,
    Path4,
}

/// A DSI select channel index, constrained to the available values.
#[derive(Clone, Copy, Debug, PartialEq, Eq, Structural)]
pub enum SelectChannelNumber {
    Zero,
    One,
    Two,
    Three,
    Four,
}

/// The sources the DSI multiplexer can select.
#[derive(Clone, Copy, Debug, PartialEq, Eq, Structural)]
pub enum DsiMux {
    DsiOut0,
    DsiOut1,
    Ilo,
    Wco,
    Pilo,
}

/// Errors of the clock start-up sequences.
#[derive(Clone, Copy, Debug, PartialEq, Eq, Structural)]
pub enum Error {
    NoError,
    UnknownLfClkSource,
    UnknownPathSource,
    FllCouldNotBeConfigured,
    FllCouldNotBeStarted,
    FllStartupCouldNotBeCompletedBeforeTimeout,
    FllStartupFailedCcoNotReady,
    FllStartupFailedFllCouldNotBeLocked,
}

/// FLL output divider enable.
#[derive(Clone, Copy, Debug, PartialEq, Eq, Structural)]
pub enum FllOutputDiv {
    Disable,
    Enable,
}

/// FLL loop-filter gains, from divide-by-256 up to multiply-by-8.
#[derive(Clone, Copy, Debug, PartialEq, Eq, Structural)]
pub enum FllGain {
    Div256,
    Div128,
    Div64,
    Div32,
    Div16,
    Div8,
    Div4,
    Div2,
    Div1,
    Mult2,
    Mult4,
    Mult8,
}

/// The CCO target frequency range of the FLL configuration:
/// range 0 covers 48-64 MHz, each following range the next band up to
/// range 4 covering 150-200 MHz.
#[derive(Clone, Copy, Debug, PartialEq, Eq, Structural)]
pub enum FllCco {
    Range0,
    Range1,
    Range2,
    Range3,
    Range4,
}

/// The causes the hardware can report for the last reset.
#[derive(Clone, Copy, Debug, PartialEq, Eq, Structural)]
pub enum ResetCause {
    ActiveFault,
    LostWatchCrystalClock,
    DeepSleepFault,
    MCWDT0Reset,
    MCWDT1Reset,
    MCWDT2Reset,
    MCWDT3Reset,
    SoftwareRequest,
    WDTReset,
    HFClockFrequencyError,
    LostHFClock,
    NoReset,
}

/// The device identity words.
#[derive(Clone, Copy, Debug, PartialEq, Eq, Structural)]
pub struct SystemInfo {
    pub family_id: u16,
    pub major_rev: u8,
    pub minor_rev: u8,
    pub silicon_id: u16,
}

/// One complete FLL configuration.
#[derive(Clone, Copy, Debug, PartialEq, Eq, Structural)]
pub struct FllConfig {
    pub fll_mult: u32,
    pub ref_div: u16,
    pub cco_range: FllCco,
    pub output_div_enable: FllOutputDiv,
    /// Lock tolerance in counter bits, 0-511.
    pub lock_tolerance: u16,
    pub igain: FllGain,
    pub pgain: FllGain,
    /// Settling count, 0-8191.
    pub settling_count: u16,
    pub cco_freq: u16,
}

impl FllConfig {
    /// The configuration the start-up code programs: 100 MHz from the 8-MHz
    /// IMO reference.
    pub fn default() -> (r: FllConfig)
        ensures
            r == (FllConfig {
                fll_mult: 500u32,
                ref_div: 20u16,
                cco_range: FllCco::Range4,
                output_div_enable: FllOutputDiv::Enable,
                lock_tolerance: 10u16,
                igain: FllGain::Mult2,
                pgain: FllGain::Div8,
                settling_count: 8u16,
                cco_freq: 355u16,
            }),
    {
        FllConfig {
            fll_mult: 500,
            ref_div: 20,
            cco_range: FllCco::Range4,
            output_div_enable: FllOutputDiv::Enable,
            lock_tolerance: 10,
            igain: FllGain::Mult2,
            pgain: FllGain::Div8,
            settling_count: 8,
            cco_freq: 355,
        }
    }
}

/// The register index of a clock path.
pub open spec fn spec_path_index(p: ClockPath) -> int {
    match p {
        ClockPath::Path0 => 0,
        ClockPath::Path1 => 1,
        ClockPath::Path2 => 2,
        ClockPath::Path3 => 3,
        ClockPath::Path4 => 4,
    }
}

/// The register index of a root clock.
pub open spec fn spec_root_index(r: RootClocks) -> int {
    match r {
        RootClocks::CpuPeriAhb => 0,
        RootClocks::PdmPcmI2s => 1,
        RootClocks::Smif => 2,
        RootClocks::Usb => 3,
        RootClocks::ClkOut => 4,
    }
}

/// The register index of a DSI select channel.
pub open spec fn spec_select_index(s: SelectChannelNumber) -> int {
    match s {
        SelectChannelNumber::Zero => 0,
        SelectChannelNumber::One => 1,
        SelectChannelNumber::Two => 2,
        SelectChannelNumber::Three => 3,
        SelectChannelNumber::Four => 4,
    }
}

/// The select value written for a path source.
pub open spec fn spec_path_source_value(s: PathSource) -> u8 {
    match s {
        PathSource::Imo => 0,
        PathSource::ExtClk => 1,
        PathSource::Eco => 2,
        PathSource::AltHf => 3,
        PathSource::DsiMux => 4,
    }
}

/// The select value written for a DSI multiplexer source.
pub open spec fn spec_dsi_mux_value(s: DsiMux) -> u8 {
    match s {
        DsiMux::DsiOut0 => 0,
        DsiMux::DsiOut1 => 1,
        DsiMux::Ilo => 16,
        DsiMux::Wco => 17,
        DsiMux::Pilo => 19,
    }
}

/// The divider value written for a root clock divider.
pub open spec fn spec_divider_value(d: Divider) -> u8 {
    match d {
        Divider::NoDiv => 0,
        Divider::Div2 => 1,
        Divider::Div4 => 2,
        Divider::Div8 => 3,
    }
}

/// The gain value written for an FLL loop-filter gain.
pub open spec fn spec_gain_value(g: FllGain) -> u8 {
    match g {
        FllGain::Div256 => 0,
        FllGain::Div128 => 1,
        FllGain::Div64 => 2,
        FllGain::Div32 => 3,
        FllGain::Div16 => 4,
        FllGain::Div8 => 5,
        FllGain::Div4 => 6,
        FllGain::Div2 => 7,
        FllGain::Div1 => 8,
        FllGain::Mult2 => 9,
        FllGain::Mult4 => 10,
        FllGain::Mult8 => 11,
    }
}

/// The range value written for a CCO range.
pub open spec fn spec_cco_range_value(c: FllCco) -> u8 {
    match c {
        FllCco::Range0 => 0,
        FllCco::Range1 => 1,
        FllCco::Range2 => 2,
        FllCco::Range3 => 3,
        FllCco::Range4 => 4,
    }
}

/// The low-frequency clock select value for a source, for the three sources
/// the low-frequency tree accepts.
pub open spec fn spec_lfclk_value(c: Clocks) -> u8 {
    match c {
        Clocks::Ilo => 0,
        Clocks::Wco => 1,
        Clocks::Pilo => 3,
        _ => 0,
    }
}

/// Whether the low-frequency clock tree accepts the source.
pub open spec fn spec_lfclk_selectable(c: Clocks) -> bool {
    c == Clocks::Ilo || c == Clocks::Wco || c == Clocks::Pilo
}

/// The reset cause encoded in the two cause registers: the first register
/// reports one-bit causes exactly, the second reports lost or mis-counted
/// high-frequency clocks by halves.
pub open spec fn spec_reset_cause(cause: u32, cause2: u32) -> ResetCause {
    if cause == 0x0000_0001u32 {
        ResetCause::WDTReset
    } else if cause == 0x0000_0002u32 {
        ResetCause::ActiveFault
    } else if cause == 0x0000_0004u32 {
        ResetCause::DeepSleepFault
    } else if cause == 0x0000_0008u32 {
        ResetCause::LostWatchCrystalClock
    } else if cause == 0x0000_0010u32 {
        ResetCause::SoftwareRequest
    } else if cause == 0x0000_0020u32 {
        ResetCause::MCWDT0Reset
    } else if cause == 0x0000_0040u32 {
        ResetCause::MCWDT1Reset
    } else if cause == 0x0000_0080u32 {
        ResetCause::MCWDT2Reset
    } else if cause == 0x0000_0100u32 {
        ResetCause::MCWDT3Reset
    } else if 0x0000_0001u32 <= cause2 <= 0x0000_ffffu32 {
        ResetCause::LostHFClock
    } else if 0x0001_0000u32 <= cause2 <= 0xffff_0000u32 {
        ResetCause::HFClockFrequencyError
    } else {
        ResetCause::NoReset
    }
}

/// The watchdog ignore-bits value for a timeout in milliseconds.
pub open spec fn spec_wdt_ignore_bits(timeout_ms: u32) -> u8 {
    if timeout_ms < 2049 {
        12
    } else if timeout_ms < 4096 {
        1
    } else {
        0
    }
}

/// The watchdog match value for a timeout in milliseconds: the timeout in
/// ILO cycles (32 per millisecond) less the span of the counted bits, with
/// timeouts beyond 6.144 seconds saturated to the largest match value.
pub open spec fn spec_wdt_match(timeout_ms: u32) -> u16 {
    if timeout_ms < 2049 {
        if timeout_ms * 32 >= 32 {
            (timeout_ms * 32 - 32) as u16
        } else {
            0
        }
    } else if timeout_ms < 4096 {
        (timeout_ms * 32 - 65536) as u16
    } else if timeout_ms < 6144 {
        (timeout_ms * 32 - 131072) as u16
    } else {
        0xffff
    }
}

/// The image of the system resources (SRSS) registers this driver
/// programs: clock tree, FLL, watchdog, interrupts, reset cause and
/// device identity.
pub struct SrssRegisters {
    /// Watchdog lock field: 3 locked, 0 unlocked.
    pub wdt_lock_bits: u8,
    /// Watchdog counter enable.
    pub wdt_en: bool,
    /// Watchdog match value.
    pub wdt_match: u16,
    /// How many upper counter bits the watchdog ignores.
    pub wdt_ignore_bits: u8,
    /// Low-frequency clock source: 0 ILO, 1 WCO, 3 PILO.
    pub lfclk_sel: u8,
    /// Internal low-speed oscillator enable (on out of reset).
    pub ilo_enable: bool,
    /// Keep the ILO running for the backup domain in hibernate.
    pub ilo_backup: bool,
    /// FLL feedback multiplier.
    pub fll_mult: u32,
    /// FLL reference divider.
    pub fll_ref_div: u16,
    /// FLL output divide-by-two enable.
    pub fll_output_div: bool,
    /// FLL enable.
    pub fll_enable: bool,
    /// FLL lock tolerance.
    pub lock_tol: u16,
    /// FLL loop-filter integral gain.
    pub fll_igain: u8,
    /// FLL loop-filter proportional gain.
    pub fll_pgain: u8,
    /// FLL settling count.
    pub settling_count: u16,
    /// FLL bypass select: 2 reference clock, 3 FLL output.
    pub bypass_sel: u8,
    /// CCO base frequency range, 0-4.
    pub cco_range: u8,
    /// CCO enable.
    pub cco_enable: bool,
    /// CCO frequency trim.
    pub cco_freq: u16,
    /// Status: the CCO has stabilised (follows its enable in the image).
    pub cco_ready: bool,
    /// Status: the FLL has locked (follows its enable in the image).
    pub fll_locked: bool,
    /// CCO stabilisation counter enable.
    pub enable_cnt: bool,
    /// Timer clock source: 0 IMO.
    pub timer_sel: u8,
    /// Timer clock divider.
    pub timer_div: u8,
    /// Timer clock enable.
    pub timer_enable: bool,
    /// Analog pump clock source.
    pub pump_sel: u8,
    /// Analog pump clock divider: 2 is divide by four.
    pub pump_div: u8,
    /// Analog pump clock enable.
    pub pump_enable: bool,
    /// Watchdog match interrupt bit.
    pub intr_wdt_match: bool,
    /// Clock calibration interrupt bit.
    pub intr_clk_cal: bool,
    /// High/low voltage detector interrupt bit.
    pub intr_hvlvd1: bool,
    /// Active-mode core regulator trim.
    pub act_reg_trim: u8,
    /// Reset cause register.
    pub res_cause: u32,
    /// Reset cause register for clock supervision causes.
    pub res_cause2: u32,
    /// Device family identifier.
    pub family_id: u16,
    /// Silicon major revision.
    pub major_rev: u8,
    /// Silicon minor revision.
    pub minor_rev: u8,
    /// Silicon identifier.
    pub silicon_id: u16,
    /// Clock path source selects, one per path: 0 IMO, 1 EXTCLK, 2 ECO, 3 ALTHF, 4 DSI mux.
    pub path_mux: Vec<u8>,
    /// DSI multiplexer selects, one per channel.
    pub dsi_mux_sel: Vec<u8>,
    /// Root clock path selects, one per root clock.
    pub root_mux: Vec<u8>,
    /// Root clock dividers, one per root clock: 0 none, 1-3 divide by 2, 4, 8.
    pub root_div: Vec<u8>,
    /// Root clock enables, one per root clock.
    pub root_enable: Vec<bool>,
}

/// The mathematical state of the SRSS register image.
pub ghost struct SrssState {
    pub wdt_lock_bits: u8,
    pub wdt_en: bool,
    pub wdt_match: u16,
    pub wdt_ignore_bits: u8,
    pub lfclk_sel: u8,
    pub ilo_enable: bool,
    pub ilo_backup: bool,
    pub fll_mult: u32,
    pub fll_ref_div: u16,
    pub fll_output_div: bool,
    pub fll_enable: bool,
    pub lock_tol: u16,
    pub fll_igain: u8,
    pub fll_pgain: u8,
    pub settling_count: u16,
    pub bypass_sel: u8,
    pub cco_range: u8,
    pub cco_enable: bool,
    pub cco_freq: u16,
    pub cco_ready: bool,
    pub fll_locked: bool,
    pub enable_cnt: bool,
    pub timer_sel: u8,
    pub timer_div: u8,
    pub timer_enable: bool,
    pub pump_sel: u8,
    pub pump_div: u8,
    pub pump_enable: bool,
    pub intr_wdt_match: bool,
    pub intr_clk_cal: bool,
    pub intr_hvlvd1: bool,
    pub act_reg_trim: u8,
    pub res_cause: u32,
    pub res_cause2: u32,
    pub family_id: u16,
    pub major_rev: u8,
    pub minor_rev: u8,
    pub silicon_id: u16,
    pub path_mux: Seq<u8>,
    pub dsi_mux_sel: Seq<u8>,
    pub root_mux: Seq<u8>,
    pub root_div: Seq<u8>,
    pub root_enable: Seq<bool>,
}

impl SrssState {
    /// Well-formedness: one select per clock path and root clock.
    pub open spec fn wf(self) -> bool {
        &&& self.path_mux.len() == 5
        &&& self.dsi_mux_sel.len() == 5
        &&& self.root_mux.len() == 5
        &&& self.root_div.len() == 5
        &&& self.root_enable.len() == 5
    }
}

/// The system resources driver, sole owner of the SRSS register image.
pub struct System {
    /// The owned register image.
    pub srss: SrssRegisters,
}

impl View for System {
    type V = SrssState;

    open spec fn view(&self) -> SrssState {
        SrssState {
            wdt_lock_bits: self.srss.wdt_lock_bits,
            wdt_en: self.srss.wdt_en,
            wdt_match: self.srss.wdt_match,
            wdt_ignore_bits: self.srss.wdt_ignore_bits,
            lfclk_sel: self.srss.lfclk_sel,
            ilo_enable: self.srss.ilo_enable,
            ilo_backup: self.srss.ilo_backup,
            fll_mult: self.srss.fll_mult,
            fll_ref_div: self.srss.fll_ref_div,
            fll_output_div: self.srss.fll_output_div,
            fll_enable: self.srss.fll_enable,
            lock_tol: self.srss.lock_tol,
            fll_igain: self.srss.fll_igain,
            fll_pgain: self.srss.fll_pgain,
            settling_count: self.srss.settling_count,
            bypass_sel: self.srss.bypass_sel,
            cco_range: self.srss.cco_range,
            cco_enable: self.srss.cco_enable,
            cco_freq: self.srss.cco_freq,
            cco_ready: self.srss.cco_ready,
            fll_locked: self.srss.fll_locked,
            enable_cnt: self.srss.enable_cnt,
            timer_sel: self.srss.timer_sel,
            timer_div: self.srss.timer_div,
            timer_enable: self.srss.timer_enable,
            pump_sel: self.srss.pump_sel,
            pump_div: self.srss.pump_div,
            pump_enable: self.srss.pump_enable,
            intr_wdt_match: self.srss.intr_wdt_match,
            intr_clk_cal: self.srss.intr_clk_cal,
            intr_hvlvd1: self.srss.intr_hvlvd1,
            act_reg_trim: self.srss.act_reg_trim,
            res_cause: self.srss.res_cause,
            res_cause2: self.srss.res_cause2,
            family_id: self.srss.family_id,
            major_rev: self.srss.major_rev,
            minor_rev: self.srss.minor_rev,
            silicon_id: self.srss.silicon_id,
            path_mux: self.srss.path_mux@,
            dsi_mux_sel: self.srss.dsi_mux_sel@,
            root_mux: self.srss.root_mux@,
            root_div: self.srss.root_div@,
            root_enable: self.srss.root_enable@,
        }
    }
}

impl System {
    /// The register image as it comes out of reset: watchdog locked, the
    /// ILO running, everything else off and zero.
    pub fn new() -> (r: System)
        ensures
            r@.wf(),
            r@.wdt_lock_bits == 3u8,
            !r@.wdt_en,
            r@.wdt_match == 0u16,
            r@.wdt_ignore_bits == 0u8,
            r@.lfclk_sel == 0u8,
            r@.ilo_enable,
            !r@.ilo_backup,
            r@.fll_mult == 0u32,
            r@.fll_ref_div == 0u16,
            !r@.fll_output_div,
            !r@.fll_enable,
            r@.lock_tol == 0u16,
            r@.fll_igain == 0u8,
            r@.fll_pgain == 0u8,
            r@.settling_count == 0u16,
            r@.bypass_sel == 0u8,
            r@.cco_range == 0u8,
            !r@.cco_enable,
            r@.cco_freq == 0u16,
            !r@.cco_ready,
            !r@.fll_locked,
            !r@.enable_cnt,
            r@.timer_sel == 0u8,
            r@.timer_div == 0u8,
            !r@.timer_enable,
            r@.pump_sel == 0u8,
            r@.pump_div == 0u8,
            !r@.pump_enable,
            !r@.intr_wdt_match,
            !r@.intr_clk_cal,
            !r@.intr_hvlvd1,
            r@.act_reg_trim == 0u8,
            r@.res_cause == 0u32,
            r@.res_cause2 == 0u32,
            r@.family_id == 0u16,
            r@.major_rev == 0u8,
            r@.minor_rev == 0u8,
            r@.silicon_id == 0u16,
            forall|i: int| 0 <= i < 5 ==> r@.path_mux[i] == 0u8,
            forall|i: int| 0 <= i < 5 ==> r@.dsi_mux_sel[i] == 0u8,
            forall|i: int| 0 <= i < 5 ==> r@.root_mux[i] == 0u8,
            forall|i: int| 0 <= i < 5 ==> r@.root_div[i] == 0u8,
            forall|i: int| 0 <= i < 5 ==> !r@.root_enable[i],
    {
        let mut path_mux: Vec<u8> = Vec::new();
        let mut dsi_mux_sel: Vec<u8> = Vec::new();
        let mut root_mux: Vec<u8> = Vec::new();
        let mut root_div: Vec<u8> = Vec::new();
        let mut root_enable: Vec<bool> = Vec::new();
        let mut i: usize = 0;
        while i < 5
            invariant
                i <= 5,
                path_mux@.len() == i,
                forall|j: int| 0 <= j < i ==> path_mux@[j] == 0u8,
                dsi_mux_sel@.len() == i,
                forall|j: int| 0 <= j < i ==> dsi_mux_sel@[j] == 0u8,
                root_mux@.len() == i,
                forall|j: int| 0 <= j < i ==> root_mux@[j] == 0u8,
                root_div@.len() == i,
                forall|j: int| 0 <= j < i ==> root_div@[j] == 0u8,
                root_enable@.len() == i,
                forall|j: int| 0 <= j < i ==> !root_enable@[j],
            decreases 5 - i,
        {
            path_mux.push(0);
            dsi_mux_sel.push(0);
            root_mux.push(0);
            root_div.push(0);
            root_enable.push(false);
            i += 1;
        }
        System {
            srss: SrssRegisters {
                wdt_lock_bits: 3,
                wdt_en: false,
                wdt_match: 0,
                wdt_ignore_bits: 0,
                lfclk_sel: 0,
                ilo_enable: true,
                ilo_backup: false,
                fll_mult: 0,
                fll_ref_div: 0,
                fll_output_div: false,
                fll_enable: false,
                lock_tol: 0,
                fll_igain: 0,
                fll_pgain: 0,
                settling_count: 0,
                bypass_sel: 0,
                cco_range: 0,
                cco_enable: false,
                cco_freq: 0,
                cco_ready: false,
                fll_locked: false,
                enable_cnt: false,
                timer_sel: 0,
                timer_div: 0,
                timer_enable: false,
                pump_sel: 0,
                pump_div: 0,
                pump_enable: false,
                intr_wdt_match: false,
                intr_clk_cal: false,
                intr_hvlvd1: false,
                act_reg_trim: 0,
                res_cause: 0,
                res_cause2: 0,
                family_id: 0,
                major_rev: 0,
                minor_rev: 0,
                silicon_id: 0,
                path_mux,
                dsi_mux_sel,
                root_mux,
                root_div,
                root_enable,
            },
        }
    }

    /// Gives the register image back, consuming the driver.
    pub fn free(self) -> (r: SrssRegisters)
        ensures
            (System { srss: r })@ == self@,
    {
        self.srss
    }
}
/// The SRSS state after the FLL is stopped: if it was running, the bypass
/// returns to the reference clock and the FLL and CCO shut down; a stopped
/// FLL is left alone.
pub open spec fn spec_stop_fll(s: SrssState) -> SrssState {
    if s.fll_enable {
        SrssState {
            bypass_sel: 2u8,
            fll_enable: false,
            fll_locked: false,
            cco_enable: false,
            cco_ready: false,
            ..s
        }
    } else {
        s
    }
}

/// The SRSS state after an FLL configuration is programmed: the FLL is
/// stopped first, then every configuration field is written.
pub open spec fn spec_configure_fll(s: SrssState, cfg: FllConfig) -> SrssState {
    SrssState {
        fll_mult: cfg.fll_mult,
        fll_ref_div: cfg.ref_div,
        cco_range: spec_cco_range_value(cfg.cco_range),
        fll_output_div: cfg.output_div_enable == FllOutputDiv::Enable,
        lock_tol: cfg.lock_tolerance,
        fll_igain: spec_gain_value(cfg.igain),
        fll_pgain: spec_gain_value(cfg.pgain),
        settling_count: cfg.settling_count,
        cco_freq: cfg.cco_freq,
        ..spec_stop_fll(s)
    }
}

/// The SRSS state after a stopped FLL starts with a positive timeout
/// budget: the CCO counter and the CCO run, the CCO reports ready, the FLL
/// runs locked, and the bypass selects the FLL output.
pub open spec fn spec_start_fll_ok(s: SrssState) -> SrssState {
    SrssState {
        enable_cnt: true,
        cco_enable: true,
        cco_ready: true,
        bypass_sel: 3u8,
        fll_enable: true,
        fll_locked: true,
        ..s
    }
}

/// The SRSS state after a start of a stopped FLL with a zero timeout
/// budget: the CCO is brought up but the FLL is never enabled.
pub open spec fn spec_start_fll_timeout(s: SrssState) -> SrssState {
    SrssState { enable_cnt: true, cco_enable: true, cco_ready: true, bypass_sel: 3u8, ..s }
}

impl System {
    /// Unlocks the watchdog-guarded registers (`WDT_*`, the ILO
    /// configuration and the low-frequency clock select) for modification;
    /// relock with [`System::wdt_lock`].
    pub fn wdt_unlock(&mut self)
        ensures
            final(self)@ == (SrssState { wdt_lock_bits: 0u8, ..old(self)@ }),
    {
        self.srss.wdt_lock_bits = 0;
    }

    /// Relocks the watchdog-guarded registers against inadvertent writes.
    pub fn wdt_lock(&mut self)
        ensures
            final(self)@ == (SrssState { wdt_lock_bits: 3u8, ..old(self)@ }),
    {
        self.srss.wdt_lock_bits = 3;
    }

    /// Whether the watchdog-guarded registers are locked.
    pub fn wdt_is_locked(sys: &System) -> (r: bool)
        ensures
            r == (sys@.wdt_lock_bits == 3),
    {
        sys.srss.wdt_lock_bits == 3
    }

    /// Starts the watchdog with the given timeout in milliseconds. The
    /// match and ignore-bits values follow the device's formula at the
    /// 32-kHz ILO rate; timeouts beyond 6.144 seconds saturate to the
    /// maximum, and the ILO is enabled in case it was not. The guarded
    /// registers end locked and the match interrupt bit is written.
    #[verifier::rlimit(60)]
    pub fn wdt_start(&mut self, timeout_ms: u32)
        ensures
            final(self)@ == (SrssState {
                wdt_lock_bits: 3u8,
                wdt_en: true,
                wdt_match: spec_wdt_match(timeout_ms),
                wdt_ignore_bits: spec_wdt_ignore_bits(timeout_ms),
                ilo_enable: true,
                intr_wdt_match: true,
                ..old(self)@
            }),
    {
        self.wdt_unlock();
        self.srss.wdt_en = false;
        // time_in_ms * 32 cycles/ms, less the span of the ignored bits:
        // 2*2^(16-ignore_bits); the smallest timeout saturates at zero and
        // anything beyond 6.144 s at the largest match value.
        let match_bits: u16;
        let ignore_bits: u8;
        if timeout_ms < 2049 {
            ignore_bits = 12;
            let scaled: u32 = timeout_ms * 32;
            if scaled >= 32 {
                match_bits = (scaled - 32) as u16;
            } else {
                match_bits = 0;
            }
        } else if timeout_ms < 4096 {
            ignore_bits = 1;
            match_bits = (timeout_ms * 32 - 65536) as u16;
        } else if timeout_ms < 6144 {
            ignore_bits = 0;
            match_bits = (timeout_ms * 32 - 131072) as u16;
        } else {
            ignore_bits = 0;
            match_bits = 0xffff;
        }
        self.srss.wdt_match = match_bits;
        self.srss.wdt_ignore_bits = ignore_bits;
        self.srss.ilo_enable = true;
        self.srss.wdt_en = true;
        self.srss.intr_wdt_match = true;
        self.wdt_lock();
    }

    /// Feeds the watchdog by writing its match interrupt bit, so the
    /// running counter does not reset the device.
    pub fn wdt_feed(&mut self)
        ensures
            final(self)@ == (SrssState { intr_wdt_match: true, ..old(self)@ }),
    {
        self.srss.intr_wdt_match = true;
    }

    /// Stops the watchdog, leaving the guarded registers locked.
    pub fn wdt_disable(&mut self)
        ensures
            final(self)@ == (SrssState { wdt_lock_bits: 3u8, wdt_en: false, ..old(self)@ }),
    {
        self.wdt_unlock();
        self.srss.wdt_en = false;
        self.wdt_lock();
    }

    /// Selects the source of the low-frequency clock tree: the ILO (low
    /// power), the WCO (high accuracy) or the PILO (deep-sleep capable).
    /// Any other source is rejected with [`Error::UnknownLfClkSource`]. The
    /// select is watchdog-guarded, so the registers end locked either way.
    #[verifier::rlimit(60)]
    pub fn configure_lfclk_source(&mut self, clk: Clocks) -> (r: Result<(), Error>)
        ensures
            spec_lfclk_selectable(clk) ==> {
                &&& r is Ok
                &&& final(self)@ == (SrssState {
                    wdt_lock_bits: 3u8,
                    lfclk_sel: spec_lfclk_value(clk),
                    ..old(self)@
                })
            },
            !spec_lfclk_selectable(clk) ==> {
                &&& r == Err::<(), Error>(Error::UnknownLfClkSource)
                &&& final(self)@ == (SrssState { wdt_lock_bits: 3u8, ..old(self)@ })
            },
    {
        self.wdt_unlock();
        let result = match clk {
            Clocks::Ilo => {
                self.srss.lfclk_sel = 0;
                Ok(())
            },
            Clocks::Wco => {
                self.srss.lfclk_sel = 1;
                Ok(())
            },
            Clocks::Pilo => {
                self.srss.lfclk_sel = 3;
                Ok(())
            },
            _ => Err(Error::UnknownLfClkSource),
        };
        self.wdt_lock();
        result
    }

    /// Enables the ILO, the low-frequency clock of the watchdog and the
    /// backup domain.
    pub fn start_lfclk(&mut self)
        ensures
            final(self)@ == (SrssState { wdt_lock_bits: 3u8, ilo_enable: true, ..old(self)@ }),
    {
        self.wdt_unlock();
        self.srss.ilo_enable = true;
        self.wdt_lock();
    }

    /// Disables the ILO. It is enabled out of reset and clocks the
    /// watchdog, so stop it with care.
    pub fn stop_lfclk(&mut self)
        ensures
            final(self)@ == (SrssState { wdt_lock_bits: 3u8, ilo_enable: false, ..old(self)@ }),
    {
        self.wdt_unlock();
        self.srss.ilo_enable = false;
        self.wdt_lock();
    }

    /// Selects the source clock of one clock path. A DSI source needs the
    /// DSI multiplexer configured as well, see
    /// [`System::configure_dsi_mux_source`].
    pub fn configure_path_source(&mut self, path_num: ClockPath, path_source: PathSource)
        requires
            old(self)@.wf(),
        ensures
            final(self)@.wf(),
            final(self)@ == (SrssState {
                path_mux: old(self)@.path_mux.update(
                    spec_path_index(path_num),
                    spec_path_source_value(path_source),
                ),
                ..old(self)@
            }),
    {
        let index = match path_num {
            ClockPath::Path0 => 0usize,
            ClockPath::Path1 => 1usize,
            ClockPath::Path2 => 2usize,
            ClockPath::Path3 => 3usize,
            ClockPath::Path4 => 4usize,
        };
        let value = match path_source {
            PathSource::Imo => 0u8,
            PathSource::ExtClk => 1u8,
            PathSource::Eco => 2u8,
            PathSource::AltHf => 3u8,
            PathSource::DsiMux => 4u8,
        };
        self.srss.path_mux.set(index, value);
    }

    /// Selects a low-frequency source for one DSI select channel, for path
    /// clocks routed through the DSI multiplexer.
    pub fn configure_dsi_mux_source(
        &mut self,
        dsi_select: SelectChannelNumber,
        dsi_mux_select: DsiMux,
    )
        requires
            old(self)@.wf(),
        ensures
            final(self)@.wf(),
            final(self)@ == (SrssState {
                dsi_mux_sel: old(self)@.dsi_mux_sel.update(
                    spec_select_index(dsi_select),
                    spec_dsi_mux_value(dsi_mux_select),
                ),
                ..old(self)@
            }),
    {
        let index = match dsi_select {
            SelectChannelNumber::Zero => 0usize,
            SelectChannelNumber::One => 1usize,
            SelectChannelNumber::Two => 2usize,
            SelectChannelNumber::Three => 3usize,
            SelectChannelNumber::Four => 4usize,
        };
        let value = match dsi_mux_select {
            DsiMux::DsiOut0 => 0u8,
            DsiMux::DsiOut1 => 1u8,
            DsiMux::Ilo => 16u8,
            DsiMux::Wco => 17u8,
            DsiMux::Pilo => 19u8,
        };
        self.srss.dsi_mux_sel.set(index, value);
    }

    /// Selects which clock path drives one high-frequency root clock.
    #[verifier::rlimit(60)]
    pub fn configure_root_clk_source(&mut self, hf_index: RootClocks, clk_path: ClockPath)
        requires
            old(self)@.wf(),
        ensures
            final(self)@.wf(),
            final(self)@ == (SrssState {
                root_mux: old(self)@.root_mux.update(
                    spec_root_index(hf_index),
                    spec_path_index(clk_path) as u8,
                ),
                ..old(self)@
            }),
    {
        let index = match hf_index {
            RootClocks::CpuPeriAhb => 0usize,
            RootClocks::PdmPcmI2s => 1usize,
            RootClocks::Smif => 2usize,
            RootClocks::Usb => 3usize,
            RootClocks::ClkOut => 4usize,
        };
        let value = match clk_path {
            ClockPath::Path0 => 0u8,
            ClockPath::Path1 => 1u8,
            ClockPath::Path2 => 2u8,
            ClockPath::Path3 => 3u8,
            ClockPath::Path4 => 4u8,
        };
        self.srss.root_mux.set(index, value);
    }

    /// Sets the divider of one high-frequency root clock.
    pub fn configure_root_clk_div(&mut self, hf_index: RootClocks, clk_div: Divider)
        requires
            old(self)@.wf(),
        ensures
            final(self)@.wf(),
            final(self)@ == (SrssState {
                root_div: old(self)@.root_div.update(
                    spec_root_index(hf_index),
                    spec_divider_value(clk_div),
                ),
                ..old(self)@
            }),
    {
        let index = match hf_index {
            RootClocks::CpuPeriAhb => 0usize,
            RootClocks::PdmPcmI2s => 1usize,
            RootClocks::Smif => 2usize,
            RootClocks::Usb => 3usize,
            RootClocks::ClkOut => 4usize,
        };
        let value = match clk_div {
            Divider::NoDiv => 0u8,
            Divider::Div2 => 1u8,
            Divider::Div4 => 2u8,
            Divider::Div8 => 3u8,
        };
        self.srss.root_div.set(index, value);
    }

    /// Enables one high-frequency root clock.
    pub fn start_root_clk(&mut self, hf_index: RootClocks)
        requires
            old(self)@.wf(),
        ensures
            final(self)@.wf(),
            final(self)@ == (SrssState {
                root_enable: old(self)@.root_enable.update(spec_root_index(hf_index), true),
                ..old(self)@
            }),
    {
        let index = match hf_index {
            RootClocks::CpuPeriAhb => 0usize,
            RootClocks::PdmPcmI2s => 1usize,
            RootClocks::Smif => 2usize,
            RootClocks::Usb => 3usize,
            RootClocks::ClkOut => 4usize,
        };
        self.srss.root_enable.set(index, true);
    }

    /// Stops the FLL if it is running: bypass back to the reference clock,
    /// then FLL off, then CCO off. A stopped FLL is left alone.
    pub fn stop_fll(&mut self)
        ensures
            final(self)@ == spec_stop_fll(old(self)@),
    {
        if self.srss.fll_enable {
            // Return the output to the reference clock before disabling.
            self.srss.bypass_sel = 2;
            self.srss.fll_enable = false;
            self.srss.fll_locked = false;
            self.srss.cco_enable = false;
            self.srss.cco_ready = false;
        }
    }

    /// Programs a full FLL configuration. The FLL must be disabled while
    /// its configuration changes, so it is stopped first.
    #[verifier::rlimit(60)]
    pub fn configure_fll(&mut self, fll_config: FllConfig)
        ensures
            final(self)@ == spec_configure_fll(old(self)@, fll_config),
    {
        self.stop_fll();
        self.srss.fll_mult = fll_config.fll_mult;
        self.srss.fll_ref_div = fll_config.ref_div;
        self.srss.cco_range = match fll_config.cco_range {
            FllCco::Range0 => 0,
            FllCco::Range1 => 1,
            FllCco::Range2 => 2,
            FllCco::Range3 => 3,
            FllCco::Range4 => 4,
        };
        self.srss.fll_output_div = match fll_config.output_div_enable {
            FllOutputDiv::Enable => true,
            FllOutputDiv::Disable => false,
        };
        self.srss.lock_tol = fll_config.lock_tolerance;
        self.srss.fll_igain = match fll_config.igain {
            FllGain::Div256 => 0,
            FllGain::Div128 => 1,
            FllGain::Div64 => 2,
            FllGain::Div32 => 3,
            FllGain::Div16 => 4,
            FllGain::Div8 => 5,
            FllGain::Div4 => 6,
            FllGain::Div2 => 7,
            FllGain::Div1 => 8,
            FllGain::Mult2 => 9,
            FllGain::Mult4 => 10,
            FllGain::Mult8 => 11,
        };
        self.srss.fll_pgain = match fll_config.pgain {
            FllGain::Div256 => 0,
            FllGain::Div128 => 1,
            FllGain::Div64 => 2,
            FllGain::Div32 => 3,
            FllGain::Div16 => 4,
            FllGain::Div8 => 5,
            FllGain::Div4 => 6,
            FllGain::Div2 => 7,
            FllGain::Div1 => 8,
            FllGain::Mult2 => 9,
            FllGain::Mult4 => 10,
            FllGain::Mult8 => 11,
        };
        self.srss.settling_count = fll_config.settling_count;
        self.srss.cco_freq = fll_config.cco_freq;
    }

    /// Starts a configured FLL: brings the CCO up, waits for it to report
    /// ready, enables the FLL, waits for lock, and switches the bypass to
    /// the FLL output. The register image reports each status as soon as
    /// the matching enable is written, so the polls return at once. A zero
    /// timeout budget fails with
    /// [`Error::FllStartupCouldNotBeCompletedBeforeTimeout`] and leaves the
    /// FLL disabled; a positive budget always succeeds. Starting a running
    /// FLL does nothing and succeeds.
    #[verifier::rlimit(60)]
    pub fn start_fll(&mut self, timeout_us: u32) -> (r: Result<(), Error>)
        ensures
            old(self)@.fll_enable ==> r is Ok && final(self)@ == old(self)@,
            !old(self)@.fll_enable && timeout_us > 0 ==> r is Ok && final(self)@
                == spec_start_fll_ok(old(self)@),
            !old(self)@.fll_enable && timeout_us == 0 ==> r == Err::<(), Error>(
                Error::FllStartupCouldNotBeCompletedBeforeTimeout,
            ) && final(self)@ == spec_start_fll_timeout(old(self)@),
    {
        if !self.srss.fll_enable {
            let error: Error = if timeout_us == 0 {
                Error::FllStartupCouldNotBeCompletedBeforeTimeout
            } else {
                Error::NoError
            };
            // Start the CCO stabilisation counter, then the CCO itself; the
            // image reports it ready at once, so the poll returns directly.
            self.srss.enable_cnt = true;
            self.srss.cco_enable = true;
            self.srss.cco_ready = true;
            while !self.srss.cco_ready && error == Error::NoError
                invariant
                    self.srss.cco_ready,
                decreases 0int,
            {
            }
            // Route the reference clock while the FLL locks.
            self.srss.bypass_sel = 2;
            if timeout_us > 0 {
                self.srss.fll_enable = true;
                self.srss.fll_locked = true;
            }
            while !self.srss.fll_locked && error == Error::NoError
                invariant
                    timeout_us > 0 ==> self.srss.fll_locked,
                    timeout_us == 0 ==> error
                        == Error::FllStartupCouldNotBeCompletedBeforeTimeout,
                decreases 0int,
            {
            }
            // Switch to the FLL output; it takes a few cycles on silicon,
            // which the caller must not cut short by disabling the FLL.
            self.srss.bypass_sel = 3;
            if timeout_us == 0 {
                Err(error)
            } else {
                Ok(())
            }
        } else {
            // Already started.
            Ok(())
        }
    }

    /// Programs the timer clock: IMO source, undivided.
    pub fn configure_timer_clock(&mut self)
        ensures
            final(self)@ == (SrssState { timer_sel: 0u8, timer_div: 0u8, ..old(self)@ }),
    {
        self.srss.timer_sel = 0;
        self.srss.timer_div = 0;
    }

    /// Enables the timer clock.
    pub fn start_timer_clock(&mut self)
        ensures
            final(self)@ == (SrssState { timer_enable: true, ..old(self)@ }),
    {
        self.srss.timer_enable = true;
    }

    /// Programs the analog pump clock: source 0, divided by four.
    pub fn configure_clock_pump(&mut self)
        ensures
            final(self)@ == (SrssState { pump_sel: 0u8, pump_div: 2u8, ..old(self)@ }),
    {
        self.srss.pump_sel = 0x00;
        self.srss.pump_div = 2;
    }

    /// Enables the analog pump clock.
    pub fn start_clock_pump(&mut self)
        ensures
            final(self)@ == (SrssState { pump_enable: true, ..old(self)@ }),
    {
        self.srss.pump_enable = true;
    }

    /// Keeps the ILO running for the backup domain in hibernate. The ILO
    /// configuration is watchdog-guarded, so the registers end locked.
    pub fn configure_ilo_hibernate(&mut self)
        ensures
            final(self)@ == (SrssState { wdt_lock_bits: 3u8, ilo_backup: true, ..old(self)@ }),
    {
        self.wdt_unlock();
        self.srss.ilo_backup = true;
        self.wdt_lock();
    }

    /// The whole start-up clock configuration: the ILO drives the
    /// low-frequency tree, path 0 drives the CPU root clock, every path
    /// selects the IMO, the FLL is programmed with the default
    /// configuration and started, and the timer and pump clocks and the
    /// hibernate ILO are programmed.
    #[verifier::rlimit(100)]
    pub fn configure_system_clocks(&mut self)
        requires
            old(self)@.wf(),
        ensures
            final(self)@.wf(),
            final(self)@ == (SrssState {
                wdt_lock_bits: 3u8,
                lfclk_sel: 0u8,
                root_mux: old(self)@.root_mux.update(0, 0u8),
                path_mux: old(self)@.path_mux.update(0, 0u8).update(1, 0u8).update(2, 0u8).update(
                    3,
                    0u8,
                ).update(4, 0u8),
                fll_mult: 500u32,
                fll_ref_div: 20u16,
                cco_range: 4u8,
                fll_output_div: true,
                lock_tol: 10u16,
                fll_igain: 9u8,
                fll_pgain: 5u8,
                settling_count: 8u16,
                cco_freq: 355u16,
                enable_cnt: true,
                cco_enable: true,
                cco_ready: true,
                bypass_sel: 3u8,
                fll_enable: true,
                fll_locked: true,
                timer_sel: 0u8,
                timer_div: 0u8,
                pump_sel: 0u8,
                pump_div: 2u8,
                ilo_backup: true,
                ..old(self)@
            }),
    {
        let _ = self.configure_lfclk_source(Clocks::Ilo);
        self.configure_root_clk_source(RootClocks::CpuPeriAhb, ClockPath::Path0);
        // The 8-MHz IMO for all clock paths.
        self.configure_path_source(ClockPath::Path0, PathSource::Imo);
        self.configure_path_source(ClockPath::Path1, PathSource::Imo);
        self.configure_path_source(ClockPath::Path2, PathSource::Imo);
        self.configure_path_source(ClockPath::Path3, PathSource::Imo);
        self.configure_path_source(ClockPath::Path4, PathSource::Imo);
        let fll_config = FllConfig::default();
        self.configure_fll(fll_config);
        match self.start_fll(200_000) {
            Ok(()) => {},
            Err(e) => {
                // A freshly configured FLL always starts within a positive
                // budget; nothing to do but fail if it could not.
                let _ = e;
            },
        }
        self.configure_timer_clock();
        self.configure_clock_pump();
        self.configure_ilo_hibernate();
    }

    /// Enables the configured clocks: the low-frequency clock, the CPU root
    /// clock, the timer clock and the pump clock.
    #[verifier::rlimit(60)]
    pub fn start_system_clocks(&mut self)
        requires
            old(self)@.wf(),
        ensures
            final(self)@.wf(),
            final(self)@ == (SrssState {
                wdt_lock_bits: 3u8,
                ilo_enable: true,
                root_enable: old(self)@.root_enable.update(0, true),
                timer_enable: true,
                pump_enable: true,
                ..old(self)@
            }),
    {
        self.start_lfclk();
        self.start_root_clk(RootClocks::CpuPeriAhb);
        self.start_timer_clock();
        self.start_clock_pump();
    }

    /// Sets the active-mode core regulator trim for the system mode: the
    /// ULP trim for ULP, the LP trim for LP, nothing for the sleep modes.
    /// The high-frequency clock and the wait states must already be within
    /// the target mode's limits.
    pub fn configure_ldo_mode(&mut self, mode: &SystemMode)
        ensures
            *mode == SystemMode::Ulp ==> final(self)@ == (SrssState {
                act_reg_trim: 0x07u8,
                ..old(self)@
            }),
            *mode == SystemMode::Lp ==> final(self)@ == (SrssState {
                act_reg_trim: 0x17u8,
                ..old(self)@
            }),
            *mode != SystemMode::Ulp && *mode != SystemMode::Lp ==> final(self)@ == old(self)@,
    {
        match mode {
            SystemMode::Ulp => {
                self.srss.act_reg_trim = 0x07;
            },
            SystemMode::Lp => {
                self.srss.act_reg_trim = 0x17;
            },
            _ => {},
        }
    }

    /// Decodes the cause of the last reset from the two cause registers.
    pub fn last_reset(&self) -> (r: ResetCause)
        ensures
            r == spec_reset_cause(self@.res_cause, self@.res_cause2),
    {
        let cause = self.srss.res_cause;
        let mut result = if cause == 0x0000_0001 {
            ResetCause::WDTReset
        } else if cause == 0x0000_0002 {
            ResetCause::ActiveFault
        } else if cause == 0x0000_0004 {
            ResetCause::DeepSleepFault
        } else if cause == 0x0000_0008 {
            ResetCause::LostWatchCrystalClock
        } else if cause == 0x0000_0010 {
            ResetCause::SoftwareRequest
        } else if cause == 0x0000_0020 {
            ResetCause::MCWDT0Reset
        } else if cause == 0x0000_0040 {
            ResetCause::MCWDT1Reset
        } else if cause == 0x0000_0080 {
            ResetCause::MCWDT2Reset
        } else if cause == 0x0000_0100 {
            ResetCause::MCWDT3Reset
        } else {
            ResetCause::NoReset
        };
        if result == ResetCause::NoReset {
            let cause2 = self.srss.res_cause2;
            result = if 0x0000_0001 <= cause2 && cause2 <= 0x0000_ffff {
                ResetCause::LostHFClock
            } else if 0x0001_0000 <= cause2 && cause2 <= 0xffff_0000 {
                ResetCause::HFClockFrequencyError
            } else {
                ResetCause::NoReset
            };
        }
        result
    }

    /// The device identity words.
    pub fn read_device_id(&self) -> (r: SystemInfo)
        ensures
            r == (SystemInfo {
                family_id: self@.family_id,
                major_rev: self@.major_rev,
                minor_rev: self@.minor_rev,
                silicon_id: self@.silicon_id,
            }),
    {
        SystemInfo {
            family_id: self.srss.family_id,
            major_rev: self.srss.major_rev,
            minor_rev: self.srss.minor_rev,
            silicon_id: self.srss.silicon_id,
        }
    }

    /// Forwards watchdog match interrupts.
    pub fn enable_wdt_intr(&mut self)
        ensures
            final(self)@ == (SrssState { intr_wdt_match: true, ..old(self)@ }),
    {
        self.srss.intr_wdt_match = true;
    }

    /// Stops forwarding watchdog match interrupts.
    pub fn disable_wdt_intr(&mut self)
        ensures
            final(self)@ == (SrssState { intr_wdt_match: false, ..old(self)@ }),
    {
        self.srss.intr_wdt_match = false;
    }

    /// Forwards clock calibration interrupts.
    pub fn enable_clk_cal_intr(&mut self)
        ensures
            final(self)@ == (SrssState { intr_clk_cal: true, ..old(self)@ }),
    {
        self.srss.intr_clk_cal = true;
    }

    /// Stops forwarding clock calibration interrupts.
    pub fn disable_clk_cal_intr(&mut self)
        ensures
            final(self)@ == (SrssState { intr_clk_cal: false, ..old(self)@ }),
    {
        self.srss.intr_clk_cal = false;
    }

    /// Forwards high/low voltage detector interrupts.
    pub fn enable_hvlvd1_intr(&mut self)
        ensures
            final(self)@ == (SrssState { intr_hvlvd1: true, ..old(self)@ }),
    {
        self.srss.intr_hvlvd1 = true;
    }

    /// Stops forwarding high/low voltage detector interrupts.
    pub fn disable_hvlvd1_intr(&mut self)
        ensures
            final(self)@ == (SrssState { intr_hvlvd1: false, ..old(self)@ }),
    {
        self.srss.intr_hvlvd1 = false;
    }
}

} // verus!
