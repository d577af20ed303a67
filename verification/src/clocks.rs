//! High-level clock handles on top of the system clock tree.

use vstd::prelude::*;
use crate::psoc::Psoc;

verus! {

/// A clock derived from the configured clock tree.
#[derive(Clone, Copy, Debug, PartialEq, Eq, Structural)]
pub struct DerivedClock {
    /// The clock's frequency in hertz.
    pub freq: u32,
}

/// The real-time clock of the backup domain.
pub struct RealTimeClock {}

impl DerivedClock {
    /// A handle on a derived clock of the given frequency.
    pub fn new(freq: u32) -> (r: DerivedClock)
        ensures
            r.freq == freq,
    {
        DerivedClock { freq }
    }
}

impl Psoc {
    /// Enables the configured system clocks: the low-frequency clock, the
    /// CPU root clock, the timer clock and the pump clock.
    pub fn start_system_clocks(&mut self)
        requires
            old(self).system@.wf(),
        ensures
            final(self).system@.wf(),
            final(self).system@ == (crate::drivers::system::SrssState {
                wdt_lock_bits: 3u8,
                ilo_enable: true,
                root_enable: old(self).system@.root_enable.update(0, true),
                timer_enable: true,
                pump_enable: true,
                ..old(self).system@
            }),
            final(self).cpuss == old(self).cpuss,
            final(self).flash == old(self).flash,
            final(self).backup == old(self).backup,
            final(self).modes == old(self).modes,
            final(self).ipc_regs@ == old(self).ipc_regs@,
    {
        self.system.start_system_clocks();
    }

    /// A handle on a clock of the given frequency derived from the
    /// configured tree.
    pub fn create_clock(&self, freq: u32) -> (r: DerivedClock)
        ensures
            r.freq == freq,
    {
        DerivedClock { freq }
    }

    /// Reserved lifecycle hook for a dedicated CM0+ core clock handle; the
    /// core clocks are configured by the start-up sequence.
    pub fn create_cm0_clock(&self) {
    }

    /// Reserved lifecycle hook for a dedicated CM4 core clock handle; the
    /// core clocks are configured by the start-up sequence.
    pub fn create_cm4_clock(&self) {
    }
}

} // verus!
