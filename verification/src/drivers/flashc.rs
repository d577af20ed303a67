//! The flash controller: main-array wait states and the flash macro's
//! regulator mode.

use vstd::prelude::*;
use crate::psoc::SystemMode;

verus! {

/// The image of the flash controller registers this driver programs.
#[derive(Clone, Copy, Debug, PartialEq, Eq, Structural)]
pub struct FlashcRegisters {
    /// Wait states of the main flash array.
    pub main_ws: u8,
    /// Flash macro core voltage select: set for ULP, clear for LP.
    pub vcc_sel_ulp: bool,
}

/// The wait-state count of the main flash array for the given
/// high-frequency clock, per the device's wait-state table: tighter
/// thresholds in ULP mode, where the core voltage is lower.
pub open spec fn spec_flash_main_ws(hf_clock_freq: u32, sys_mode: SystemMode) -> u8 {
    if sys_mode == SystemMode::Ulp {
        if hf_clock_freq > 33_000_000 {
            2
        } else if hf_clock_freq > 16_000_000 {
            1
        } else {
            0
        }
    } else {
        if hf_clock_freq > 120_000_000 {
            4
        } else if hf_clock_freq > 87_000_000 {
            3
        } else if hf_clock_freq > 58_000_000 {
            2
        } else if hf_clock_freq > 29_000_000 {
            1
        } else {
            0
        }
    }
}

/// The flash controller driver, sole owner of its register image.
pub struct Flash {
    /// The owned register image.
    pub flash: FlashcRegisters,
}

impl Flash {
    /// The register image as it comes out of reset.
    pub fn new() -> (r: Flash)
        ensures
            r.flash == (FlashcRegisters { main_ws: 0u8, vcc_sel_ulp: false }),
    {
        Flash { flash: FlashcRegisters { main_ws: 0, vcc_sel_ulp: false } }
    }

    /// A driver over an existing register image.
    pub fn from(flash: FlashcRegisters) -> (r: Flash)
        ensures
            r.flash == flash,
    {
        Flash { flash }
    }

    /// Programs the main-array wait states for the given high-frequency
    /// clock and system mode, per the device's wait-state table.
    pub fn configure_wait_states(&mut self, hf_clock_freq: u32, sys_mode: &SystemMode)
        ensures
            final(self).flash == (FlashcRegisters {
                main_ws: spec_flash_main_ws(hf_clock_freq, *sys_mode),
                ..old(self).flash
            }),
    {
        let ws_main: u8;
        match sys_mode {
            SystemMode::Ulp => {
                if hf_clock_freq > 33_000_000 {
                    ws_main = 0x02;
                } else if hf_clock_freq > 16_000_000 {
                    ws_main = 0x01;
                } else {
                    ws_main = 0x00;
                }
            },
            _ => {
                if hf_clock_freq > 120_000_000 {
                    ws_main = 0x04;
                } else if hf_clock_freq > 87_000_000 {
                    ws_main = 0x03;
                } else if hf_clock_freq > 58_000_000 {
                    ws_main = 0x02;
                } else if hf_clock_freq > 29_000_000 {
                    ws_main = 0x01;
                } else {
                    ws_main = 0x00;
                }
            },
        }
        self.flash.main_ws = ws_main;
    }

    /// Selects the flash macro voltage for the system mode: the ULP supply
    /// in ULP mode, the LP supply in LP mode, untouched in the sleep modes.
    pub fn configure_ldo_mode(&mut self, sys_mode: &SystemMode)
        ensures
            *sys_mode == SystemMode::Ulp ==> final(self).flash == (FlashcRegisters {
                vcc_sel_ulp: true,
                ..old(self).flash
            }),
            *sys_mode == SystemMode::Lp ==> final(self).flash == (FlashcRegisters {
                vcc_sel_ulp: false,
                ..old(self).flash
            }),
            *sys_mode != SystemMode::Ulp && *sys_mode != SystemMode::Lp ==> final(self).flash
                == old(self).flash,
    {
        match sys_mode {
            SystemMode::Ulp => {
                self.flash.vcc_sel_ulp = true;
            },
            SystemMode::Lp => {
                self.flash.vcc_sel_ulp = false;
            },
            _ => {},
        }
    }
}

} // verus!
