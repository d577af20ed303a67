//! The backup power domain: its reset pulse, its clock source, and the
//! external power-management IC (PMIC) enable pin.

use vstd::prelude::*;

verus! {

/// The image of the backup domain registers this driver programs.
#[derive(Clone, Copy, Debug, PartialEq, Eq, Structural)]
pub struct BackupRegisters {
    /// Set while a backup-domain reset is in progress; the hardware clears
    /// it when the domain is running again.
    pub reset: bool,
    /// Backup clock source select: 1 is the alternate backup clock.
    pub clk_sel: u8,
    /// PMIC register unlock key; writes take effect only after the key.
    pub pmic_unlock: u8,
    /// Drive the PMIC_EN pin: set drives the enable signal, clear leaves
    /// the pin high-impedance for GPIO use.
    pub pmic_en_outen: bool,
}

/// The backup domain driver, sole owner of its register image.
pub struct Backup {
    /// The owned register image.
    pub backup: BackupRegisters,
}

impl Backup {
    /// The register image as it comes out of reset.
    pub fn new() -> (r: Backup)
        ensures
            r.backup == (BackupRegisters {
                reset: false,
                clk_sel: 0u8,
                pmic_unlock: 0u8,
                pmic_en_outen: false,
            }),
    {
        Backup {
            backup: BackupRegisters { reset: false, clk_sel: 0, pmic_unlock: 0, pmic_en_outen: false },
        }
    }

    /// A driver over an existing register image.
    pub fn from(backup: BackupRegisters) -> (r: Backup)
        ensures
            r.backup == backup,
    {
        Backup { backup }
    }

    /// Pulses the backup-domain reset, the only way to reset that domain
    /// without removing its supply, and waits until the domain runs again.
    /// Run during start-up when the last reset had a power-related cause.
    pub fn reset(&mut self)
        ensures
            final(self).backup == (BackupRegisters { reset: false, ..old(self).backup }),
    {
        self.backup.reset = true;
        // The image completes the domain reset at once; on silicon the bit
        // stays set until the domain is powered again.
        self.backup.reset = false;
        while self.backup.reset
            invariant
                !self.backup.reset,
            decreases 0int,
        {
        }
    }

    /// Whether a backup-domain reset is still in progress.
    pub fn not_running(&self) -> (r: bool)
        ensures
            r == self.backup.reset,
    {
        self.backup.reset
    }

    /// Selects the alternate backup clock as the domain's clock source.
    pub fn configure_backup_clock_source(&mut self)
        ensures
            final(self).backup == (BackupRegisters { clk_sel: 1u8, ..old(self).backup }),
    {
        self.backup.clk_sel = 1;
    }

    /// Unlocks the PMIC control and drives the PMIC_EN pin, enabling the
    /// signal to the external power supply.
    pub fn enable_pmic(&mut self)
        ensures
            final(self).backup == (BackupRegisters {
                pmic_unlock: 0x3au8,
                pmic_en_outen: true,
                ..old(self).backup
            }),
    {
        self.backup.pmic_unlock = 0x3a;
        self.backup.pmic_en_outen = true;
    }

    /// Unlocks the PMIC control and releases the PMIC_EN pin to the
    /// high-impedance state, freeing it for GPIO use.
    pub fn disable_pmic(&mut self)
        ensures
            final(self).backup == (BackupRegisters {
                pmic_unlock: 0x3au8,
                pmic_en_outen: false,
                ..old(self).backup
            }),
    {
        self.backup.pmic_unlock = 0x3a;
        self.backup.pmic_en_outen = false;
    }
}

} // verus!
