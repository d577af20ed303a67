//! The top-level device: owns every driver and register image, and carries
//! the start-up sequence and the system IPC channel operations.

use vstd::prelude::*;
use crate::drivers::backup::Backup;
use crate::drivers::cpuss::Cpuss;
use crate::drivers::flashc::Flash;
use crate::drivers::ipc::{
    acquire_busy_state,
    acquire_ok_state,
    config_notify_state,
    config_release_state,
    notify_state,
    release_state,
    write_data_state,
    ChannelConfig,
    Channels,
    CriticalSection,
    IntrStruct,
    IntrStructMaskBits,
    IntrStructs,
    IpcRegisters,
    IpcState,
};
use crate::drivers::prot::Prot;
use crate::drivers::semaphore::FlagSet;
use crate::drivers::semaphore::SemaphoreFlag;
use crate::drivers::system::System;
use crate::error::Error;

verus! {

/// The system-wide power modes.
#[derive(Clone, Copy, Debug, PartialEq, Eq, Structural)]
pub enum SystemMode {
    /// Low-power (normal) operation.
    Lp,
    /// Ultra-low-power operation: lower core voltage, tighter clock limits.
    Ulp,
    DeepSleep,
    Hibernate,
}

/// The per-core power modes.
#[derive(Clone, Copy, Debug, PartialEq, Eq, Structural)]
pub enum CpuMode {
    Active,
    Sleep,
    DeepSleep,
}

/// The mode each core and the system as a whole are in.
#[derive(Clone, Copy, Debug, PartialEq, Eq, Structural)]
pub struct Modes {
    pub cm0p: CpuMode,
    pub cm4: CpuMode,
    pub system_mode: SystemMode,
}

/// The index of the interrupt structure a single-bit structure mask names,
/// or nothing for the empty and the multi-bit masks.
pub open spec fn spec_single_struct_index(bits: u16) -> Option<u16> {
    if bits == 1 {
        Some(0u16)
    } else if bits == 2 {
        Some(1u16)
    } else if bits == 4 {
        Some(2u16)
    } else if bits == 8 {
        Some(3u16)
    } else if bits == 16 {
        Some(4u16)
    } else if bits == 32 {
        Some(5u16)
    } else if bits == 64 {
        Some(6u16)
    } else if bits == 128 {
        Some(7u16)
    } else if bits == 256 {
        Some(8u16)
    } else if bits == 512 {
        Some(9u16)
    } else if bits == 1024 {
        Some(10u16)
    } else if bits == 2048 {
        Some(11u16)
    } else if bits == 4096 {
        Some(12u16)
    } else if bits == 8192 {
        Some(13u16)
    } else if bits == 16384 {
        Some(14u16)
    } else if bits == 32768 {
        Some(15u16)
    } else {
        None
    }
}

/// The block after the release routing of the structure a single-bit mask
/// names is configured; a mask naming no single structure configures none.
pub open spec fn spec_config_release_opt(s: IpcState, bits: u16, mask: u16) -> IpcState {
    match spec_single_struct_index(bits) {
        Some(i) => config_release_state(s, i as int, mask),
        None => s,
    }
}

/// The block after the notify routing of the structure a single-bit mask
/// names is configured; a mask naming no single structure configures none.
pub open spec fn spec_config_notify_opt(s: IpcState, bits: u16, mask: u16) -> IpcState {
    match spec_single_struct_index(bits) {
        Some(i) => config_notify_state(s, i as int, mask),
        None => s,
    }
}

/// The index of the interrupt structure a single-bit structure mask names.
fn single_struct_index(bits: u16) -> (r: Option<u16>)
    ensures
        r == spec_single_struct_index(bits),
{
    match bits {
        1 => Some(0),
        2 => Some(1),
        4 => Some(2),
        8 => Some(3),
        16 => Some(4),
        32 => Some(5),
        64 => Some(6),
        128 => Some(7),
        256 => Some(8),
        512 => Some(9),
        1024 => Some(10),
        2048 => Some(11),
        4096 => Some(12),
        8192 => Some(13),
        16384 => Some(14),
        32768 => Some(15),
        _ => None,
    }
}

/// The top-level device: the sole owner of every peripheral register image,
/// constructed exactly once at start-up and never duplicated, so no two
/// software owners can alias one register block.
pub struct Psoc {
    pub system: System,
    pub cpuss: Cpuss,
    pub flash: Flash,
    pub backup: Backup,
    pub prot: Prot,
    pub modes: Modes,
    pub ipc: Channels,
    pub ipc_intr: IntrStructs,
    pub ipc_regs: IpcRegisters,
}

impl Psoc {
    /// Well-formedness: the IPC handles carry their role assignment and
    /// every register image has its full register count.
    pub open spec fn wf(&self) -> bool {
        &&& self.ipc.wf()
        &&& self.ipc_intr.wf()
        &&& self.ipc_regs@.wf()
        &&& self.system@.wf()
        &&& self.cpuss@.wf()
    }

    /// Takes ownership of the whole device, every register image in its
    /// reset state, both cores active, the system in LP mode.
    pub fn new() -> (r: Psoc)
        ensures
            r.wf(),
            r.ipc_regs@ == crate::drivers::ipc::ipc_reset_state(),
            r.modes == (Modes {
                cm0p: CpuMode::Active,
                cm4: CpuMode::Active,
                system_mode: SystemMode::Lp,
            }),
            !r.backup.backup.reset,
    {
        Psoc {
            system: System::new(),
            cpuss: Cpuss::new(),
            flash: Flash::new(),
            backup: Backup::new(),
            prot: Prot::new(),
            modes: Modes { cm0p: CpuMode::Active, cm4: CpuMode::Active, system_mode: SystemMode::Lp },
            ipc: Channels::new(),
            ipc_intr: IntrStructs::new(),
            ipc_regs: IpcRegisters::new(),
        }
    }

    /// Wires the semaphores channel's event routing: acquires the channel
    /// lock as the configuration flag, writes the CPU-line masks of the
    /// interrupt structure each single-bit structure mask names, and
    /// releases the lock, raising the release event on the structures of
    /// the notify mask. Fails with [`Error::ChannelBusy`] exactly when the
    /// peer core holds the semaphores channel.
    pub fn configure_ipc_semaphore(&mut self, channel_config: &ChannelConfig) -> (r: Result<
        (),
        Error,
    >)
        requires
            old(self).wf(),
        ensures
            final(self).wf(),
            final(self).system == old(self).system,
            final(self).cpuss@ == old(self).cpuss@,
            final(self).flash == old(self).flash,
            final(self).backup == old(self).backup,
            final(self).modes == old(self).modes,
            old(self).ipc_regs@.channels[4].lock_status ==> {
                &&& r == Err::<(), Error>(Error::ChannelBusy)
                &&& final(self).ipc_regs@ == acquire_busy_state(old(self).ipc_regs@, 4)
            },
            !old(self).ipc_regs@.channels[4].lock_status ==> {
                &&& r is Ok
                &&& final(self).ipc_regs@ == release_state(
                    spec_config_notify_opt(
                        spec_config_release_opt(
                            acquire_ok_state(old(self).ipc_regs@, 4),
                            channel_config.struct_release.bits,
                            channel_config.intr_release_mask.bits,
                        ),
                        channel_config.struct_notify.bits,
                        channel_config.intr_notify_mask.bits,
                    ),
                    4,
                    channel_config.struct_notify.bits,
                )
            },
    {
        // Acquire the lock as the configuration flag.
        let locked = match self.ipc.semaphores.acquire_lock(&mut self.ipc_regs) {
            Ok(locked) => locked,
            Err(_) => {
                return Err(Error::ChannelBusy);
            },
        };
        // The boot core wires the routing before interrupts run.
        let cs = CriticalSection::new();
        if let Some(release_struct) = single_struct_index(channel_config.struct_release.bits()) {
            let mut target = IntrStruct::new(release_struct as u8);
            target.configure_release(&mut self.ipc_regs, &channel_config.intr_release_mask, &cs);
        }
        if let Some(notify_struct) = single_struct_index(channel_config.struct_notify.bits()) {
            let mut target = IntrStruct::new(notify_struct as u8);
            target.configure_notify(&mut self.ipc_regs, &channel_config.intr_notify_mask, &cs);
        }
        match locked.release_lock(&mut self.ipc_regs, &channel_config.struct_notify) {
            Ok(_) => Ok(()),
            Err(_) => Err(Error::ReleaseFailed),
        }
    }

    /// Announces a claimed semaphore flag to the peer core: acquires the
    /// semaphores channel, writes the flag number into the mailbox, and
    /// raises a notify event on the structures of `notify_mask`. The lock
    /// stays held: ownership of the channel passes to the peer, which reads
    /// the mailbox and releases. Fails with [`Error::ChannelBusy`] exactly
    /// when the channel is already held.
    pub fn send_ipc_semaphore(
        &mut self,
        flag: &SemaphoreFlag<FlagSet>,
        notify_mask: &IntrStructMaskBits,
    ) -> (r: Result<(), Error>)
        requires
            old(self).wf(),
        ensures
            final(self).wf(),
            final(self).system == old(self).system,
            final(self).cpuss@ == old(self).cpuss@,
            final(self).flash == old(self).flash,
            final(self).backup == old(self).backup,
            final(self).modes == old(self).modes,
            old(self).ipc_regs@.channels[4].lock_status ==> {
                &&& r == Err::<(), Error>(Error::ChannelBusy)
                &&& final(self).ipc_regs@ == acquire_busy_state(old(self).ipc_regs@, 4)
            },
            !old(self).ipc_regs@.channels[4].lock_status ==> {
                &&& r is Ok
                &&& final(self).ipc_regs@ == notify_state(
                    write_data_state(acquire_ok_state(old(self).ipc_regs@, 4), 4, flag.flag),
                    notify_mask.bits,
                )
                &&& final(self).ipc_regs@.channels[4].lock_status
            },
    {
        let sema_lock = match self.ipc.semaphores.acquire_lock(&mut self.ipc_regs) {
            Ok(locked) => locked,
            Err(_) => {
                return Err(Error::ChannelBusy);
            },
        };
        sema_lock.write_data_register(&mut self.ipc_regs, flag.flag);
        sema_lock.notify(&mut self.ipc_regs, notify_mask);
        // The peer completes the handshake: it reads the mailbox and
        // releases the lock, which raises the release event this core's
        // interrupt structure is configured for.
        Ok(())
    }

    /// Receives a semaphore flag announcement from the peer core: reads the
    /// mailbox of the semaphores channel and hands the word back. A word
    /// other than the expected flag number is someone else's traffic, and
    /// the channel lock is released with `release_mask` so its owner can
    /// proceed; the expected flag leaves the channel untouched for the
    /// caller to acknowledge.
    pub fn receive_ipc_semaphore(
        &mut self,
        flag: &SemaphoreFlag<FlagSet>,
        release_mask: &IntrStructMaskBits,
    ) -> (r: Result<u32, Error>)
        requires
            old(self).wf(),
        ensures
            final(self).wf(),
            final(self).system == old(self).system,
            final(self).cpuss@ == old(self).cpuss@,
            final(self).flash == old(self).flash,
            final(self).backup == old(self).backup,
            final(self).modes == old(self).modes,
            r == Ok::<u32, Error>(old(self).ipc_regs@.channels[4].data),
            old(self).ipc_regs@.channels[4].data == flag.flag ==> final(self).ipc_regs@ == old(
                self,
            ).ipc_regs@,
            old(self).ipc_regs@.channels[4].data != flag.flag ==> final(self).ipc_regs@
                == release_state(old(self).ipc_regs@, 4, release_mask.bits),
    {
        let sem_data = self.ipc.semaphores.read_data_register(&self.ipc_regs);
        if sem_data == flag.flag {
            Ok(flag.flag)
        } else {
            match self.ipc.semaphores.release_lock(&mut self.ipc_regs, release_mask) {
                Ok(_) => Ok(sem_data),
                Err(_) => Err(Error::ReleaseFailed),
            }
        }
    }

    /// The CM0+ boot sequence: wait states for the worst-case 150-MHz
    /// clock, a backup-domain reset when the last reset had a power-related
    /// cause, the core regulator and the flash supply for the system mode,
    /// the PMIC pin released, the core clock dividers, the system clock
    /// tree configured and started, the backup clock and SysTick sources,
    /// the wait states retightened for the final 100-MHz clock, and the IPC
    /// start-up wiring.
    #[verifier::rlimit(100)]
    pub fn start_cm0p(&mut self)
        requires
            old(self).wf(),
            !old(self).backup.backup.reset,
        ensures
            final(self).wf(),
            final(self).modes == old(self).modes,
            // Wait states match the final 100-MHz high-frequency clock.
            final(self).cpuss@.rom_slow_ws == crate::drivers::cpuss::spec_slow_ws(
                100_000_000,
                old(self).modes.system_mode,
            ),
            final(self).cpuss@.rom_fast_ws == 0u8,
            final(self).cpuss@.ram0_slow_ws == crate::drivers::cpuss::spec_slow_ws(
                100_000_000,
                old(self).modes.system_mode,
            ),
            final(self).cpuss@.ram0_fast_ws == 0u8,
            final(self).flash.flash.main_ws == crate::drivers::flashc::spec_flash_main_ws(
                100_000_000,
                old(self).modes.system_mode,
            ),
            // Core clock dividers and the SysTick source.
            final(self).cpuss@.peri_int_div == 1u8,
            final(self).cpuss@.slow_int_div == 0u8,
            final(self).cpuss@.fast_int_div == 0u8,
            final(self).cpuss@.systick_clock_source == 0u8,
            final(self).cpuss@.cm0_mux_sel == old(self).cpuss@.cm0_mux_sel,
            final(self).cpuss@.cm4_pwr_ctl == old(self).cpuss@.cm4_pwr_ctl,
            // The system clock tree is configured and running.
            final(self).system@.lfclk_sel == 0u8,
            final(self).system@.ilo_enable,
            final(self).system@.ilo_backup,
            final(self).system@.fll_enable,
            final(self).system@.fll_locked,
            final(self).system@.bypass_sel == 3u8,
            final(self).system@.fll_mult == 500u32,
            final(self).system@.root_enable[0],
            final(self).system@.timer_enable,
            final(self).system@.pump_enable,
            final(self).system@.wdt_lock_bits == 3u8,
            final(self).system@.res_cause == old(self).system@.res_cause,
            // The core regulator and the flash supply follow the mode.
            old(self).modes.system_mode == SystemMode::Ulp ==> final(self).system@.act_reg_trim
                == 0x07u8 && final(self).flash.flash.vcc_sel_ulp,
            old(self).modes.system_mode == SystemMode::Lp ==> final(self).system@.act_reg_trim
                == 0x17u8 && !final(self).flash.flash.vcc_sel_ulp,
            // The backup domain runs from the alternate clock, PMIC released.
            !final(self).backup.backup.reset,
            final(self).backup.backup.clk_sel == 1u8,
            final(self).backup.backup.pmic_unlock == 0x3au8,
            !final(self).backup.backup.pmic_en_outen,
            // The semaphore channel's events are wired when it was free.
            !old(self).ipc_regs@.channels[4].lock_status ==> {
                &&& !final(self).ipc_regs@.channels[4].lock_status
                &&& final(self).ipc_regs@.intr_structs[0].release_mask == 1u16
                &&& final(self).ipc_regs@.intr_structs[0].notify_mask == 1u16
            },
    {
        let mode = self.modes.system_mode;
        // Wait states for the worst case of a 150-MHz high-frequency clock.
        self.cpuss.configure_wait_states(150_000_000, &mode);
        self.flash.configure_wait_states(150_000_000, &mode);
        // Reset the backup domain when the last reset had a power-related
        // cause.
        match self.system.last_reset() {
            crate::drivers::system::ResetCause::WDTReset
            | crate::drivers::system::ResetCause::NoReset => {
                self.backup.reset();
                self.system.stop_lfclk();
                self.system.start_lfclk();
            },
            _ => {},
        }
        // Wait for the backup domain to power up.
        while self.backup.not_running()
            invariant
                !self.backup.backup.reset,
            decreases 0int,
        {
        }
        // Set the system and flash regulators for the system mode.
        self.system.configure_ldo_mode(&mode);
        self.flash.configure_ldo_mode(&mode);
        self.backup.disable_pmic();
        // Core clock dividers.
        self.cpuss.configure_clocks_cm0(0x01, 0x00);
        self.cpuss.configure_clocks_cm4(0x00);
        // System-level clocks.
        self.system.configure_system_clocks();
        self.system.start_system_clocks();
        // Ancillary clock support.
        self.backup.configure_backup_clock_source();
        self.cpuss.configure_systick_source();
        // Wait states for the configured 100-MHz high-frequency clock.
        self.cpuss.configure_wait_states(100_000_000, &mode);
        self.flash.configure_wait_states(100_000_000, &mode);
        // Bring the inter-core communication up.
        let _ = self.startup_ipc_system();
    }

    /// Initialises the core communication infrastructure: wires the
    /// semaphores channel's events through the syscall interrupt structure
    /// onto CPU interrupt line 0.
    pub fn startup_ipc_system(&mut self) -> (r: Result<(), Error>)
        requires
            old(self).wf(),
        ensures
            final(self).wf(),
            final(self).system == old(self).system,
            final(self).cpuss@ == old(self).cpuss@,
            final(self).flash == old(self).flash,
            final(self).backup == old(self).backup,
            final(self).modes == old(self).modes,
            old(self).ipc_regs@.channels[4].lock_status ==> r == Err::<(), Error>(
                Error::ChannelBusy,
            ),
            !old(self).ipc_regs@.channels[4].lock_status ==> {
                &&& r is Ok
                &&& !final(self).ipc_regs@.channels[4].lock_status
                &&& final(self).ipc_regs@.intr_structs[0].release_mask == 1u16
                &&& final(self).ipc_regs@.intr_structs[0].notify_mask == 1u16
            },
    {
        let config = ChannelConfig {
            struct_release: IntrStructMaskBits::syscall(),
            struct_notify: IntrStructMaskBits::syscall(),
            intr_release_mask: crate::drivers::ipc::InterruptMaskBits::cpuss_interrupt0(),
            intr_notify_mask: crate::drivers::ipc::InterruptMaskBits::cpuss_interrupt0(),
        };
        self.configure_ipc_semaphore(&config)
    }
}

} // verus!
