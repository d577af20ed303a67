//! The system, CPU subsystem, flash, backup and protection drivers,
//! exercised on their register images.

use psoc6_hal::clocks::DerivedClock;
use psoc6_hal::drivers::backup::Backup;
use psoc6_hal::drivers::cpuss::Cpuss;
use psoc6_hal::drivers::cpuss::InterruptSource;
use psoc6_hal::drivers::cpuss::PwrMode;
use psoc6_hal::drivers::flashc::Flash;
use psoc6_hal::drivers::prot::Prot;
use psoc6_hal::drivers::prot::ProtBusMaster;
use psoc6_hal::drivers::prot::ProtContext;
use psoc6_hal::drivers::system::Clocks;
use psoc6_hal::drivers::system::Error as SystemError;
use psoc6_hal::drivers::system::FllConfig;
use psoc6_hal::drivers::system::ResetCause;
use psoc6_hal::drivers::system::System;
use psoc6_hal::psoc::CpuMode;
use psoc6_hal::psoc::Psoc;
use psoc6_hal::psoc::SystemMode;

#[test]
fn cpuss_wait_states_follow_the_table() {
    let cases = [
        (150_000_000u32, SystemMode::Lp, 1u8),
        (101_000_000, SystemMode::Lp, 1),
        (100_000_000, SystemMode::Lp, 0),
        (100_000_000, SystemMode::Ulp, 1),
        (26_000_000, SystemMode::Ulp, 1),
        (25_000_000, SystemMode::Ulp, 0),
        (20_000_000, SystemMode::Lp, 0),
    ];
    for (freq, mode, expected) in cases {
        let mut cpuss = Cpuss::new();
        cpuss.configure_wait_states(freq, &mode);
        assert_eq!(cpuss.cpu_sys.rom_slow_ws, expected, "freq {}", freq);
        assert_eq!(cpuss.cpu_sys.ram0_slow_ws, expected);
        assert_eq!(cpuss.cpu_sys.rom_fast_ws, 0);
        assert_eq!(cpuss.cpu_sys.ram0_fast_ws, 0);
    }
}

#[test]
fn flash_wait_states_follow_the_table() {
    let cases = [
        (150_000_000u32, SystemMode::Lp, 4u8),
        (121_000_000, SystemMode::Lp, 4),
        (120_000_000, SystemMode::Lp, 3),
        (88_000_000, SystemMode::Lp, 3),
        (87_000_000, SystemMode::Lp, 2),
        (59_000_000, SystemMode::Lp, 2),
        (30_000_000, SystemMode::Lp, 1),
        (29_000_000, SystemMode::Lp, 0),
        (34_000_000, SystemMode::Ulp, 2),
        (17_000_000, SystemMode::Ulp, 1),
        (16_000_000, SystemMode::Ulp, 0),
    ];
    for (freq, mode, expected) in cases {
        let mut flash = Flash::new();
        flash.configure_wait_states(freq, &mode);
        assert_eq!(flash.flash.main_ws, expected, "freq {}", freq);
    }
}

#[test]
fn flash_ldo_follows_the_system_mode() {
    let mut flash = Flash::new();
    flash.configure_ldo_mode(&SystemMode::Ulp);
    assert!(flash.flash.vcc_sel_ulp);
    flash.configure_ldo_mode(&SystemMode::Lp);
    assert!(!flash.flash.vcc_sel_ulp);
    flash.configure_ldo_mode(&SystemMode::Ulp);
    flash.configure_ldo_mode(&SystemMode::DeepSleep);
    assert!(flash.flash.vcc_sel_ulp);
}

#[test]
fn watchdog_match_formula_per_timeout_band() {
    // match = timeout * 32 ILO cycles less the span of the counted bits.
    let cases = [
        (0u32, 0u16, 12u8),
        (1, 0, 12),
        (1000, 31968, 12),
        (2048, 65504, 12),
        (2049, 32, 1),
        (3000, 30464, 1),
        (4095, 65504, 1),
        (4096, 0, 0),
        (5000, 28928, 0),
        (6143, 65504, 0),
        (6144, 0xffff, 0),
        (100_000, 0xffff, 0),
    ];
    for (timeout_ms, expected_match, expected_ignore) in cases {
        let mut sys = System::new();
        sys.wdt_start(timeout_ms);
        assert_eq!(sys.srss.wdt_match, expected_match, "timeout {}", timeout_ms);
        assert_eq!(sys.srss.wdt_ignore_bits, expected_ignore);
        assert!(sys.srss.wdt_en);
        assert!(sys.srss.ilo_enable);
        assert!(System::wdt_is_locked(&sys));
    }
}

#[test]
fn watchdog_lock_unlock_feed_disable() {
    let mut sys = System::new();
    assert!(System::wdt_is_locked(&sys));
    sys.wdt_unlock();
    assert!(!System::wdt_is_locked(&sys));
    sys.wdt_lock();
    assert!(System::wdt_is_locked(&sys));
    sys.wdt_start(1000);
    sys.wdt_feed();
    assert!(sys.srss.intr_wdt_match);
    sys.wdt_disable();
    assert!(!sys.srss.wdt_en);
    assert!(System::wdt_is_locked(&sys));
}

#[test]
fn lfclk_source_select_and_rejection() {
    let mut sys = System::new();
    assert!(sys.configure_lfclk_source(Clocks::Wco).is_ok());
    assert_eq!(sys.srss.lfclk_sel, 1);
    assert!(sys.configure_lfclk_source(Clocks::Pilo).is_ok());
    assert_eq!(sys.srss.lfclk_sel, 3);
    assert!(sys.configure_lfclk_source(Clocks::Ilo).is_ok());
    assert_eq!(sys.srss.lfclk_sel, 0);
    match sys.configure_lfclk_source(Clocks::Eco) {
        Err(SystemError::UnknownLfClkSource) => {}
        _ => panic!("the low-frequency tree cannot take the ECO"),
    }
    // A rejected select leaves the previous choice and relocks.
    assert_eq!(sys.srss.lfclk_sel, 0);
    assert!(System::wdt_is_locked(&sys));
}

#[test]
fn fll_configure_and_start() {
    let mut sys = System::new();
    sys.configure_fll(FllConfig::default());
    assert_eq!(sys.srss.fll_mult, 500);
    assert_eq!(sys.srss.fll_ref_div, 20);
    assert_eq!(sys.srss.cco_range, 4);
    assert!(sys.srss.fll_output_div);
    assert_eq!(sys.srss.lock_tol, 10);
    assert_eq!(sys.srss.fll_igain, 9);
    assert_eq!(sys.srss.fll_pgain, 5);
    assert_eq!(sys.srss.settling_count, 8);
    assert_eq!(sys.srss.cco_freq, 355);
    assert!(sys.start_fll(200_000).is_ok());
    assert!(sys.srss.fll_enable);
    assert!(sys.srss.fll_locked);
    assert_eq!(sys.srss.bypass_sel, 3);
    // Starting a running FLL is a no-op success.
    assert!(sys.start_fll(200_000).is_ok());
    sys.stop_fll();
    assert!(!sys.srss.fll_enable);
    assert!(!sys.srss.cco_enable);
}

#[test]
fn fll_start_with_zero_budget_times_out() {
    let mut sys = System::new();
    sys.configure_fll(FllConfig::default());
    match sys.start_fll(0) {
        Err(SystemError::FllStartupCouldNotBeCompletedBeforeTimeout) => {}
        _ => panic!("a zero budget must time out"),
    }
    assert!(!sys.srss.fll_enable);
}

#[test]
fn system_clock_startup_sequence() {
    let mut sys = System::new();
    sys.configure_system_clocks();
    assert_eq!(sys.srss.lfclk_sel, 0);
    assert!(sys.srss.fll_enable);
    assert_eq!(sys.srss.bypass_sel, 3);
    assert!(sys.srss.ilo_backup);
    assert_eq!(sys.srss.timer_sel, 0);
    assert_eq!(sys.srss.pump_div, 2);
    sys.start_system_clocks();
    assert!(sys.srss.ilo_enable);
    assert!(sys.srss.timer_enable);
    assert!(sys.srss.pump_enable);
}

#[test]
fn reset_cause_decoding() {
    let mut sys = System::new();
    assert_eq!(sys.last_reset(), ResetCause::NoReset);
    let cases = [
        (0x0000_0001u32, ResetCause::WDTReset),
        (0x0000_0002, ResetCause::ActiveFault),
        (0x0000_0004, ResetCause::DeepSleepFault),
        (0x0000_0008, ResetCause::LostWatchCrystalClock),
        (0x0000_0010, ResetCause::SoftwareRequest),
        (0x0000_0020, ResetCause::MCWDT0Reset),
        (0x0000_0040, ResetCause::MCWDT1Reset),
        (0x0000_0080, ResetCause::MCWDT2Reset),
        (0x0000_0100, ResetCause::MCWDT3Reset),
    ];
    for (bits, expected) in cases {
        sys.srss.res_cause = bits;
        assert_eq!(sys.last_reset(), expected);
    }
    sys.srss.res_cause = 0;
    sys.srss.res_cause2 = 0x8000;
    assert_eq!(sys.last_reset(), ResetCause::LostHFClock);
    sys.srss.res_cause2 = 0x0002_0000;
    assert_eq!(sys.last_reset(), ResetCause::HFClockFrequencyError);
    sys.srss.res_cause2 = 0;
    assert_eq!(sys.last_reset(), ResetCause::NoReset);
}

#[test]
fn device_id_reads_the_identity_words() {
    let mut sys = System::new();
    sys.srss.family_id = 0x102;
    sys.srss.major_rev = 1;
    sys.srss.minor_rev = 2;
    sys.srss.silicon_id = 0xE207;
    let info = sys.read_device_id();
    assert_eq!(info.family_id, 0x102);
    assert_eq!(info.major_rev, 1);
    assert_eq!(info.minor_rev, 2);
    assert_eq!(info.silicon_id, 0xE207);
}

#[test]
fn ldo_trim_follows_the_system_mode() {
    let mut sys = System::new();
    sys.configure_ldo_mode(&SystemMode::Ulp);
    assert_eq!(sys.srss.act_reg_trim, 0x07);
    sys.configure_ldo_mode(&SystemMode::Lp);
    assert_eq!(sys.srss.act_reg_trim, 0x17);
    sys.configure_ldo_mode(&SystemMode::Hibernate);
    assert_eq!(sys.srss.act_reg_trim, 0x17);
}

#[test]
fn cm4_power_commands() {
    let mut cpuss = Cpuss::new();
    assert_eq!(cpuss.cm4_status(), PwrMode::Off);
    assert_eq!(cpuss.cm4_enable(0x1000_0000), PwrMode::Enabled);
    assert_eq!(cpuss.cpu_sys.cm4_vector_table_base, 0x1000_0000);
    assert_eq!(cpuss.cpu_sys.cm4_pwr_ctl, 0x05fa0003);
    assert_eq!(cpuss.cm4_reset(), PwrMode::Reset);
    assert_eq!(cpuss.cm4_retain(), PwrMode::Retained);
    assert_eq!(cpuss.cm4_disable(), PwrMode::Retained);
    assert_eq!(cpuss.cpu_sys.cm4_pwr_ctl, 0x05fa0002);
}

#[test]
fn interrupt_mux_routes_a_source_to_a_line() {
    let mut cpuss = Cpuss::new();
    cpuss.configure_interrupt_mux(InterruptSource::CPUSS_INTERRUPTS_IPC_0, 3);
    assert_eq!(cpuss.cpu_sys.cm0_mux_sel[3], 25);
    cpuss.configure_interrupt_mux(InterruptSource::SRSS_INTERRUPT, 31);
    assert_eq!(cpuss.cpu_sys.cm0_mux_sel[31], 22);
    // The first routing is untouched.
    assert_eq!(cpuss.cpu_sys.cm0_mux_sel[3], 25);
}

#[test]
fn interrupt_source_numbers_match_the_table() {
    assert_eq!(InterruptSource::IOSS_INTERRUPTS_GPIO_0.number(), 0);
    assert_eq!(InterruptSource::CPUSS_INTERRUPTS_IPC_0.number(), 25);
    assert_eq!(InterruptSource::CPUSS_INTERRUPTS_IPC_15.number(), 40);
    assert_eq!(InterruptSource::PASS_INTERRUPT_DACS.number(), 146);
}

#[test]
fn cpuss_clock_dividers_and_systick() {
    let mut cpuss = Cpuss::new();
    cpuss.configure_clocks_cm0(0x01, 0x00);
    cpuss.configure_clocks_cm4(0x02);
    cpuss.configure_systick_source();
    assert_eq!(cpuss.cpu_sys.peri_int_div, 1);
    assert_eq!(cpuss.cpu_sys.slow_int_div, 0);
    assert_eq!(cpuss.cpu_sys.fast_int_div, 2);
    assert_eq!(cpuss.cpu_sys.systick_clock_source, 0);
}

#[test]
fn backup_reset_and_pmic() {
    let mut backup = Backup::new();
    backup.reset();
    assert!(!backup.not_running());
    backup.configure_backup_clock_source();
    assert_eq!(backup.backup.clk_sel, 1);
    backup.enable_pmic();
    assert!(backup.backup.pmic_en_outen);
    assert_eq!(backup.backup.pmic_unlock, 0x3a);
    backup.disable_pmic();
    assert!(!backup.backup.pmic_en_outen);
}

#[test]
fn prot_bus_master_indices() {
    let cases = [
        (ProtBusMaster::IdCm0, 0u8),
        (ProtBusMaster::IdCrypto, 1),
        (ProtBusMaster::IdDw0, 2),
        (ProtBusMaster::IdDw1, 3),
        (ProtBusMaster::IdCm4, 14),
        (ProtBusMaster::IdTc, 15),
    ];
    for (master, index) in cases {
        assert_eq!(Prot::bus_master_to_index(master), index);
    }
    let prot = Prot::new();
    assert_eq!(
        prot.read_active_context(ProtBusMaster::IdCm0),
        ProtContext::NoContext
    );
}

#[test]
fn derived_clock_carries_its_frequency() {
    let clock = DerivedClock::new(8_000_000);
    assert_eq!(clock.freq, 8_000_000);
    let psoc = Psoc::new();
    assert_eq!(psoc.create_clock(32_768).freq, 32_768);
}

#[test]
fn psoc_new_starts_in_lp_mode_with_both_cores_active() {
    let psoc = Psoc::new();
    assert_eq!(psoc.modes.system_mode, SystemMode::Lp);
    assert_eq!(psoc.modes.cm0p, CpuMode::Active);
    assert_eq!(psoc.modes.cm4, CpuMode::Active);
    for c in 0..16 {
        assert!(!psoc.ipc_regs.channel_locked(c));
        assert_eq!(psoc.ipc_regs.channel_data(c), 0);
        assert_eq!(psoc.ipc_regs.intr_notify_mask(c), 0);
        assert_eq!(psoc.ipc_regs.intr_release_mask(c), 0);
    }
}

#[test]
fn cm0p_boot_sequence_leaves_the_system_running() {
    let mut psoc = Psoc::new();
    psoc.start_cm0p();
    // The final wait states match the configured 100-MHz clock in LP mode.
    assert_eq!(psoc.cpuss.cpu_sys.rom_slow_ws, 0);
    assert_eq!(psoc.flash.flash.main_ws, 3);
    // The clock tree runs from the FLL.
    assert!(psoc.system.srss.fll_enable);
    assert_eq!(psoc.system.srss.bypass_sel, 3);
    assert!(psoc.system.srss.ilo_enable);
    assert!(psoc.system.srss.timer_enable);
    assert!(psoc.system.srss.pump_enable);
    // Dividers, regulator, backup clock and PMIC.
    assert_eq!(psoc.cpuss.cpu_sys.peri_int_div, 1);
    assert_eq!(psoc.system.srss.act_reg_trim, 0x17);
    assert_eq!(psoc.backup.backup.clk_sel, 1);
    assert!(!psoc.backup.backup.pmic_en_outen);
    // The semaphore channel's events are wired to CPU line 0.
    assert_eq!(psoc.ipc_regs.intr_release_mask(0), 1);
    assert_eq!(psoc.ipc_regs.intr_notify_mask(0), 1);
    assert!(!psoc.ipc_regs.channel_locked(4));
}
