//! The CPU subsystem (CPUSS): core clock dividers, CM4 power control, ROM
//! and RAM wait states, the SysTick clock source, and the CM0+ interrupt
//! multiplexer that routes any of the 147 interrupt sources onto one of the
//! CM0+ core's 32 IRQ lines.

use vstd::prelude::*;
use vstd::pervasive::VecAdditionalExecFns;
use crate::psoc::SystemMode;

verus! {

/// How many IRQ lines the CM0+ interrupt multiplexer offers.
pub const CM0_IRQ_LINE_COUNT: usize = 32;

/// The power modes the CM4 core can be commanded into, as reported by the
/// two mode bits of the power-control register.
#[derive(Clone, Copy, Debug, PartialEq, Eq, Structural)]
pub enum PwrMode {
    /// Power off, clock off, isolated, held in reset.
    Off,
    /// Clock off, held in reset.
    Reset,
    /// Power off, clock off, state retained.
    Retained,
    /// Power on, clock on, running.
    Enabled,
}

/// The power mode encoded in the two low bits of the power-control word.
pub open spec fn pwr_mode_of(ctl: u32) -> PwrMode {
    if ctl & 3 == 0 {
        PwrMode::Off
    } else if ctl & 3 == 1 {
        PwrMode::Reset
    } else if ctl & 3 == 2 {
        PwrMode::Retained
    } else {
        PwrMode::Enabled
    }
}

/// The image of the CPUSS registers this driver programs.
pub struct CpussRegisters {
    /// CM4 fast-clock integer divider.
    pub fast_int_div: u8,
    /// Peripheral-clock integer divider.
    pub peri_int_div: u8,
    /// CM0+ slow-clock integer divider.
    pub slow_int_div: u8,
    /// CM4 power-control word: unlock key in the high half, mode bits low.
    pub cm4_pwr_ctl: u32,
    /// Set by the hardware when a power-mode transition has completed.
    pub cm4_pwr_done: bool,
    /// Base address of the CM4 vector table; the low 10 bits must be zero.
    pub cm4_vector_table_base: u32,
    /// ROM wait states for the slow clock domain.
    pub rom_slow_ws: u8,
    /// ROM wait states for the fast clock domain.
    pub rom_fast_ws: u8,
    /// SRAM bank 0 wait states for the slow clock domain.
    pub ram0_slow_ws: u8,
    /// SRAM bank 0 wait states for the fast clock domain.
    pub ram0_fast_ws: u8,
    /// SysTick timer clock source selector.
    pub systick_clock_source: u8,
    /// The 32 CM0+ interrupt-multiplexer slots, one interrupt source number
    /// per IRQ line (four 8-bit slots per hardware control register).
    pub cm0_mux_sel: Vec<u8>,
}

/// The mathematical state of the CPUSS register image.
#[verifier::ext_equal]
pub ghost struct CpussState {
    pub fast_int_div: u8,
    pub peri_int_div: u8,
    pub slow_int_div: u8,
    pub cm4_pwr_ctl: u32,
    pub cm4_pwr_done: bool,
    pub cm4_vector_table_base: u32,
    pub rom_slow_ws: u8,
    pub rom_fast_ws: u8,
    pub ram0_slow_ws: u8,
    pub ram0_fast_ws: u8,
    pub systick_clock_source: u8,
    pub cm0_mux_sel: Seq<u8>,
}

impl CpussState {
    /// Well-formedness: one multiplexer slot per CM0+ IRQ line.
    pub open spec fn wf(self) -> bool {
        self.cm0_mux_sel.len() == 32
    }
}

/// The CPU subsystem driver, sole owner of the CPUSS register image.
pub struct Cpuss {
    /// The owned register image.
    pub cpu_sys: CpussRegisters,
}

impl View for Cpuss {
    type V = CpussState;

    open spec fn view(&self) -> CpussState {
        CpussState {
            fast_int_div: self.cpu_sys.fast_int_div,
            peri_int_div: self.cpu_sys.peri_int_div,
            slow_int_div: self.cpu_sys.slow_int_div,
            cm4_pwr_ctl: self.cpu_sys.cm4_pwr_ctl,
            cm4_pwr_done: self.cpu_sys.cm4_pwr_done,
            cm4_vector_table_base: self.cpu_sys.cm4_vector_table_base,
            rom_slow_ws: self.cpu_sys.rom_slow_ws,
            rom_fast_ws: self.cpu_sys.rom_fast_ws,
            ram0_slow_ws: self.cpu_sys.ram0_slow_ws,
            ram0_fast_ws: self.cpu_sys.ram0_fast_ws,
            systick_clock_source: self.cpu_sys.systick_clock_source,
            cm0_mux_sel: self.cpu_sys.cm0_mux_sel@,
        }
    }
}

/// The wait-state count for the slow (CM0+/ROM/SRAM) domain at the given
/// high-frequency clock, per the device's wait-state table.
pub open spec fn spec_slow_ws(hf_clock_freq: u32, sys_mode: SystemMode) -> u8 {
    if hf_clock_freq > 100_000_000 {
        1
    } else if hf_clock_freq > 25_000_000 {
        if sys_mode == SystemMode::Ulp {
            1
        } else {
            0
        }
    } else {
        0
    }
}

impl Cpuss {
    /// The register image as it comes out of reset.
    pub fn new() -> (r: Cpuss)
        ensures
            r@.wf(),
            r@.fast_int_div == 0u8,
            r@.peri_int_div == 0u8,
            r@.slow_int_div == 0u8,
            r@.cm4_pwr_ctl == 0u32,
            !r@.cm4_pwr_done,
            r@.cm4_vector_table_base == 0u32,
            r@.rom_slow_ws == 0u8,
            r@.rom_fast_ws == 0u8,
            r@.ram0_slow_ws == 0u8,
            r@.ram0_fast_ws == 0u8,
            r@.systick_clock_source == 0u8,
            forall|i: int| 0 <= i < 32 ==> r@.cm0_mux_sel[i] == 0u8,
    {
        let mut mux: Vec<u8> = Vec::new();
        let mut i: usize = 0;
        while i < 32
            invariant
                i <= 32,
                mux@.len() == i,
                forall|j: int| 0 <= j < i ==> mux@[j] == 0u8,
            decreases 32 - i,
        {
            mux.push(0);
            i += 1;
        }
        Cpuss {
            cpu_sys: CpussRegisters {
                fast_int_div: 0,
                peri_int_div: 0,
                slow_int_div: 0,
                cm4_pwr_ctl: 0,
                cm4_pwr_done: false,
                cm4_vector_table_base: 0,
                rom_slow_ws: 0,
                rom_fast_ws: 0,
                ram0_slow_ws: 0,
                ram0_fast_ws: 0,
                systick_clock_source: 0,
                cm0_mux_sel: mux,
            },
        }
    }

    /// Sets the CM4 fast-clock divider.
    pub fn configure_clocks_cm4(&mut self, fast_div: u8)
        ensures
            final(self)@ == (CpussState { fast_int_div: fast_div, ..old(self)@ }),
    {
        self.cpu_sys.fast_int_div = fast_div;
    }

    /// Sets the peripheral-clock and CM0+ slow-clock dividers.
    pub fn configure_clocks_cm0(&mut self, peri_div: u8, slow_div: u8)
        ensures
            final(self)@ == (CpussState {
                peri_int_div: peri_div,
                slow_int_div: slow_div,
                ..old(self)@
            }),
    {
        self.cpu_sys.peri_int_div = peri_div;
        self.cpu_sys.slow_int_div = slow_div;
    }

    /// The CM4 core's current power mode, read from the power-control word.
    pub fn cm4_status(&self) -> (r: PwrMode)
        ensures
            r == pwr_mode_of(self@.cm4_pwr_ctl),
    {
        let mode = self.cpu_sys.cm4_pwr_ctl & 3;
        if mode == 0 {
            PwrMode::Off
        } else if mode == 1 {
            PwrMode::Reset
        } else if mode == 2 {
            PwrMode::Retained
        } else {
            PwrMode::Enabled
        }
    }

    /// Commands the CM4 core into reset and waits for the transition to
    /// complete. Only call while the CM4 is in a low-power mode: a command
    /// issued while it executes can corrupt a pending bus transaction.
    pub fn cm4_reset(&mut self) -> (r: PwrMode)
        ensures
            final(self)@ == (CpussState {
                cm4_pwr_ctl: 0x05fa0001u32,
                cm4_pwr_done: true,
                ..old(self)@
            }),
            r == PwrMode::Reset,
    {
        proof {
            assert(0x05fa0001u32 & 3 == 1) by (bit_vector);
        }
        self.cpu_sys.cm4_pwr_ctl = 0x05fa0001;
        self.cpu_sys.cm4_pwr_done = true;
        while !self.cpu_sys.cm4_pwr_done
            invariant
                self.cpu_sys.cm4_pwr_done,
            decreases 0int,
        {
        }
        self.cm4_status()
    }

    /// Commands the CM4 core into the retained state. Only call while the
    /// CM4 is in a low-power mode.
    pub fn cm4_retain(&mut self) -> (r: PwrMode)
        ensures
            final(self)@ == (CpussState { cm4_pwr_ctl: 0x05fa0002u32, ..old(self)@ }),
            r == PwrMode::Retained,
    {
        proof {
            assert(0x05fa0002u32 & 3 == 2) by (bit_vector);
        }
        self.cpu_sys.cm4_pwr_ctl = 0x05fa0002;
        self.cm4_status()
    }

    /// Commands the CM4 core off, holding its state retained, and waits for
    /// the transition to complete. Only call while the CM4 is in a low-power
    /// mode.
    pub fn cm4_disable(&mut self) -> (r: PwrMode)
        ensures
            final(self)@ == (CpussState {
                cm4_pwr_ctl: 0x05fa0002u32,
                cm4_pwr_done: true,
                ..old(self)@
            }),
            r == PwrMode::Retained,
    {
        proof {
            assert(0x05fa0002u32 & 3 == 2) by (bit_vector);
        }
        self.cpu_sys.cm4_pwr_ctl = 0x05fa0002;
        self.cpu_sys.cm4_pwr_done = true;
        while !self.cpu_sys.cm4_pwr_done
            invariant
                self.cpu_sys.cm4_pwr_done,
            decreases 0int,
        {
        }
        self.cm4_status()
    }

    /// Points the CM4 vector table at `vector_table_base` and powers the
    /// core on. The base must be 1024-byte aligned: the low 10 bits select
    /// into the table and must be zero.
    pub fn cm4_enable(&mut self, vector_table_base: u32) -> (r: PwrMode)
        requires
            vector_table_base & 0x3ff == 0,
        ensures
            final(self)@ == (CpussState {
                cm4_vector_table_base: vector_table_base,
                cm4_pwr_ctl: 0x05fa0003u32,
                cm4_pwr_done: true,
                ..old(self)@
            }),
            r == PwrMode::Enabled,
    {
        proof {
            assert(0x05fa0003u32 & 3 == 3) by (bit_vector);
        }
        self.cpu_sys.cm4_vector_table_base = vector_table_base;
        self.cpu_sys.cm4_pwr_ctl = 0x05fa0003;
        self.cpu_sys.cm4_pwr_done = true;
        while !self.cpu_sys.cm4_pwr_done
            invariant
                self.cpu_sys.cm4_pwr_done,
            decreases 0int,
        {
        }
        self.cm4_status()
    }

    /// Programs the ROM and SRAM wait states for the given high-frequency
    /// clock and system power mode, per the device's wait-state table: the
    /// fast domain needs none, the slow domain needs one above 100 MHz, and
    /// above 25 MHz in ULP mode.
    pub fn configure_wait_states(&mut self, hf_clock_freq: u32, sys_mode: &SystemMode)
        ensures
            final(self)@ == (CpussState {
                rom_slow_ws: spec_slow_ws(hf_clock_freq, *sys_mode),
                rom_fast_ws: 0u8,
                ram0_slow_ws: spec_slow_ws(hf_clock_freq, *sys_mode),
                ram0_fast_ws: 0u8,
                ..old(self)@
            }),
    {
        let ws_slow: u8;
        let ws_fast: u8 = 0x00;
        if hf_clock_freq > 100_000_000 {
            match sys_mode {
                SystemMode::Ulp => ws_slow = 0x01,
                _ => ws_slow = 0x01,
            }
        } else if hf_clock_freq > 25_000_000 {
            match sys_mode {
                SystemMode::Ulp => ws_slow = 0x01,
                _ => ws_slow = 0x00,
            }
        } else {
            ws_slow = 0x00;
        }
        self.cpu_sys.rom_slow_ws = ws_slow;
        self.cpu_sys.rom_fast_ws = ws_fast;
        self.cpu_sys.ram0_slow_ws = ws_slow;
        self.cpu_sys.ram0_fast_ws = ws_fast;
    }

    /// Selects the ILO as the SysTick clock source.
    pub fn configure_systick_source(&mut self)
        ensures
            final(self)@ == (CpussState { systick_clock_source: 0u8, ..old(self)@ }),
    {
        self.cpu_sys.systick_clock_source = 0x00;
    }

    /// Routes interrupt source `intr_source` onto CM0+ IRQ line `irq_line`
    /// through the interrupt multiplexer. Four 8-bit slots share each
    /// hardware control register; the slot written is exactly the one of
    /// `irq_line`, every other slot keeps its routing.
    pub fn configure_interrupt_mux(&mut self, intr_source: InterruptSource, irq_line: u8)
        requires
            irq_line < 32,
            old(self)@.wf(),
        ensures
            final(self)@.wf(),
            final(self)@ == (CpussState {
                cm0_mux_sel: old(self)@.cm0_mux_sel.update(
                    irq_line as int,
                    spec_number(intr_source) as u8,
                ),
                ..old(self)@
            }),
    {
        let source_number = intr_source.number();
        self.cpu_sys.cm0_mux_sel.set(irq_line as usize, source_number as u8);
    }
}

/// Every interrupt source of the device, in interrupt-table order.
/// The CM4 core maps one IRQ line per source; the CM0+ core routes any
/// source onto one of its 32 IRQ lines through the interrupt multiplexer.
#[allow(non_camel_case_types)]
#[derive(Clone, Copy, Debug, PartialEq, Eq, Structural)]
pub enum InterruptSource {
    /// 0 - GPIO Port Interrupt #0
    IOSS_INTERRUPTS_GPIO_0,
    /// 1 - GPIO Port Interrupt #1
    IOSS_INTERRUPTS_GPIO_1,
    /// 2 - GPIO Port Interrupt #2
    IOSS_INTERRUPTS_GPIO_2,
    /// 3 - GPIO Port Interrupt #3
    IOSS_INTERRUPTS_GPIO_3,
    /// 4 - GPIO Port Interrupt #4
    IOSS_INTERRUPTS_GPIO_4,
    /// 5 - GPIO Port Interrupt #5
    IOSS_INTERRUPTS_GPIO_5,
    /// 6 - GPIO Port Interrupt #6
    IOSS_INTERRUPTS_GPIO_6,
    /// 7 - GPIO Port Interrupt #7
    IOSS_INTERRUPTS_GPIO_7,
    /// 8 - GPIO Port Interrupt #8
    IOSS_INTERRUPTS_GPIO_8,
    /// 9 - GPIO Port Interrupt #9
    IOSS_INTERRUPTS_GPIO_9,
    /// 10 - GPIO Port Interrupt #10
    IOSS_INTERRUPTS_GPIO_10,
    /// 11 - GPIO Port Interrupt #11
    IOSS_INTERRUPTS_GPIO_11,
    /// 12 - GPIO Port Interrupt #12
    IOSS_INTERRUPTS_GPIO_12,
    /// 13 - GPIO Port Interrupt #13
    IOSS_INTERRUPTS_GPIO_13,
    /// 14 - GPIO Port Interrupt #14
    IOSS_INTERRUPTS_GPIO_14,
    /// 15 - GPIO All Ports
    IOSS_INTERRUPT_GPIO,
    /// 16 - GPIO Supply Detect Interrupt
    IOSS_INTERRUPT_VDD,
    /// 17 - Low Power Comparator Interrupt
    LPCOMP_INTERRUPT,
    /// 18 - Serial Communication Block #8 (DeepSleep capable)
    SCB_8_INTERRUPT,
    /// 19 - Multi Counter Watchdog Timer interrupt
    SRSS_INTERRUPT_MCWDT_0,
    /// 20 - Multi Counter Watchdog Timer interrupt
    SRSS_INTERRUPT_MCWDT_1,
    /// 21 - Backup domain interrupt
    SRSS_INTERRUPT_BACKUP,
    /// 22 - Other combined Interrupts for SRSS (LVD, WDT, CLKCAL)
    SRSS_INTERRUPT,
    /// 23 - CTBm Interrupt (all CTBms)
    PASS_INTERRUPT_CTBS,
    /// 24 - Bluetooth Radio interrupt
    BLESS_INTERRUPT,
    /// 25 - CPUSS Inter Process Communication Interrupt #0
    CPUSS_INTERRUPTS_IPC_0,
    /// 26 - CPUSS Inter Process Communication Interrupt #1
    CPUSS_INTERRUPTS_IPC_1,
    /// 27 - CPUSS Inter Process Communication Interrupt #2
    CPUSS_INTERRUPTS_IPC_2,
    /// 28 - CPUSS Inter Process Communication Interrupt #3
    CPUSS_INTERRUPTS_IPC_3,
    /// 29 - CPUSS Inter Process Communication Interrupt #4
    CPUSS_INTERRUPTS_IPC_4,
    /// 30 - CPUSS Inter Process Communication Interrupt #5
    CPUSS_INTERRUPTS_IPC_5,
    /// 31 - CPUSS Inter Process Communication Interrupt #6
    CPUSS_INTERRUPTS_IPC_6,
    /// 32 - CPUSS Inter Process Communication Interrupt #7
    CPUSS_INTERRUPTS_IPC_7,
    /// 33 - CPUSS Inter Process Communication Interrupt #8
    CPUSS_INTERRUPTS_IPC_8,
    /// 34 - CPUSS Inter Process Communication Interrupt #9
    CPUSS_INTERRUPTS_IPC_9,
    /// 35 - CPUSS Inter Process Communication Interrupt #10
    CPUSS_INTERRUPTS_IPC_10,
    /// 36 - CPUSS Inter Process Communication Interrupt #11
    CPUSS_INTERRUPTS_IPC_11,
    /// 37 - CPUSS Inter Process Communication Interrupt #12
    CPUSS_INTERRUPTS_IPC_12,
    /// 38 - CPUSS Inter Process Communication Interrupt #13
    CPUSS_INTERRUPTS_IPC_13,
    /// 39 - CPUSS Inter Process Communication Interrupt #14
    CPUSS_INTERRUPTS_IPC_14,
    /// 40 - CPUSS Inter Process Communication Interrupt #15
    CPUSS_INTERRUPTS_IPC_15,
    /// 41 - Serial Communication Block #0
    SCB_0_INTERRUPT,
    /// 42 - Serial Communication Block #1
    SCB_1_INTERRUPT,
    /// 43 - Serial Communication Block #2
    SCB_2_INTERRUPT,
    /// 44 - Serial Communication Block #3
    SCB_3_INTERRUPT,
    /// 45 - Serial Communication Block #4
    SCB_4_INTERRUPT,
    /// 46 - Serial Communication Block #5
    SCB_5_INTERRUPT,
    /// 47 - Serial Communication Block #6
    SCB_6_INTERRUPT,
    /// 48 - Serial Communication Block #7
    SCB_7_INTERRUPT,
    /// 49 - CSD (Capsense) interrupt
    CSD_INTERRUPT,
    /// 50 - CPUSS DataWire #0, Channel #0
    CPUSS_INTERRUPTS_DW0_0,
    /// 51 - CPUSS DataWire #0, Channel #1
    CPUSS_INTERRUPTS_DW0_1,
    /// 52 - CPUSS DataWire #0, Channel #2
    CPUSS_INTERRUPTS_DW0_2,
    /// 53 - CPUSS DataWire #0, Channel #3
    CPUSS_INTERRUPTS_DW0_3,
    /// 54 - CPUSS DataWire #0, Channel #4
    CPUSS_INTERRUPTS_DW0_4,
    /// 55 - CPUSS DataWire #0, Channel #5
    CPUSS_INTERRUPTS_DW0_5,
    /// 56 - CPUSS DataWire #0, Channel #6
    CPUSS_INTERRUPTS_DW0_6,
    /// 57 - CPUSS DataWire #0, Channel #7
    CPUSS_INTERRUPTS_DW0_7,
    /// 58 - CPUSS DataWire #0, Channel #8
    CPUSS_INTERRUPTS_DW0_8,
    /// 59 - CPUSS DataWire #0, Channel #9
    CPUSS_INTERRUPTS_DW0_9,
    /// 60 - CPUSS DataWire #0, Channel #10
    CPUSS_INTERRUPTS_DW0_10,
    /// 61 - CPUSS DataWire #0, Channel #11
    CPUSS_INTERRUPTS_DW0_11,
    /// 62 - CPUSS DataWire #0, Channel #12
    CPUSS_INTERRUPTS_DW0_12,
    /// 63 - CPUSS DataWire #0, Channel #13
    CPUSS_INTERRUPTS_DW0_13,
    /// 64 - CPUSS DataWire #0, Channel #14
    CPUSS_INTERRUPTS_DW0_14,
    /// 65 - CPUSS DataWire #0, Channel #15
    CPUSS_INTERRUPTS_DW0_15,
    /// 66 - CPUSS DataWire #1, Channel #0
    CPUSS_INTERRUPTS_DW1_0,
    /// 67 - CPUSS DataWire #1, Channel #1
    CPUSS_INTERRUPTS_DW1_1,
    /// 68 - CPUSS DataWire #1, Channel #2
    CPUSS_INTERRUPTS_DW1_2,
    /// 69 - CPUSS DataWire #1, Channel #3
    CPUSS_INTERRUPTS_DW1_3,
    /// 70 - CPUSS DataWire #1, Channel #4
    CPUSS_INTERRUPTS_DW1_4,
    /// 71 - CPUSS DataWire #1, Channel #5
    CPUSS_INTERRUPTS_DW1_5,
    /// 72 - CPUSS DataWire #1, Channel #6
    CPUSS_INTERRUPTS_DW1_6,
    /// 73 - CPUSS DataWire #1, Channel #7
    CPUSS_INTERRUPTS_DW1_7,
    /// 74 - CPUSS DataWire #1, Channel #8
    CPUSS_INTERRUPTS_DW1_8,
    /// 75 - CPUSS DataWire #1, Channel #9
    CPUSS_INTERRUPTS_DW1_9,
    /// 76 - CPUSS DataWire #1, Channel #10
    CPUSS_INTERRUPTS_DW1_10,
    /// 77 - CPUSS DataWire #1, Channel #11
    CPUSS_INTERRUPTS_DW1_11,
    /// 78 - CPUSS DataWire #1, Channel #12
    CPUSS_INTERRUPTS_DW1_12,
    /// 79 - CPUSS DataWire #1, Channel #13
    CPUSS_INTERRUPTS_DW1_13,
    /// 80 - CPUSS DataWire #1, Channel #14
    CPUSS_INTERRUPTS_DW1_14,
    /// 81 - CPUSS DataWire #1, Channel #15
    CPUSS_INTERRUPTS_DW1_15,
    /// 82 - CPUSS Fault Structure Interrupt #0
    CPUSS_INTERRUPTS_FAULT_0,
    /// 83 - CPUSS Fault Structure Interrupt #1
    CPUSS_INTERRUPTS_FAULT_1,
    /// 84 - CRYPTO Accelerator Interrupt
    CPUSS_INTERRUPT_CRYPTO,
    /// 85 - FLASH Macro Interrupt
    CPUSS_INTERRUPT_FM,
    /// 86 - CM0+ CTI #0
    CPUSS_INTERRUPTS_CM0_CTI_0,
    /// 87 - CM0+ CTI #1
    CPUSS_INTERRUPTS_CM0_CTI_1,
    /// 88 - CM4 CTI #0
    CPUSS_INTERRUPTS_CM4_CTI_0,
    /// 89 - CM4 CTI #1
    CPUSS_INTERRUPTS_CM4_CTI_1,
    /// 90 - TCPWM #0, Counter #0
    TCPWM_0_INTERRUPTS_0,
    /// 91 - TCPWM #0, Counter #1
    TCPWM_0_INTERRUPTS_1,
    /// 92 - TCPWM #0, Counter #2
    TCPWM_0_INTERRUPTS_2,
    /// 93 - TCPWM #0, Counter #3
    TCPWM_0_INTERRUPTS_3,
    /// 94 - TCPWM #0, Counter #4
    TCPWM_0_INTERRUPTS_4,
    /// 95 - TCPWM #0, Counter #5
    TCPWM_0_INTERRUPTS_5,
    /// 96 - TCPWM #0, Counter #6
    TCPWM_0_INTERRUPTS_6,
    /// 97 - TCPWM #0, Counter #7
    TCPWM_0_INTERRUPTS_7,
    /// 98 - TCPWM #1, Counter #0
    TCPWM_1_INTERRUPTS_0,
    /// 99 - TCPWM #1, Counter #1
    TCPWM_1_INTERRUPTS_1,
    /// 100 - TCPWM #1, Counter #2
    TCPWM_1_INTERRUPTS_2,
    /// 101 - TCPWM #1, Counter #3
    TCPWM_1_INTERRUPTS_3,
    /// 102 - TCPWM #1, Counter #4
    TCPWM_1_INTERRUPTS_4,
    /// 103 - TCPWM #1, Counter #5
    TCPWM_1_INTERRUPTS_5,
    /// 104 - TCPWM #1, Counter #6
    TCPWM_1_INTERRUPTS_6,
    /// 105 - TCPWM #1, Counter #7
    TCPWM_1_INTERRUPTS_7,
    /// 106 - TCPWM #1, Counter #8
    TCPWM_1_INTERRUPTS_8,
    /// 107 - TCPWM #1, Counter #9
    TCPWM_1_INTERRUPTS_9,
    /// 108 - TCPWM #1, Counter #10
    TCPWM_1_INTERRUPTS_10,
    /// 109 - TCPWM #1, Counter #11
    TCPWM_1_INTERRUPTS_11,
    /// 110 - TCPWM #1, Counter #12
    TCPWM_1_INTERRUPTS_12,
    /// 111 - TCPWM #1, Counter #13
    TCPWM_1_INTERRUPTS_13,
    /// 112 - TCPWM #1, Counter #14
    TCPWM_1_INTERRUPTS_14,
    /// 113 - TCPWM #1, Counter #15
    TCPWM_1_INTERRUPTS_15,
    /// 114 - TCPWM #1, Counter #16
    TCPWM_1_INTERRUPTS_16,
    /// 115 - TCPWM #1, Counter #17
    TCPWM_1_INTERRUPTS_17,
    /// 116 - TCPWM #1, Counter #18
    TCPWM_1_INTERRUPTS_18,
    /// 117 - TCPWM #1, Counter #19
    TCPWM_1_INTERRUPTS_19,
    /// 118 - TCPWM #1, Counter #20
    TCPWM_1_INTERRUPTS_20,
    /// 119 - TCPWM #1, Counter #21
    TCPWM_1_INTERRUPTS_21,
    /// 120 - TCPWM #1, Counter #22
    TCPWM_1_INTERRUPTS_22,
    /// 121 - TCPWM #1, Counter #23
    TCPWM_1_INTERRUPTS_23,
    /// 122 - UDB Interrupt #0
    UDB_INTERRUPTS_0,
    /// 123 - UDB Interrupt #1
    UDB_INTERRUPTS_1,
    /// 124 - UDB Interrupt #2
    UDB_INTERRUPTS_2,
    /// 125 - UDB Interrupt #3
    UDB_INTERRUPTS_3,
    /// 126 - UDB Interrupt #4
    UDB_INTERRUPTS_4,
    /// 127 - UDB Interrupt #5
    UDB_INTERRUPTS_5,
    /// 128 - UDB Interrupt #6
    UDB_INTERRUPTS_6,
    /// 129 - UDB Interrupt #7
    UDB_INTERRUPTS_7,
    /// 130 - UDB Interrupt #8
    UDB_INTERRUPTS_8,
    /// 131 - UDB Interrupt #9
    UDB_INTERRUPTS_9,
    /// 132 - UDB Interrupt #10
    UDB_INTERRUPTS_10,
    /// 133 - UDB Interrupt #11
    UDB_INTERRUPTS_11,
    /// 134 - UDB Interrupt #12
    UDB_INTERRUPTS_12,
    /// 135 - UDB Interrupt #13
    UDB_INTERRUPTS_13,
    /// 136 - UDB Interrupt #14
    UDB_INTERRUPTS_14,
    /// 137 - UDB Interrupt #15
    UDB_INTERRUPTS_15,
    /// 138 - SAR ADC interrupt
    PASS_INTERRUPT_SAR,
    /// 139 - I2S Audio interrupt
    AUDIOSS_INTERRUPT_I2S,
    /// 140 - PDM/PCM Audio interrupt
    AUDIOSS_INTERRUPT_PDM,
    /// 141 - Energy Profiler interrupt
    PROFILE_INTERRUPT,
    /// 142 - Serial Memory Interface interrupt
    SMIF_INTERRUPT,
    /// 143 - USB Interrupt
    USB_INTERRUPT_HI,
    /// 144 - USB Interrupt
    USB_INTERRUPT_MED,
    /// 145 - USB Interrupt
    USB_INTERRUPT_LO,
    /// 146 - Consolidated interrrupt for all DACs
    PASS_INTERRUPT_DACS,
}

/// The interrupt-table position of an interrupt source.
pub open spec fn spec_number(s: InterruptSource) -> u16 {
    match s {
        InterruptSource::IOSS_INTERRUPTS_GPIO_0 => 0,
        InterruptSource::IOSS_INTERRUPTS_GPIO_1 => 1,
        InterruptSource::IOSS_INTERRUPTS_GPIO_2 => 2,
        InterruptSource::IOSS_INTERRUPTS_GPIO_3 => 3,
        InterruptSource::IOSS_INTERRUPTS_GPIO_4 => 4,
        InterruptSource::IOSS_INTERRUPTS_GPIO_5 => 5,
        InterruptSource::IOSS_INTERRUPTS_GPIO_6 => 6,
        InterruptSource::IOSS_INTERRUPTS_GPIO_7 => 7,
        InterruptSource::IOSS_INTERRUPTS_GPIO_8 => 8,
        InterruptSource::IOSS_INTERRUPTS_GPIO_9 => 9,
        InterruptSource::IOSS_INTERRUPTS_GPIO_10 => 10,
        InterruptSource::IOSS_INTERRUPTS_GPIO_11 => 11,
        InterruptSource::IOSS_INTERRUPTS_GPIO_12 => 12,
        InterruptSource::IOSS_INTERRUPTS_GPIO_13 => 13,
        InterruptSource::IOSS_INTERRUPTS_GPIO_14 => 14,
        InterruptSource::IOSS_INTERRUPT_GPIO => 15,
        InterruptSource::IOSS_INTERRUPT_VDD => 16,
        InterruptSource::LPCOMP_INTERRUPT => 17,
        InterruptSource::SCB_8_INTERRUPT => 18,
        InterruptSource::SRSS_INTERRUPT_MCWDT_0 => 19,
        InterruptSource::SRSS_INTERRUPT_MCWDT_1 => 20,
        InterruptSource::SRSS_INTERRUPT_BACKUP => 21,
        InterruptSource::SRSS_INTERRUPT => 22,
        InterruptSource::PASS_INTERRUPT_CTBS => 23,
        InterruptSource::BLESS_INTERRUPT => 24,
        InterruptSource::CPUSS_INTERRUPTS_IPC_0 => 25,
        InterruptSource::CPUSS_INTERRUPTS_IPC_1 => 26,
        InterruptSource::CPUSS_INTERRUPTS_IPC_2 => 27,
        InterruptSource::CPUSS_INTERRUPTS_IPC_3 => 28,
        InterruptSource::CPUSS_INTERRUPTS_IPC_4 => 29,
        InterruptSource::CPUSS_INTERRUPTS_IPC_5 => 30,
        InterruptSource::CPUSS_INTERRUPTS_IPC_6 => 31,
        InterruptSource::CPUSS_INTERRUPTS_IPC_7 => 32,
        InterruptSource::CPUSS_INTERRUPTS_IPC_8 => 33,
        InterruptSource::CPUSS_INTERRUPTS_IPC_9 => 34,
        InterruptSource::CPUSS_INTERRUPTS_IPC_10 => 35,
        InterruptSource::CPUSS_INTERRUPTS_IPC_11 => 36,
        InterruptSource::CPUSS_INTERRUPTS_IPC_12 => 37,
        InterruptSource::CPUSS_INTERRUPTS_IPC_13 => 38,
        InterruptSource::CPUSS_INTERRUPTS_IPC_14 => 39,
        InterruptSource::CPUSS_INTERRUPTS_IPC_15 => 40,
        InterruptSource::SCB_0_INTERRUPT => 41,
        InterruptSource::SCB_1_INTERRUPT => 42,
        InterruptSource::SCB_2_INTERRUPT => 43,
        InterruptSource::SCB_3_INTERRUPT => 44,
        InterruptSource::SCB_4_INTERRUPT => 45,
        InterruptSource::SCB_5_INTERRUPT => 46,
        InterruptSource::SCB_6_INTERRUPT => 47,
        InterruptSource::SCB_7_INTERRUPT => 48,
        InterruptSource::CSD_INTERRUPT => 49,
        InterruptSource::CPUSS_INTERRUPTS_DW0_0 => 50,
        InterruptSource::CPUSS_INTERRUPTS_DW0_1 => 51,
        InterruptSource::CPUSS_INTERRUPTS_DW0_2 => 52,
        InterruptSource::CPUSS_INTERRUPTS_DW0_3 => 53,
        InterruptSource::CPUSS_INTERRUPTS_DW0_4 => 54,
        InterruptSource::CPUSS_INTERRUPTS_DW0_5 => 55,
        InterruptSource::CPUSS_INTERRUPTS_DW0_6 => 56,
        InterruptSource::CPUSS_INTERRUPTS_DW0_7 => 57,
        InterruptSource::CPUSS_INTERRUPTS_DW0_8 => 58,
        InterruptSource::CPUSS_INTERRUPTS_DW0_9 => 59,
        InterruptSource::CPUSS_INTERRUPTS_DW0_10 => 60,
        InterruptSource::CPUSS_INTERRUPTS_DW0_11 => 61,
        InterruptSource::CPUSS_INTERRUPTS_DW0_12 => 62,
        InterruptSource::CPUSS_INTERRUPTS_DW0_13 => 63,
        InterruptSource::CPUSS_INTERRUPTS_DW0_14 => 64,
        InterruptSource::CPUSS_INTERRUPTS_DW0_15 => 65,
        InterruptSource::CPUSS_INTERRUPTS_DW1_0 => 66,
        InterruptSource::CPUSS_INTERRUPTS_DW1_1 => 67,
        InterruptSource::CPUSS_INTERRUPTS_DW1_2 => 68,
        InterruptSource::CPUSS_INTERRUPTS_DW1_3 => 69,
        InterruptSource::CPUSS_INTERRUPTS_DW1_4 => 70,
        InterruptSource::CPUSS_INTERRUPTS_DW1_5 => 71,
        InterruptSource::CPUSS_INTERRUPTS_DW1_6 => 72,
        InterruptSource::CPUSS_INTERRUPTS_DW1_7 => 73,
        InterruptSource::CPUSS_INTERRUPTS_DW1_8 => 74,
        InterruptSource::CPUSS_INTERRUPTS_DW1_9 => 75,
        InterruptSource::CPUSS_INTERRUPTS_DW1_10 => 76,
        InterruptSource::CPUSS_INTERRUPTS_DW1_11 => 77,
        InterruptSource::CPUSS_INTERRUPTS_DW1_12 => 78,
        InterruptSource::CPUSS_INTERRUPTS_DW1_13 => 79,
        InterruptSource::CPUSS_INTERRUPTS_DW1_14 => 80,
        InterruptSource::CPUSS_INTERRUPTS_DW1_15 => 81,
        InterruptSource::CPUSS_INTERRUPTS_FAULT_0 => 82,
        InterruptSource::CPUSS_INTERRUPTS_FAULT_1 => 83,
        InterruptSource::CPUSS_INTERRUPT_CRYPTO => 84,
        InterruptSource::CPUSS_INTERRUPT_FM => 85,
        InterruptSource::CPUSS_INTERRUPTS_CM0_CTI_0 => 86,
        InterruptSource::CPUSS_INTERRUPTS_CM0_CTI_1 => 87,
        InterruptSource::CPUSS_INTERRUPTS_CM4_CTI_0 => 88,
        InterruptSource::CPUSS_INTERRUPTS_CM4_CTI_1 => 89,
        InterruptSource::TCPWM_0_INTERRUPTS_0 => 90,
        InterruptSource::TCPWM_0_INTERRUPTS_1 => 91,
        InterruptSource::TCPWM_0_INTERRUPTS_2 => 92,
        InterruptSource::TCPWM_0_INTERRUPTS_3 => 93,
        InterruptSource::TCPWM_0_INTERRUPTS_4 => 94,
        InterruptSource::TCPWM_0_INTERRUPTS_5 => 95,
        InterruptSource::TCPWM_0_INTERRUPTS_6 => 96,
        InterruptSource::TCPWM_0_INTERRUPTS_7 => 97,
        InterruptSource::TCPWM_1_INTERRUPTS_0 => 98,
        InterruptSource::TCPWM_1_INTERRUPTS_1 => 99,
        InterruptSource::TCPWM_1_INTERRUPTS_2 => 100,
        InterruptSource::TCPWM_1_INTERRUPTS_3 => 101,
        InterruptSource::TCPWM_1_INTERRUPTS_4 => 102,
        InterruptSource::TCPWM_1_INTERRUPTS_5 => 103,
        InterruptSource::TCPWM_1_INTERRUPTS_6 => 104,
        InterruptSource::TCPWM_1_INTERRUPTS_7 => 105,
        InterruptSource::TCPWM_1_INTERRUPTS_8 => 106,
        InterruptSource::TCPWM_1_INTERRUPTS_9 => 107,
        InterruptSource::TCPWM_1_INTERRUPTS_10 => 108,
        InterruptSource::TCPWM_1_INTERRUPTS_11 => 109,
        InterruptSource::TCPWM_1_INTERRUPTS_12 => 110,
        InterruptSource::TCPWM_1_INTERRUPTS_13 => 111,
        InterruptSource::TCPWM_1_INTERRUPTS_14 => 112,
        InterruptSource::TCPWM_1_INTERRUPTS_15 => 113,
        InterruptSource::TCPWM_1_INTERRUPTS_16 => 114,
        InterruptSource::TCPWM_1_INTERRUPTS_17 => 115,
        InterruptSource::TCPWM_1_INTERRUPTS_18 => 116,
        InterruptSource::TCPWM_1_INTERRUPTS_19 => 117,
        InterruptSource::TCPWM_1_INTERRUPTS_20 => 118,
        InterruptSource::TCPWM_1_INTERRUPTS_21 => 119,
        InterruptSource::TCPWM_1_INTERRUPTS_22 => 120,
        InterruptSource::TCPWM_1_INTERRUPTS_23 => 121,
        InterruptSource::UDB_INTERRUPTS_0 => 122,
        InterruptSource::UDB_INTERRUPTS_1 => 123,
        InterruptSource::UDB_INTERRUPTS_2 => 124,
        InterruptSource::UDB_INTERRUPTS_3 => 125,
        InterruptSource::UDB_INTERRUPTS_4 => 126,
        InterruptSource::UDB_INTERRUPTS_5 => 127,
        InterruptSource::UDB_INTERRUPTS_6 => 128,
        InterruptSource::UDB_INTERRUPTS_7 => 129,
        InterruptSource::UDB_INTERRUPTS_8 => 130,
        InterruptSource::UDB_INTERRUPTS_9 => 131,
        InterruptSource::UDB_INTERRUPTS_10 => 132,
        InterruptSource::UDB_INTERRUPTS_11 => 133,
        InterruptSource::UDB_INTERRUPTS_12 => 134,
        InterruptSource::UDB_INTERRUPTS_13 => 135,
        InterruptSource::UDB_INTERRUPTS_14 => 136,
        InterruptSource::UDB_INTERRUPTS_15 => 137,
        InterruptSource::PASS_INTERRUPT_SAR => 138,
        InterruptSource::AUDIOSS_INTERRUPT_I2S => 139,
        InterruptSource::AUDIOSS_INTERRUPT_PDM => 140,
        InterruptSource::PROFILE_INTERRUPT => 141,
        InterruptSource::SMIF_INTERRUPT => 142,
        InterruptSource::USB_INTERRUPT_HI => 143,
        InterruptSource::USB_INTERRUPT_MED => 144,
        InterruptSource::USB_INTERRUPT_LO => 145,
        InterruptSource::PASS_INTERRUPT_DACS => 146,
    }
}

impl InterruptSource {
    /// The interrupt-table position of this source.
    pub fn number(self) -> (r: u16)
        ensures
            r == spec_number(self),
            r < 147,
    {
        match self {
            InterruptSource::IOSS_INTERRUPTS_GPIO_0 => 0,
            InterruptSource::IOSS_INTERRUPTS_GPIO_1 => 1,
            InterruptSource::IOSS_INTERRUPTS_GPIO_2 => 2,
            InterruptSource::IOSS_INTERRUPTS_GPIO_3 => 3,
            InterruptSource::IOSS_INTERRUPTS_GPIO_4 => 4,
            InterruptSource::IOSS_INTERRUPTS_GPIO_5 => 5,
            InterruptSource::IOSS_INTERRUPTS_GPIO_6 => 6,
            InterruptSource::IOSS_INTERRUPTS_GPIO_7 => 7,
            InterruptSource::IOSS_INTERRUPTS_GPIO_8 => 8,
            InterruptSource::IOSS_INTERRUPTS_GPIO_9 => 9,
            InterruptSource::IOSS_INTERRUPTS_GPIO_10 => 10,
            InterruptSource::IOSS_INTERRUPTS_GPIO_11 => 11,
            InterruptSource::IOSS_INTERRUPTS_GPIO_12 => 12,
            InterruptSource::IOSS_INTERRUPTS_GPIO_13 => 13,
            InterruptSource::IOSS_INTERRUPTS_GPIO_14 => 14,
            InterruptSource::IOSS_INTERRUPT_GPIO => 15,
            InterruptSource::IOSS_INTERRUPT_VDD => 16,
            InterruptSource::LPCOMP_INTERRUPT => 17,
            InterruptSource::SCB_8_INTERRUPT => 18,
            InterruptSource::SRSS_INTERRUPT_MCWDT_0 => 19,
            InterruptSource::SRSS_INTERRUPT_MCWDT_1 => 20,
            InterruptSource::SRSS_INTERRUPT_BACKUP => 21,
            InterruptSource::SRSS_INTERRUPT => 22,
            InterruptSource::PASS_INTERRUPT_CTBS => 23,
            InterruptSource::BLESS_INTERRUPT => 24,
            InterruptSource::CPUSS_INTERRUPTS_IPC_0 => 25,
            InterruptSource::CPUSS_INTERRUPTS_IPC_1 => 26,
            InterruptSource::CPUSS_INTERRUPTS_IPC_2 => 27,
            InterruptSource::CPUSS_INTERRUPTS_IPC_3 => 28,
            InterruptSource::CPUSS_INTERRUPTS_IPC_4 => 29,
            InterruptSource::CPUSS_INTERRUPTS_IPC_5 => 30,
            InterruptSource::CPUSS_INTERRUPTS_IPC_6 => 31,
            InterruptSource::CPUSS_INTERRUPTS_IPC_7 => 32,
            InterruptSource::CPUSS_INTERRUPTS_IPC_8 => 33,
            InterruptSource::CPUSS_INTERRUPTS_IPC_9 => 34,
            InterruptSource::CPUSS_INTERRUPTS_IPC_10 => 35,
            InterruptSource::CPUSS_INTERRUPTS_IPC_11 => 36,
            InterruptSource::CPUSS_INTERRUPTS_IPC_12 => 37,
            InterruptSource::CPUSS_INTERRUPTS_IPC_13 => 38,
            InterruptSource::CPUSS_INTERRUPTS_IPC_14 => 39,
            InterruptSource::CPUSS_INTERRUPTS_IPC_15 => 40,
            InterruptSource::SCB_0_INTERRUPT => 41,
            InterruptSource::SCB_1_INTERRUPT => 42,
            InterruptSource::SCB_2_INTERRUPT => 43,
            InterruptSource::SCB_3_INTERRUPT => 44,
            InterruptSource::SCB_4_INTERRUPT => 45,
            InterruptSource::SCB_5_INTERRUPT => 46,
            InterruptSource::SCB_6_INTERRUPT => 47,
            InterruptSource::SCB_7_INTERRUPT => 48,
            InterruptSource::CSD_INTERRUPT => 49,
            InterruptSource::CPUSS_INTERRUPTS_DW0_0 => 50,
            InterruptSource::CPUSS_INTERRUPTS_DW0_1 => 51,
            InterruptSource::CPUSS_INTERRUPTS_DW0_2 => 52,
            InterruptSource::CPUSS_INTERRUPTS_DW0_3 => 53,
            InterruptSource::CPUSS_INTERRUPTS_DW0_4 => 54,
            InterruptSource::CPUSS_INTERRUPTS_DW0_5 => 55,
            InterruptSource::CPUSS_INTERRUPTS_DW0_6 => 56,
            InterruptSource::CPUSS_INTERRUPTS_DW0_7 => 57,
            InterruptSource::CPUSS_INTERRUPTS_DW0_8 => 58,
            InterruptSource::CPUSS_INTERRUPTS_DW0_9 => 59,
            InterruptSource::CPUSS_INTERRUPTS_DW0_10 => 60,
            InterruptSource::CPUSS_INTERRUPTS_DW0_11 => 61,
            InterruptSource::CPUSS_INTERRUPTS_DW0_12 => 62,
            InterruptSource::CPUSS_INTERRUPTS_DW0_13 => 63,
            InterruptSource::CPUSS_INTERRUPTS_DW0_14 => 64,
            InterruptSource::CPUSS_INTERRUPTS_DW0_15 => 65,
            InterruptSource::CPUSS_INTERRUPTS_DW1_0 => 66,
            InterruptSource::CPUSS_INTERRUPTS_DW1_1 => 67,
            InterruptSource::CPUSS_INTERRUPTS_DW1_2 => 68,
            InterruptSource::CPUSS_INTERRUPTS_DW1_3 => 69,
            InterruptSource::CPUSS_INTERRUPTS_DW1_4 => 70,
            InterruptSource::CPUSS_INTERRUPTS_DW1_5 => 71,
            InterruptSource::CPUSS_INTERRUPTS_DW1_6 => 72,
            InterruptSource::CPUSS_INTERRUPTS_DW1_7 => 73,
            InterruptSource::CPUSS_INTERRUPTS_DW1_8 => 74,
            InterruptSource::CPUSS_INTERRUPTS_DW1_9 => 75,
            InterruptSource::CPUSS_INTERRUPTS_DW1_10 => 76,
            InterruptSource::CPUSS_INTERRUPTS_DW1_11 => 77,
            InterruptSource::CPUSS_INTERRUPTS_DW1_12 => 78,
            InterruptSource::CPUSS_INTERRUPTS_DW1_13 => 79,
            InterruptSource::CPUSS_INTERRUPTS_DW1_14 => 80,
            InterruptSource::CPUSS_INTERRUPTS_DW1_15 => 81,
            InterruptSource::CPUSS_INTERRUPTS_FAULT_0 => 82,
            InterruptSource::CPUSS_INTERRUPTS_FAULT_1 => 83,
            InterruptSource::CPUSS_INTERRUPT_CRYPTO => 84,
            InterruptSource::CPUSS_INTERRUPT_FM => 85,
            InterruptSource::CPUSS_INTERRUPTS_CM0_CTI_0 => 86,
            InterruptSource::CPUSS_INTERRUPTS_CM0_CTI_1 => 87,
            InterruptSource::CPUSS_INTERRUPTS_CM4_CTI_0 => 88,
            InterruptSource::CPUSS_INTERRUPTS_CM4_CTI_1 => 89,
            InterruptSource::TCPWM_0_INTERRUPTS_0 => 90,
            InterruptSource::TCPWM_0_INTERRUPTS_1 => 91,
            InterruptSource::TCPWM_0_INTERRUPTS_2 => 92,
            InterruptSource::TCPWM_0_INTERRUPTS_3 => 93,
            InterruptSource::TCPWM_0_INTERRUPTS_4 => 94,
            InterruptSource::TCPWM_0_INTERRUPTS_5 => 95,
            InterruptSource::TCPWM_0_INTERRUPTS_6 => 96,
            InterruptSource::TCPWM_0_INTERRUPTS_7 => 97,
            InterruptSource::TCPWM_1_INTERRUPTS_0 => 98,
            InterruptSource::TCPWM_1_INTERRUPTS_1 => 99,
            InterruptSource::TCPWM_1_INTERRUPTS_2 => 100,
            InterruptSource::TCPWM_1_INTERRUPTS_3 => 101,
            InterruptSource::TCPWM_1_INTERRUPTS_4 => 102,
            InterruptSource::TCPWM_1_INTERRUPTS_5 => 103,
            InterruptSource::TCPWM_1_INTERRUPTS_6 => 104,
            InterruptSource::TCPWM_1_INTERRUPTS_7 => 105,
            InterruptSource::TCPWM_1_INTERRUPTS_8 => 106,
            InterruptSource::TCPWM_1_INTERRUPTS_9 => 107,
            InterruptSource::TCPWM_1_INTERRUPTS_10 => 108,
            InterruptSource::TCPWM_1_INTERRUPTS_11 => 109,
            InterruptSource::TCPWM_1_INTERRUPTS_12 => 110,
            InterruptSource::TCPWM_1_INTERRUPTS_13 => 111,
            InterruptSource::TCPWM_1_INTERRUPTS_14 => 112,
            InterruptSource::TCPWM_1_INTERRUPTS_15 => 113,
            InterruptSource::TCPWM_1_INTERRUPTS_16 => 114,
            InterruptSource::TCPWM_1_INTERRUPTS_17 => 115,
            InterruptSource::TCPWM_1_INTERRUPTS_18 => 116,
            InterruptSource::TCPWM_1_INTERRUPTS_19 => 117,
            InterruptSource::TCPWM_1_INTERRUPTS_20 => 118,
            InterruptSource::TCPWM_1_INTERRUPTS_21 => 119,
            InterruptSource::TCPWM_1_INTERRUPTS_22 => 120,
            InterruptSource::TCPWM_1_INTERRUPTS_23 => 121,
            InterruptSource::UDB_INTERRUPTS_0 => 122,
            InterruptSource::UDB_INTERRUPTS_1 => 123,
            InterruptSource::UDB_INTERRUPTS_2 => 124,
            InterruptSource::UDB_INTERRUPTS_3 => 125,
            InterruptSource::UDB_INTERRUPTS_4 => 126,
            InterruptSource::UDB_INTERRUPTS_5 => 127,
            InterruptSource::UDB_INTERRUPTS_6 => 128,
            InterruptSource::UDB_INTERRUPTS_7 => 129,
            InterruptSource::UDB_INTERRUPTS_8 => 130,
            InterruptSource::UDB_INTERRUPTS_9 => 131,
            InterruptSource::UDB_INTERRUPTS_10 => 132,
            InterruptSource::UDB_INTERRUPTS_11 => 133,
            InterruptSource::UDB_INTERRUPTS_12 => 134,
            InterruptSource::UDB_INTERRUPTS_13 => 135,
            InterruptSource::UDB_INTERRUPTS_14 => 136,
            InterruptSource::UDB_INTERRUPTS_15 => 137,
            InterruptSource::PASS_INTERRUPT_SAR => 138,
            InterruptSource::AUDIOSS_INTERRUPT_I2S => 139,
            InterruptSource::AUDIOSS_INTERRUPT_PDM => 140,
            InterruptSource::PROFILE_INTERRUPT => 141,
            InterruptSource::SMIF_INTERRUPT => 142,
            InterruptSource::USB_INTERRUPT_HI => 143,
            InterruptSource::USB_INTERRUPT_MED => 144,
            InterruptSource::USB_INTERRUPT_LO => 145,
            InterruptSource::PASS_INTERRUPT_DACS => 146,
        }
    }
}
} // verus!
