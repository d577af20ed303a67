//! The CPU interrupt controller, as the "enable this interrupt line"
//! capability the IPC wiring consumes: per interrupt source an enable bit, a
//! priority, and a pending latch.

use vstd::prelude::*;
use vstd::pervasive::VecAdditionalExecFns;
use crate::drivers::cpuss::InterruptSource;
use crate::drivers::cpuss::spec_number;

verus! {

/// How many interrupt sources the controller serves.
pub const INTERRUPT_SOURCE_COUNT: usize = 147;

/// The interrupt-controller driver, sole owner of its register image.
pub struct Nvic {
    enabled: Vec<bool>,
    priority: Vec<u8>,
    pending: Vec<bool>,
}

/// The mathematical state of the interrupt controller, indexed by interrupt
/// source number.
#[verifier::ext_equal]
pub ghost struct NvicState {
    pub enabled: Seq<bool>,
    pub priority: Seq<u8>,
    pub pending: Seq<bool>,
}

impl NvicState {
    /// Well-formedness: one entry per interrupt source.
    pub open spec fn wf(self) -> bool {
        &&& self.enabled.len() == 147
        &&& self.priority.len() == 147
        &&& self.pending.len() == 147
    }
}

impl View for Nvic {
    type V = NvicState;

    closed spec fn view(&self) -> NvicState {
        NvicState { enabled: self.enabled@, priority: self.priority@, pending: self.pending@ }
    }
}

impl Nvic {
    /// The controller as it comes out of reset: every source masked, at
    /// priority zero, nothing pending.
    pub fn new() -> (r: Nvic)
        ensures
            r@.wf(),
            forall|i: int| 0 <= i < 147 ==> !r@.enabled[i],
            forall|i: int| 0 <= i < 147 ==> r@.priority[i] == 0u8,
            forall|i: int| 0 <= i < 147 ==> !r@.pending[i],
    {
        let mut enabled: Vec<bool> = Vec::new();
        let mut priority: Vec<u8> = Vec::new();
        let mut pending: Vec<bool> = Vec::new();
        let mut i: usize = 0;
        while i < 147
            invariant
                i <= 147,
                enabled@.len() == i,
                priority@.len() == i,
                pending@.len() == i,
                forall|j: int| 0 <= j < i ==> !enabled@[j],
                forall|j: int| 0 <= j < i ==> priority@[j] == 0u8,
                forall|j: int| 0 <= j < i ==> !pending@[j],
            decreases 147 - i,
        {
            enabled.push(false);
            priority.push(0);
            pending.push(false);
            i += 1;
        }
        Nvic { enabled, priority, pending }
    }

    /// Unmasks the interrupt source: its pending events reach the CPU.
    pub fn enable_interrupt(&mut self, irqn: InterruptSource)
        requires
            old(self)@.wf(),
        ensures
            final(self)@.wf(),
            final(self)@ == (NvicState {
                enabled: old(self)@.enabled.update(spec_number(irqn) as int, true),
                ..old(self)@
            }),
    {
        let n = irqn.number() as usize;
        self.enabled.set(n, true);
    }

    /// Masks the interrupt source.
    pub fn disable_interrupt(&mut self, irqn: InterruptSource)
        requires
            old(self)@.wf(),
        ensures
            final(self)@.wf(),
            final(self)@ == (NvicState {
                enabled: old(self)@.enabled.update(spec_number(irqn) as int, false),
                ..old(self)@
            }),
    {
        let n = irqn.number() as usize;
        self.enabled.set(n, false);
    }

    /// Sets the source's priority and releases any interrupt already
    /// pending for it, so a stale event cannot fire with the new priority.
    pub fn configure_interrupt(&mut self, irqn: InterruptSource, priority: u8)
        requires
            old(self)@.wf(),
        ensures
            final(self)@.wf(),
            final(self)@ == (NvicState {
                priority: old(self)@.priority.update(spec_number(irqn) as int, priority),
                pending: old(self)@.pending.update(spec_number(irqn) as int, false),
                ..old(self)@
            }),
    {
        let n = irqn.number() as usize;
        self.priority.set(n, priority);
        self.clear_interrupt(irqn);
    }

    /// Releases a pending interrupt for the source.
    pub fn clear_interrupt(&mut self, irqn: InterruptSource)
        requires
            old(self)@.wf(),
        ensures
            final(self)@.wf(),
            final(self)@ == (NvicState {
                pending: old(self)@.pending.update(spec_number(irqn) as int, false),
                ..old(self)@
            }),
    {
        let n = irqn.number() as usize;
        self.pending.set(n, false);
    }

    /// Whether the source is unmasked.
    pub fn is_enabled(&self, irqn: InterruptSource) -> (r: bool)
        requires
            self@.wf(),
        ensures
            r == self@.enabled[spec_number(irqn) as int],
    {
        self.enabled[irqn.number() as usize]
    }

    /// The source's configured priority.
    pub fn priority_of(&self, irqn: InterruptSource) -> (r: u8)
        requires
            self@.wf(),
        ensures
            r == self@.priority[spec_number(irqn) as int],
    {
        self.priority[irqn.number() as usize]
    }

    /// Whether an interrupt is pending for the source.
    pub fn is_pending(&self, irqn: InterruptSource) -> (r: bool)
        requires
            self@.wf(),
        ensures
            r == self@.pending[spec_number(irqn) as int],
    {
        self.pending[irqn.number() as usize]
    }
}

} // verus!
