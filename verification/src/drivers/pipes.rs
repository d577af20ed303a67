//! The pipe: a full-duplex logical link composed of two distinct IPC
//! channels, one per direction, each wired so that the channel one side
//! sends on is the channel whose events the other side receives as
//! interrupts. Up to [`CLIENT_COUNT`] logical clients share one pipe, their
//! turns gated by the embedded semaphore so that only one client's message
//! occupies the shared data register at a time.

use vstd::prelude::*;
use crate::drivers::cpuss::InterruptSource;
use crate::drivers::cpuss::spec_number;
use crate::drivers::ipc;
use crate::drivers::ipc::{
    ChannelConfig,
    ChannelMaskBits,
    config_notify_state,
    config_release_state,
    CriticalSection,
    InterruptMaskBits,
    IntrStructMaskBits,
    IntrStructs,
    IpcRegisters,
};
use crate::drivers::nvic::Nvic;
use crate::drivers::nvic::NvicState;
use crate::drivers::semaphore::Semaphore;

verus! {

/// How many logical clients can share one pipe.
pub const CLIENT_COUNT: u8 = 8;

/// Errors raised by the pipe layer.
#[derive(Clone, Copy, Debug, PartialEq, Eq, Structural)]
pub enum Error {
    /// A channel primitive underneath the pipe failed.
    PipeOther(ipc::Error),
    /// A pipe cannot use one hardware channel for both directions: send and
    /// receive would be indistinguishable at the hardware level.
    PipeEndpointsNotDistinct,
    PipeEp0Busy,
    PipeEp1Busy,
    PipeBusy,
}

/// The client slots multiplexed over the system pipes, one per channel role.
#[derive(Clone, Copy, Debug, PartialEq, Eq, Structural)]
pub enum CallbackClient {
    SyscallCm0,
    SyscallCm4,
    SyscallDap,
    Unused,
    Semaphores,
    Ep0,
    Ep1,
    Ddft,
    Struct8,
    Struct9,
    Struct10,
    Struct11,
    Struct12,
    Struct13,
    Struct14,
    Struct15,
    NotOne,
}

/// A full-duplex logical channel over two hardware channels. Created once at
/// start-up, configured before first use, stopped only at shutdown.
pub struct Pipe {
    receive_ep: ChannelMaskBits,
    receive_ep_config: ChannelConfig,
    send_ep: ChannelMaskBits,
    send_ep_config: ChannelConfig,
    semaphore: Semaphore,
    running: bool,
}

/// The endpoint configuration the boot core gives pipe endpoint 0: its
/// events go to endpoint 1's interrupt structure and raise CPU interrupt
/// line 1.
pub open spec fn ep0_system_config() -> ChannelConfig {
    ChannelConfig {
        struct_release: IntrStructMaskBits { bits: 16 },
        struct_notify: IntrStructMaskBits { bits: 16 },
        intr_release_mask: InterruptMaskBits { bits: 2 },
        intr_notify_mask: InterruptMaskBits { bits: 2 },
    }
}

/// The endpoint configuration the boot core gives pipe endpoint 1: its
/// events go to endpoint 0's interrupt structure and raise CPU interrupt
/// line 0.
pub open spec fn ep1_system_config() -> ChannelConfig {
    ChannelConfig {
        struct_release: IntrStructMaskBits { bits: 8 },
        struct_notify: IntrStructMaskBits { bits: 8 },
        intr_release_mask: InterruptMaskBits { bits: 1 },
        intr_notify_mask: InterruptMaskBits { bits: 1 },
    }
}

/// The empty channel configuration: nothing routed anywhere.
pub open spec fn unbound_config() -> ChannelConfig {
    ChannelConfig {
        struct_release: IntrStructMaskBits { bits: 0 },
        struct_notify: IntrStructMaskBits { bits: 0 },
        intr_release_mask: InterruptMaskBits { bits: 0 },
        intr_notify_mask: InterruptMaskBits { bits: 0 },
    }
}

impl Pipe {
    /// The channel mask of the receiving endpoint.
    pub closed spec fn receive_ep_spec(&self) -> ChannelMaskBits {
        self.receive_ep
    }

    /// The configuration of the receiving endpoint.
    pub closed spec fn receive_ep_config_spec(&self) -> ChannelConfig {
        self.receive_ep_config
    }

    /// The channel mask of the sending endpoint.
    pub closed spec fn send_ep_spec(&self) -> ChannelMaskBits {
        self.send_ep
    }

    /// The configuration of the sending endpoint.
    pub closed spec fn send_ep_config_spec(&self) -> ChannelConfig {
        self.send_ep_config
    }

    /// The embedded client-slot semaphore.
    pub closed spec fn semaphore_spec(&self) -> Semaphore {
        self.semaphore
    }

    /// Whether the pipe is accepting client traffic.
    pub closed spec fn running_spec(&self) -> bool {
        self.running
    }

    /// A pipe with both endpoints unbound, an empty configuration, a fresh
    /// semaphore, and client traffic not yet accepted.
    pub fn new() -> (r: Pipe)
        ensures
            r.receive_ep_spec().bits == 0u16,
            r.receive_ep_config_spec() == unbound_config(),
            r.send_ep_spec().bits == 0u16,
            r.send_ep_config_spec() == unbound_config(),
            r.semaphore_spec().flags_spec() == 0u128,
            !r.running_spec(),
    {
        Pipe {
            receive_ep: ChannelMaskBits::none(),
            receive_ep_config: ChannelConfig {
                struct_release: IntrStructMaskBits::none(),
                struct_notify: IntrStructMaskBits::none(),
                intr_release_mask: InterruptMaskBits::none(),
                intr_notify_mask: InterruptMaskBits::none(),
            },
            send_ep: ChannelMaskBits::none(),
            send_ep_config: ChannelConfig {
                struct_release: IntrStructMaskBits::none(),
                struct_notify: IntrStructMaskBits::none(),
                intr_release_mask: InterruptMaskBits::none(),
                intr_notify_mask: InterruptMaskBits::none(),
            },
            semaphore: Semaphore::new(),
            running: false,
        }
    }

    /// Binds the two endpoint channels of the pipe. The endpoints must be
    /// distinct: with one channel for both directions, send and receive
    /// would be indistinguishable, so identical endpoints are rejected with
    /// [`Error::PipeEndpointsNotDistinct`] and distinct ones always
    /// accepted, the returned pipe reporting exactly the given endpoints
    /// with its configuration and semaphore carried over.
    pub fn configure_pipe_endpoints(
        self,
        send_ep: ChannelMaskBits,
        receive_ep: ChannelMaskBits,
    ) -> (r: Result<Pipe, Error>)
        ensures
            send_ep != receive_ep ==> {
                &&& r is Ok
                &&& r->Ok_0.send_ep_spec() == send_ep
                &&& r->Ok_0.receive_ep_spec() == receive_ep
                &&& r->Ok_0.send_ep_config_spec() == self.send_ep_config_spec()
                &&& r->Ok_0.receive_ep_config_spec() == self.receive_ep_config_spec()
                &&& r->Ok_0.semaphore_spec() == self.semaphore_spec()
                &&& r->Ok_0.running_spec() == self.running_spec()
            },
            send_ep == receive_ep ==> r == Err::<Pipe, Error>(Error::PipeEndpointsNotDistinct),
    {
        if send_ep != receive_ep {
            Ok(
                Pipe {
                    receive_ep,
                    send_ep,
                    send_ep_config: self.send_ep_config,
                    receive_ep_config: self.receive_ep_config,
                    semaphore: self.semaphore,
                    running: self.running,
                },
            )
        } else {
            Err(Error::PipeEndpointsNotDistinct)
        }
    }

    /// The boot core's start-up wiring of the system pipes. Endpoint 0
    /// (channel 5) is this core's receive endpoint, endpoint 1 (channel 6)
    /// the peer's: each endpoint's interrupt structure is configured to
    /// route to the other side's CPU interrupt line, full duplex, and this
    /// core's own line is given priority 1 and enabled.
    pub fn configure_system_pipe_channels(
        self,
        intr_structs: &mut IntrStructs,
        nvic: &mut Nvic,
        regs: &mut IpcRegisters,
        cs: &CriticalSection,
    ) -> (r: Result<Pipe, Error>)
        requires
            old(intr_structs).wf(),
            old(nvic)@.wf(),
            old(regs)@.wf(),
        ensures
            *final(intr_structs) == *old(intr_structs),
            final(regs)@.wf(),
            final(regs)@ == config_notify_state(
                config_release_state(
                    config_notify_state(config_release_state(old(regs)@, 3, 2u16), 3, 2u16),
                    4,
                    1u16,
                ),
                4,
                1u16,
            ),
            final(nvic)@.wf(),
            final(nvic)@ == (NvicState {
                enabled: old(nvic)@.enabled.update(25, true),
                priority: old(nvic)@.priority.update(25, 1u8),
                pending: old(nvic)@.pending.update(25, false),
            }),
            r is Ok,
            r->Ok_0.send_ep_spec().bits == 32u16,
            r->Ok_0.send_ep_config_spec() == ep0_system_config(),
            r->Ok_0.receive_ep_spec().bits == 64u16,
            r->Ok_0.receive_ep_config_spec() == ep1_system_config(),
            r->Ok_0.semaphore_spec() == self.semaphore_spec(),
            r->Ok_0.running_spec() == self.running_spec(),
    {
        let ep0_cfg = ChannelConfig {
            struct_release: IntrStructMaskBits::intr_ep1(),
            struct_notify: IntrStructMaskBits::intr_ep1(),
            intr_release_mask: InterruptMaskBits::cpuss_interrupt1(),
            intr_notify_mask: InterruptMaskBits::cpuss_interrupt1(),
        };
        let ep1_cfg = ChannelConfig {
            struct_release: IntrStructMaskBits::intr_ep0(),
            struct_notify: IntrStructMaskBits::intr_ep0(),
            intr_release_mask: InterruptMaskBits::cpuss_interrupt0(),
            intr_notify_mask: InterruptMaskBits::cpuss_interrupt0(),
        };
        // The routing registers have no interlock; the token witnesses the
        // critical section around the start-up wiring.
        if let Err(e) = intr_structs.intr_ep0.configure(regs, &ep0_cfg, cs) {
            return Err(Error::PipeOther(e));
        }
        if let Err(e) = intr_structs.intr_ep1.configure(regs, &ep1_cfg, cs) {
            return Err(Error::PipeOther(e));
        }
        // Only CPU interrupt line 0 belongs to this core; priority 1 is the
        // second highest.
        nvic.configure_interrupt(InterruptSource::CPUSS_INTERRUPTS_IPC_0, 1);
        nvic.enable_interrupt(InterruptSource::CPUSS_INTERRUPTS_IPC_0);
        Ok(
            Pipe {
                send_ep: ChannelMaskBits::ep0(),
                send_ep_config: ep0_cfg,
                receive_ep: ChannelMaskBits::ep1(),
                receive_ep_config: ep1_cfg,
                semaphore: self.semaphore,
                running: self.running,
            },
        )
    }

    /// The peer core's side of the system pipe wiring. The boot core has
    /// already routed both endpoints' interrupt structures, so the peer
    /// binds no further masks here; the hook stands for the peer's own
    /// start-up sequence.
    pub fn configure_system_pipes(&self) {
    }

    /// Begins accepting client traffic.
    pub fn start_system_pipes(&mut self)
        ensures
            final(self).running_spec(),
            final(self).send_ep_spec() == old(self).send_ep_spec(),
            final(self).receive_ep_spec() == old(self).receive_ep_spec(),
            final(self).send_ep_config_spec() == old(self).send_ep_config_spec(),
            final(self).receive_ep_config_spec() == old(self).receive_ep_config_spec(),
            final(self).semaphore_spec() == old(self).semaphore_spec(),
    {
        self.running = true;
    }

    /// Stops accepting client traffic.
    pub fn stop_system_pipes(&mut self)
        ensures
            !final(self).running_spec(),
            final(self).send_ep_spec() == old(self).send_ep_spec(),
            final(self).receive_ep_spec() == old(self).receive_ep_spec(),
            final(self).send_ep_config_spec() == old(self).send_ep_config_spec(),
            final(self).receive_ep_config_spec() == old(self).receive_ep_config_spec(),
            final(self).semaphore_spec() == old(self).semaphore_spec(),
    {
        self.running = false;
    }

    /// The channel mask of the sending endpoint.
    pub fn send_ep(&self) -> (r: ChannelMaskBits)
        ensures
            r == self.send_ep_spec(),
    {
        self.send_ep
    }

    /// The channel mask of the receiving endpoint.
    pub fn receive_ep(&self) -> (r: ChannelMaskBits)
        ensures
            r == self.receive_ep_spec(),
    {
        self.receive_ep
    }

    /// Whether the pipe is accepting client traffic.
    pub fn is_running(&self) -> (r: bool)
        ensures
            r == self.running_spec(),
    {
        self.running
    }

    /// The embedded client-slot semaphore.
    pub fn semaphore(&self) -> (r: &Semaphore)
        ensures
            *r == self.semaphore_spec(),
    {
        &self.semaphore
    }

    /// Mutable access to the embedded client-slot semaphore, for claiming
    /// and releasing client slots.
    pub fn semaphore_mut(&mut self) -> (r: &mut Semaphore)
        ensures
            *r == old(self).semaphore_spec(),
            final(self).semaphore_spec() == *final(r),
            final(self).send_ep_spec() == old(self).send_ep_spec(),
            final(self).receive_ep_spec() == old(self).receive_ep_spec(),
            final(self).send_ep_config_spec() == old(self).send_ep_config_spec(),
            final(self).receive_ep_config_spec() == old(self).receive_ep_config_spec(),
            final(self).running_spec() == old(self).running_spec(),
    {
        &mut self.semaphore
    }
}

} // verus!
