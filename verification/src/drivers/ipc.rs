//! Inter-processor communication (IPC) between the two CPU cores.
//!
//! The hardware offers 16 mailbox channels, each with a lock bit enforcing
//! mutual exclusion between the cores, a 32-bit data register, and one-way
//! notify/release event signalling; and 16 interrupt structures, each holding
//! the routing masks that turn a channel's events into CPU interrupt lines.
//!
//! The register block is represented by [`IpcRegisters`], an owned image of
//! those registers constructed once at start-up. The hardware is authoritative
//! for lock state: no lock state is cached in the channel handles, every
//! operation reads or writes the image directly. Events are latched: a notify
//! or release event sets the pending bits of every selected interrupt
//! structure for the CPU lines its routing mask names at that moment, and the
//! bits stay set until acknowledged with a write-one-to-clear; an interrupt
//! structure whose routing mask is still empty latches nothing, so events
//! raised before configuration generate no CPU interrupt. Several events
//! before one acknowledgement coalesce into a single pending set.

use vstd::prelude::*;
use vstd::pervasive::VecAdditionalExecFns;

verus! {

/// Number of hardware IPC channels, and of interrupt structures.
pub const CHANNEL_COUNT: usize = 16;

/// How many times an acquisition polls the busy lock before giving up.
pub const ACQUIRE_RETRY_COUNT: u32 = 200;

/// Errors raised by the channel primitives.
#[derive(Clone, Copy, Debug, PartialEq, Eq, Structural)]
pub enum Error {
    AcquisitionFailed,
    ReleaseFailed,
    SendFailed,
    ReceiveFailed,
    ChannelBusy,
    SemaphoreError(crate::error::Error),
}

impl core::convert::From<crate::error::Error> for Error {
    /// Wraps a semaphore-layer error, so `?` carries it through the
    /// channel layer.
    fn from(residual: crate::error::Error) -> (r: Error) {
        Error::SemaphoreError(residual)
    }
}

impl vstd::std_specs::convert::FromSpecImpl<crate::error::Error> for Error {
    open spec fn obeys_from_spec() -> bool {
        true
    }

    open spec fn from_spec(t: crate::error::Error) -> Error {
        Error::SemaphoreError(t)
    }
}

/// Marker for a channel handle that holds the hardware lock.
pub struct Acquired;

/// Marker for a channel handle that does not hold the hardware lock.
pub struct Released;

/// The lock states a channel handle can be in.
pub trait Lock {}

impl Lock for Acquired {}

impl Lock for Released {}

/// Splitting an IPC peripheral into its channel and interrupt-structure
/// handles.
pub trait IpcChannel {
    type Channels;

    type IntrStructs;

    fn split(self) -> (Self::Channels, Self::IntrStructs);
}

/// Callbacks a client registers for the release and notify events of an IPC
/// channel.
pub trait IpcCallback {
    type DataType;

    fn notify_callback(message: Self::DataType);

    fn release_callback();

    fn default_release_callback() {
    }
}

/// Witness that the caller runs with interrupts disabled. The
/// interrupt-structure routing registers have no hardware interlock, so a
/// configuration write racing an interrupt handler or the other core's
/// start-up code would corrupt the masks; the constructor's caller attests
/// that no such race can happen for the token's lifetime.
pub struct CriticalSection;

impl CriticalSection {
    /// The caller attests that interrupts are disabled (or that no concurrent
    /// access to the routing registers is possible) while the token lives.
    pub fn new() -> CriticalSection {
        CriticalSection
    }
}

/// A mask selecting CPU interrupt lines (one bit per line, 16 lines).
#[derive(Clone, Copy, Debug, PartialEq, Eq, Structural)]
pub struct InterruptMaskBits {
    pub bits: u16,
}

impl InterruptMaskBits {
    /// The empty mask: no CPU interrupt line selected.
    pub fn none() -> (r: InterruptMaskBits)
        ensures
            r.bits == 0u16,
    {
        InterruptMaskBits { bits: 0 }
    }

    /// The mask holding exactly the given bits.
    pub fn from_bits(bits: u16) -> (r: InterruptMaskBits)
        ensures
            r.bits == bits,
    {
        InterruptMaskBits { bits }
    }

    /// The mask selecting exactly CPU interrupt line `line`.
    pub fn single(line: u16) -> (r: InterruptMaskBits)
        requires
            line < 16,
        ensures
            r.bits == 1u16 << line,
    {
        InterruptMaskBits { bits: 1u16 << line }
    }

    /// CPU interrupt line 0.
    pub fn cpuss_interrupt0() -> (r: InterruptMaskBits)
        ensures
            r.bits == 1u16,
    {
        InterruptMaskBits { bits: 1 }
    }

    /// CPU interrupt line 1.
    pub fn cpuss_interrupt1() -> (r: InterruptMaskBits)
        ensures
            r.bits == 2u16,
    {
        InterruptMaskBits { bits: 2 }
    }

    /// The raw bits of the mask.
    pub fn bits(&self) -> (r: u16)
        ensures
            r == self.bits,
    {
        self.bits
    }
}

/// A mask selecting interrupt structures (one bit per structure, 16 of them).
/// The named constructors follow the system assignment of the structures.
#[derive(Clone, Copy, Debug, PartialEq, Eq, Structural)]
pub struct IntrStructMaskBits {
    pub bits: u16,
}

impl IntrStructMaskBits {
    /// The empty mask: no interrupt structure selected.
    pub fn none() -> (r: IntrStructMaskBits)
        ensures
            r.bits == 0u16,
    {
        IntrStructMaskBits { bits: 0 }
    }

    /// The mask holding exactly the given bits.
    pub fn from_bits(bits: u16) -> (r: IntrStructMaskBits)
        ensures
            r.bits == bits,
    {
        IntrStructMaskBits { bits }
    }

    /// The mask selecting exactly interrupt structure `index`.
    pub fn single(index: u16) -> (r: IntrStructMaskBits)
        requires
            index < 16,
        ensures
            r.bits == 1u16 << index,
    {
        IntrStructMaskBits { bits: 1u16 << index }
    }

    /// The syscall interrupt structure (structure 0).
    pub fn syscall() -> (r: IntrStructMaskBits)
        ensures
            r.bits == 1u16,
    {
        IntrStructMaskBits { bits: 1 }
    }

    /// The interrupt structure assigned to pipe endpoint 0 (structure 3).
    pub fn intr_ep0() -> (r: IntrStructMaskBits)
        ensures
            r.bits == 8u16,
    {
        IntrStructMaskBits { bits: 8 }
    }

    /// The interrupt structure assigned to pipe endpoint 1 (structure 4).
    pub fn intr_ep1() -> (r: IntrStructMaskBits)
        ensures
            r.bits == 16u16,
    {
        IntrStructMaskBits { bits: 16 }
    }

    /// The raw bits of the mask.
    pub fn bits(&self) -> (r: u16)
        ensures
            r == self.bits,
    {
        self.bits
    }
}

/// A mask selecting IPC channels (one bit per channel). The named
/// constructors follow the fixed system assignment of channels 0-7; channels
/// 8-15 are user-assignable.
#[derive(Clone, Copy, Debug, PartialEq, Eq, Structural)]
pub struct ChannelMaskBits {
    pub bits: u16,
}

impl ChannelMaskBits {
    /// The empty mask: no channel selected.
    pub fn none() -> (r: ChannelMaskBits)
        ensures
            r.bits == 0u16,
    {
        ChannelMaskBits { bits: 0 }
    }

    /// The mask holding exactly the given bits.
    pub fn from_bits(bits: u16) -> (r: ChannelMaskBits)
        ensures
            r.bits == bits,
    {
        ChannelMaskBits { bits }
    }

    /// The mask selecting exactly channel `index`.
    pub fn single(index: u16) -> (r: ChannelMaskBits)
        requires
            index < 16,
        ensures
            r.bits == 1u16 << index,
    {
        ChannelMaskBits { bits: 1u16 << index }
    }

    /// The semaphores channel (channel 4).
    pub fn semaphores() -> (r: ChannelMaskBits)
        ensures
            r.bits == 16u16,
    {
        ChannelMaskBits { bits: 16 }
    }

    /// Pipe endpoint 0 (channel 5).
    pub fn ep0() -> (r: ChannelMaskBits)
        ensures
            r.bits == 32u16,
    {
        ChannelMaskBits { bits: 32 }
    }

    /// Pipe endpoint 1 (channel 6).
    pub fn ep1() -> (r: ChannelMaskBits)
        ensures
            r.bits == 64u16,
    {
        ChannelMaskBits { bits: 64 }
    }

    /// The raw bits of the mask.
    pub fn bits(&self) -> (r: u16)
        ensures
            r == self.bits,
    {
        self.bits
    }
}

/// The four routing masks that wire one channel's events to CPU interrupt
/// lines: which interrupt structures its release and notify events fan out
/// to, and which CPU lines those structures raise for each event kind.
#[derive(Clone, Copy, Debug, PartialEq, Eq, Structural)]
pub struct ChannelConfig {
    /// Release events are sent to every interrupt structure with a set bit.
    pub struct_release: IntrStructMaskBits,
    /// Notify events are sent to every interrupt structure with a set bit.
    pub struct_notify: IntrStructMaskBits,
    /// A release event raises every CPU interrupt line with a set bit.
    pub intr_release_mask: InterruptMaskBits,
    /// A notify event raises every CPU interrupt line with a set bit.
    pub intr_notify_mask: InterruptMaskBits,
}

/// The registers of one IPC channel: the lock bit, the 32-bit mailbox, and a
/// diagnostic count of how many times the last acquisition polled the
/// acquire register (the hardware acquire register is read-sensitive, so the
/// image records the reads to make contention observable).
#[derive(Clone, Copy, Debug, PartialEq, Eq, Structural)]
pub struct ChannelRegisters {
    /// The hardware lock bit: set while one core holds the channel.
    pub lock_status: bool,
    /// The 32-bit mailbox data register.
    pub data: u32,
    /// How many times the most recent `acquire_lock` polled the acquire
    /// register before succeeding or giving up.
    pub acquire_attempts: u32,
}

/// The registers of one interrupt structure: the notify and release routing
/// masks, and the latched pending bits per CPU interrupt line. Pending bits
/// are write-one-to-clear.
#[derive(Clone, Copy, Debug, PartialEq, Eq, Structural)]
pub struct IntrStructRegisters {
    /// CPU lines raised when a bound channel sends a notify event.
    pub notify_mask: u16,
    /// CPU lines raised when a bound channel's lock is released.
    pub release_mask: u16,
    /// Latched pending notify interrupts, per CPU line.
    pub notify_pending: u16,
    /// Latched pending release interrupts, per CPU line.
    pub release_pending: u16,
}

/// The owned image of the whole IPC register block: 16 channels and their 16
/// interrupt structures. Both cores coordinate through this one block, so a
/// simulation of the peer core operates on the same image.
pub struct IpcRegisters {
    channels: Vec<ChannelRegisters>,
    intr_structs: Vec<IntrStructRegisters>,
}

/// The mathematical state of the IPC register block.
#[verifier::ext_equal]
pub ghost struct IpcState {
    pub channels: Seq<ChannelRegisters>,
    pub intr_structs: Seq<IntrStructRegisters>,
}

impl IpcState {
    /// Well-formedness: exactly 16 channels and 16 interrupt structures.
    pub open spec fn wf(self) -> bool {
        &&& self.channels.len() == 16
        &&& self.intr_structs.len() == 16
    }
}

impl View for IpcRegisters {
    type V = IpcState;

    closed spec fn view(&self) -> IpcState {
        IpcState { channels: self.channels@, intr_structs: self.intr_structs@ }
    }
}

/// Whether bit `i` of a 16-bit mask is set.
pub open spec fn bit_set(mask: u16, i: int) -> bool {
    mask & (1u16 << (i as u16)) != 0
}

/// An interrupt structure after a notify event reaches it: the CPU lines its
/// notify routing mask names become pending, on top of whatever was pending.
pub open spec fn latched_notify(r: IntrStructRegisters) -> IntrStructRegisters {
    IntrStructRegisters {
        notify_mask: r.notify_mask,
        release_mask: r.release_mask,
        notify_pending: r.notify_pending | r.notify_mask,
        release_pending: r.release_pending,
    }
}

/// An interrupt structure after a release event reaches it.
pub open spec fn latched_release(r: IntrStructRegisters) -> IntrStructRegisters {
    IntrStructRegisters {
        notify_mask: r.notify_mask,
        release_mask: r.release_mask,
        notify_pending: r.notify_pending,
        release_pending: r.release_pending | r.release_mask,
    }
}

/// The interrupt structures after a notify event fans out to every structure
/// with a set bit in `mask`.
pub open spec fn fanout_notify(intrs: Seq<IntrStructRegisters>, mask: u16) -> Seq<
    IntrStructRegisters,
> {
    Seq::new(
        intrs.len(),
        |i: int|
            if bit_set(mask, i) {
                latched_notify(intrs[i])
            } else {
                intrs[i]
            },
    )
}

/// The interrupt structures after a release event fans out to every structure
/// with a set bit in `mask`.
pub open spec fn fanout_release(intrs: Seq<IntrStructRegisters>, mask: u16) -> Seq<
    IntrStructRegisters,
> {
    Seq::new(
        intrs.len(),
        |i: int|
            if bit_set(mask, i) {
                latched_release(intrs[i])
            } else {
                intrs[i]
            },
    )
}

/// The block after channel `c` raises a notify event routed to the interrupt
/// structures selected by `mask`. The lock and the mailbox are untouched.
pub open spec fn notify_state(s: IpcState, mask: u16) -> IpcState {
    IpcState { channels: s.channels, intr_structs: fanout_notify(s.intr_structs, mask) }
}

/// The block after channel `c`'s lock is released with release routing mask
/// `mask`: the lock bit clears and a release event fans out.
pub open spec fn release_state(s: IpcState, c: int, mask: u16) -> IpcState {
    IpcState {
        channels: s.channels.update(
            c,
            ChannelRegisters {
                lock_status: false,
                data: s.channels[c].data,
                acquire_attempts: s.channels[c].acquire_attempts,
            },
        ),
        intr_structs: fanout_release(s.intr_structs, mask),
    }
}

/// The block after a successful acquisition of channel `c`: the first poll of
/// the acquire register succeeds and sets the lock.
pub open spec fn acquire_ok_state(s: IpcState, c: int) -> IpcState {
    IpcState {
        channels: s.channels.update(
            c,
            ChannelRegisters { lock_status: true, data: s.channels[c].data, acquire_attempts: 1 },
        ),
        intr_structs: s.intr_structs,
    }
}

/// The block after an acquisition of busy channel `c` gives up: the lock is
/// untouched and the acquire register has been polled the full retry budget.
pub open spec fn acquire_busy_state(s: IpcState, c: int) -> IpcState {
    IpcState {
        channels: s.channels.update(
            c,
            ChannelRegisters {
                lock_status: s.channels[c].lock_status,
                data: s.channels[c].data,
                acquire_attempts: ACQUIRE_RETRY_COUNT,
            },
        ),
        intr_structs: s.intr_structs,
    }
}

/// The block after the mailbox of channel `c` is written with `word`.
pub open spec fn write_data_state(s: IpcState, c: int, word: u32) -> IpcState {
    IpcState {
        channels: s.channels.update(
            c,
            ChannelRegisters {
                lock_status: s.channels[c].lock_status,
                data: word,
                acquire_attempts: s.channels[c].acquire_attempts,
            },
        ),
        intr_structs: s.intr_structs,
    }
}

/// The block after the notify routing mask of interrupt structure `si` is
/// configured to `mask`.
pub open spec fn config_notify_state(s: IpcState, si: int, mask: u16) -> IpcState {
    IpcState {
        channels: s.channels,
        intr_structs: s.intr_structs.update(
            si,
            IntrStructRegisters {
                notify_mask: mask,
                release_mask: s.intr_structs[si].release_mask,
                notify_pending: s.intr_structs[si].notify_pending,
                release_pending: s.intr_structs[si].release_pending,
            },
        ),
    }
}

/// The block after the release routing mask of interrupt structure `si` is
/// configured to `mask`.
pub open spec fn config_release_state(s: IpcState, si: int, mask: u16) -> IpcState {
    IpcState {
        channels: s.channels,
        intr_structs: s.intr_structs.update(
            si,
            IntrStructRegisters {
                notify_mask: s.intr_structs[si].notify_mask,
                release_mask: mask,
                notify_pending: s.intr_structs[si].notify_pending,
                release_pending: s.intr_structs[si].release_pending,
            },
        ),
    }
}

/// The block after the pending notify bits in `mask` of interrupt structure
/// `si` are acknowledged (write-one-to-clear).
pub open spec fn clear_notify_state(s: IpcState, si: int, mask: u16) -> IpcState {
    IpcState {
        channels: s.channels,
        intr_structs: s.intr_structs.update(
            si,
            IntrStructRegisters {
                notify_mask: s.intr_structs[si].notify_mask,
                release_mask: s.intr_structs[si].release_mask,
                notify_pending: s.intr_structs[si].notify_pending & !mask,
                release_pending: s.intr_structs[si].release_pending,
            },
        ),
    }
}

/// The block after the pending release bits in `mask` of interrupt structure
/// `si` are acknowledged (write-one-to-clear).
pub open spec fn clear_release_state(s: IpcState, si: int, mask: u16) -> IpcState {
    IpcState {
        channels: s.channels,
        intr_structs: s.intr_structs.update(
            si,
            IntrStructRegisters {
                notify_mask: s.intr_structs[si].notify_mask,
                release_mask: s.intr_structs[si].release_mask,
                notify_pending: s.intr_structs[si].notify_pending,
                release_pending: s.intr_structs[si].release_pending & !mask,
            },
        ),
    }
}

/// The reset state of one channel: unlocked, mailbox zero.
pub open spec fn channel_reset() -> ChannelRegisters {
    ChannelRegisters { lock_status: false, data: 0, acquire_attempts: 0 }
}

/// The reset state of one interrupt structure: no routing, nothing pending.
pub open spec fn intr_struct_reset() -> IntrStructRegisters {
    IntrStructRegisters { notify_mask: 0, release_mask: 0, notify_pending: 0, release_pending: 0 }
}

/// The reset state of the whole block.
pub open spec fn ipc_reset_state() -> IpcState {
    IpcState {
        channels: Seq::new(16, |i: int| channel_reset()),
        intr_structs: Seq::new(16, |i: int| intr_struct_reset()),
    }
}

impl IpcRegisters {
    /// The register block as it comes out of reset: every channel unlocked
    /// with a zero mailbox, every interrupt structure unrouted with nothing
    /// pending.
    pub fn new() -> (r: IpcRegisters)
        ensures
            r@ == ipc_reset_state(),
            r@.wf(),
    {
        let mut channels: Vec<ChannelRegisters> = Vec::new();
        let mut intr_structs: Vec<IntrStructRegisters> = Vec::new();
        let mut i: usize = 0;
        while i < 16
            invariant
                i <= 16,
                channels@.len() == i,
                intr_structs@.len() == i,
                forall|j: int| 0 <= j < i ==> channels@[j] == channel_reset(),
                forall|j: int| 0 <= j < i ==> intr_structs@[j] == intr_struct_reset(),
            decreases 16 - i,
        {
            channels.push(ChannelRegisters { lock_status: false, data: 0, acquire_attempts: 0 });
            intr_structs.push(
                IntrStructRegisters {
                    notify_mask: 0,
                    release_mask: 0,
                    notify_pending: 0,
                    release_pending: 0,
                },
            );
            i += 1;
        }
        let r = IpcRegisters { channels, intr_structs };
        proof {
            assert(r@.channels =~= ipc_reset_state().channels);
            assert(r@.intr_structs =~= ipc_reset_state().intr_structs);
            assert(r@ =~= ipc_reset_state());
        }
        r
    }

    /// Whether channel `c`'s hardware lock bit is set.
    pub fn channel_locked(&self, c: usize) -> (r: bool)
        requires
            self@.wf(),
            c < 16,
        ensures
            r == self@.channels[c as int].lock_status,
    {
        self.channels[c].lock_status
    }

    /// The mailbox data register of channel `c`.
    pub fn channel_data(&self, c: usize) -> (r: u32)
        requires
            self@.wf(),
            c < 16,
        ensures
            r == self@.channels[c as int].data,
    {
        self.channels[c].data
    }

    /// How many times the most recent acquisition of channel `c` polled the
    /// acquire register.
    pub fn channel_acquire_attempts(&self, c: usize) -> (r: u32)
        requires
            self@.wf(),
            c < 16,
        ensures
            r == self@.channels[c as int].acquire_attempts,
    {
        self.channels[c].acquire_attempts
    }

    /// The notify routing mask of interrupt structure `si`.
    pub fn intr_notify_mask(&self, si: usize) -> (r: u16)
        requires
            self@.wf(),
            si < 16,
        ensures
            r == self@.intr_structs[si as int].notify_mask,
    {
        self.intr_structs[si].notify_mask
    }

    /// The release routing mask of interrupt structure `si`.
    pub fn intr_release_mask(&self, si: usize) -> (r: u16)
        requires
            self@.wf(),
            si < 16,
        ensures
            r == self@.intr_structs[si as int].release_mask,
    {
        self.intr_structs[si].release_mask
    }

    /// The latched pending notify bits of interrupt structure `si`.
    pub fn intr_notify_pending(&self, si: usize) -> (r: u16)
        requires
            self@.wf(),
            si < 16,
        ensures
            r == self@.intr_structs[si as int].notify_pending,
    {
        self.intr_structs[si].notify_pending
    }

    /// The latched pending release bits of interrupt structure `si`.
    pub fn intr_release_pending(&self, si: usize) -> (r: u16)
        requires
            self@.wf(),
            si < 16,
        ensures
            r == self@.intr_structs[si as int].release_pending,
    {
        self.intr_structs[si].release_pending
    }

    /// Fan a notify event out to every interrupt structure selected by
    /// `mask`.
    fn fanout_notify_regs(&mut self, mask: u16)
        requires
            old(self)@.wf(),
        ensures
            final(self)@.wf(),
            final(self)@ == notify_state(old(self)@, mask),
    {
        let mut i: usize = 0;
        while i < 16
            invariant
                i <= 16,
                self@.wf(),
                self@.channels == old(self)@.channels,
                forall|j: int|
                    0 <= j < i ==> self@.intr_structs[j] == (if bit_set(mask, j) {
                        latched_notify(old(self)@.intr_structs[j])
                    } else {
                        old(self)@.intr_structs[j]
                    }),
                forall|j: int| i <= j < 16 ==> self@.intr_structs[j] == old(self)@.intr_structs[j],
            decreases 16 - i,
        {
            if mask & (1u16 << (i as u16)) != 0 {
                let mut s = self.intr_structs[i];
                s.notify_pending = s.notify_pending | s.notify_mask;
                self.intr_structs.set(i, s);
            }
            i += 1;
        }
        proof {
            assert(self@.intr_structs =~= fanout_notify(old(self)@.intr_structs, mask));
            assert(self@ =~= notify_state(old(self)@, mask));
        }
    }

    /// Fan a release event out to every interrupt structure selected by
    /// `mask`.
    fn fanout_release_regs(&mut self, mask: u16)
        requires
            old(self)@.wf(),
        ensures
            final(self)@.wf(),
            final(self)@.channels == old(self)@.channels,
            final(self)@.intr_structs == fanout_release(old(self)@.intr_structs, mask),
    {
        let mut i: usize = 0;
        while i < 16
            invariant
                i <= 16,
                self@.wf(),
                self@.channels == old(self)@.channels,
                forall|j: int|
                    0 <= j < i ==> self@.intr_structs[j] == (if bit_set(mask, j) {
                        latched_release(old(self)@.intr_structs[j])
                    } else {
                        old(self)@.intr_structs[j]
                    }),
                forall|j: int| i <= j < 16 ==> self@.intr_structs[j] == old(self)@.intr_structs[j],
            decreases 16 - i,
        {
            if mask & (1u16 << (i as u16)) != 0 {
                let mut s = self.intr_structs[i];
                s.release_pending = s.release_pending | s.release_mask;
                self.intr_structs.set(i, s);
            }
            i += 1;
        }
        proof {
            assert(self@.intr_structs =~= fanout_release(old(self)@.intr_structs, mask));
        }
    }
}

/// A handle on one IPC channel that does not hold the hardware lock. The
/// handle is advisory: the hardware lock bit in the register image stays
/// authoritative, and is the only state a channel operation consults.
pub struct Channel {
    id: u8,
}

/// A handle on one IPC channel whose acquisition succeeded. Only this handle
/// offers the mailbox write, so writing without the lock is ruled out at the
/// type level, as the hardware itself would not rule it out.
pub struct LockedChannel {
    id: u8,
}

impl Channel {
    /// The channel identifier this handle stands for.
    pub closed spec fn id_spec(&self) -> int {
        self.id as int
    }

    /// A handle is well-formed when its identifier names one of the 16
    /// hardware channels.
    pub open spec fn wf(&self) -> bool {
        0 <= self.id_spec() < 16
    }

    /// A handle on channel `id`.
    pub fn new(id: u8) -> (r: Channel)
        requires
            id < 16,
        ensures
            r.id_spec() == id as int,
    {
        Channel { id }
    }

    /// The channel identifier.
    pub fn id(&self) -> (r: u8)
        ensures
            r as int == self.id_spec(),
    {
        self.id
    }

    /// Attempts to acquire the channel's hardware lock by polling the acquire
    /// register, up to [`ACQUIRE_RETRY_COUNT`] times. On a free channel the
    /// first poll sets the lock and a [`LockedChannel`] handle comes back; on
    /// a channel the peer holds, every poll of the bounded budget fails and
    /// the attempt ends with [`Error::ChannelBusy`], leaving the lock alone.
    pub fn acquire_lock(&mut self, regs: &mut IpcRegisters) -> (r: Result<LockedChannel, Error>)
        requires
            old(self).wf(),
            old(regs)@.wf(),
        ensures
            *final(self) == *old(self),
            final(regs)@.wf(),
            !old(regs)@.channels[old(self).id_spec()].lock_status ==> {
                &&& r is Ok
                &&& r->Ok_0.id_spec() == old(self).id_spec()
                &&& final(regs)@ == acquire_ok_state(old(regs)@, old(self).id_spec())
            },
            old(regs)@.channels[old(self).id_spec()].lock_status ==> {
                &&& r == Err::<LockedChannel, Error>(Error::ChannelBusy)
                &&& final(regs)@ == acquire_busy_state(old(regs)@, old(self).id_spec())
            },
    {
        let c = self.id as usize;
        let mut chan = regs.channels[c];
        if !chan.lock_status {
            // The first poll of the acquire register reports success and
            // sets the lock.
            chan.lock_status = true;
            chan.acquire_attempts = 1;
            regs.channels.set(c, chan);
            Ok(LockedChannel { id: self.id })
        } else {
            // The image is not shared within the call, so each poll of the
            // busy acquire register fails; the whole retry budget is spent.
            chan.acquire_attempts = ACQUIRE_RETRY_COUNT;
            regs.channels.set(c, chan);
            Err(Error::ChannelBusy)
        }
    }

    /// Releases the channel's hardware lock and raises a release event on
    /// every interrupt structure with a set bit in `release_intr_mask` (none
    /// for the empty mask). Fails with [`Error::ReleaseFailed`] only if the
    /// hardware still reported the lock held after the release write, which
    /// the register image never does.
    pub fn release_lock(&mut self, regs: &mut IpcRegisters, release_intr_mask: &IntrStructMaskBits)
        -> (r: Result<(), Error>)
        requires
            old(self).wf(),
            old(regs)@.wf(),
        ensures
            *final(self) == *old(self),
            final(regs)@.wf(),
            final(regs)@ == release_state(old(regs)@, old(self).id_spec(), release_intr_mask.bits),
            r is Ok,
    {
        let c = self.id as usize;
        let mut chan = regs.channels[c];
        chan.lock_status = false;
        regs.channels.set(c, chan);
        regs.fanout_release_regs(release_intr_mask.bits);
        if regs.channel_locked(c) {
            Err(Error::ReleaseFailed)
        } else {
            Ok(())
        }
    }

    /// Raises a notify event on every interrupt structure with a set bit in
    /// `notify_intr_mask`, without touching the lock; used after a write to
    /// wake the peer core without forcing it to poll.
    pub fn notify(&self, regs: &mut IpcRegisters, notify_intr_mask: &IntrStructMaskBits)
        requires
            self.wf(),
            old(regs)@.wf(),
        ensures
            final(regs)@.wf(),
            final(regs)@ == notify_state(old(regs)@, notify_intr_mask.bits),
    {
        regs.fanout_notify_regs(notify_intr_mask.bits);
    }

    /// Non-blocking read of the channel's hardware lock bit.
    pub fn is_locked(&self, regs: &IpcRegisters) -> (r: bool)
        requires
            self.wf(),
            regs@.wf(),
        ensures
            r == regs@.channels[self.id_spec()].lock_status,
    {
        regs.channel_locked(self.id as usize)
    }

    /// Reads the channel's mailbox data register. Reading does not need the
    /// lock; trusting the value does, under the acquire/release protocol.
    pub fn read_data_register(&self, regs: &IpcRegisters) -> (r: u32)
        requires
            self.wf(),
            regs@.wf(),
        ensures
            r == regs@.channels[self.id_spec()].data,
    {
        regs.channel_data(self.id as usize)
    }
}

impl LockedChannel {
    /// The channel identifier this handle stands for.
    pub closed spec fn id_spec(&self) -> int {
        self.id as int
    }

    /// A handle is well-formed when its identifier names one of the 16
    /// hardware channels.
    pub open spec fn wf(&self) -> bool {
        0 <= self.id_spec() < 16
    }

    /// Writes `data` to the channel's mailbox data register.
    pub fn write_data_register(&self, regs: &mut IpcRegisters, data: u32)
        requires
            self.wf(),
            old(regs)@.wf(),
        ensures
            final(regs)@.wf(),
            final(regs)@ == write_data_state(old(regs)@, self.id_spec(), data),
    {
        let c = self.id as usize;
        let mut chan = regs.channels[c];
        chan.data = data;
        regs.channels.set(c, chan);
    }

    /// Reads the channel's mailbox data register.
    pub fn read_data_register(&self, regs: &IpcRegisters) -> (r: u32)
        requires
            self.wf(),
            regs@.wf(),
        ensures
            r == regs@.channels[self.id_spec()].data,
    {
        regs.channel_data(self.id as usize)
    }

    /// Raises a notify event on every interrupt structure with a set bit in
    /// `notify_intr_mask`, keeping the lock held.
    pub fn notify(&self, regs: &mut IpcRegisters, notify_intr_mask: &IntrStructMaskBits)
        requires
            self.wf(),
            old(regs)@.wf(),
        ensures
            final(regs)@.wf(),
            final(regs)@ == notify_state(old(regs)@, notify_intr_mask.bits),
    {
        regs.fanout_notify_regs(notify_intr_mask.bits);
    }

    /// Non-blocking read of the channel's hardware lock bit.
    pub fn is_locked(&self, regs: &IpcRegisters) -> (r: bool)
        requires
            self.wf(),
            regs@.wf(),
        ensures
            r == regs@.channels[self.id_spec()].lock_status,
    {
        regs.channel_locked(self.id as usize)
    }

    /// Releases the hardware lock, raising a release event on the interrupt
    /// structures selected by `release_intr_mask`, and hands back the
    /// released handle for the channel. Fails with [`Error::ReleaseFailed`]
    /// only if the hardware still reported the lock held after the release
    /// write, which the register image never does.
    pub fn release_lock(self, regs: &mut IpcRegisters, release_intr_mask: &IntrStructMaskBits)
        -> (r: Result<Channel, Error>)
        requires
            self.wf(),
            old(regs)@.wf(),
        ensures
            final(regs)@.wf(),
            final(regs)@ == release_state(old(regs)@, self.id_spec(), release_intr_mask.bits),
            r is Ok,
            r->Ok_0.id_spec() == self.id_spec(),
    {
        let c = self.id as usize;
        let mut chan = regs.channels[c];
        chan.lock_status = false;
        regs.channels.set(c, chan);
        regs.fanout_release_regs(release_intr_mask.bits);
        if regs.channel_locked(c) {
            Err(Error::ReleaseFailed)
        } else {
            Ok(Channel { id: self.id })
        }
    }
}

/// A handle on one interrupt structure, owning its routing configuration.
pub struct IntrStruct {
    id: u8,
}

impl IntrStruct {
    /// The interrupt structure index this handle stands for.
    pub closed spec fn id_spec(&self) -> int {
        self.id as int
    }

    /// A handle is well-formed when its index names one of the 16 hardware
    /// interrupt structures.
    pub open spec fn wf(&self) -> bool {
        0 <= self.id_spec() < 16
    }

    /// A handle on interrupt structure `id`.
    pub fn new(id: u8) -> (r: IntrStruct)
        requires
            id < 16,
        ensures
            r.id_spec() == id as int,
    {
        IntrStruct { id }
    }

    /// Configures which CPU interrupt lines fire when a bound channel sends
    /// a notify event. Requires the critical-section token: the routing
    /// registers have no hardware interlock.
    pub fn configure_notify(
        &mut self,
        regs: &mut IpcRegisters,
        intr_struct_mask: &InterruptMaskBits,
        _cs: &CriticalSection,
    )
        requires
            old(self).wf(),
            old(regs)@.wf(),
        ensures
            *final(self) == *old(self),
            final(regs)@.wf(),
            final(regs)@ == config_notify_state(old(regs)@, old(self).id_spec(), intr_struct_mask.bits),
    {
        let si = self.id as usize;
        let mut s = regs.intr_structs[si];
        s.notify_mask = intr_struct_mask.bits;
        regs.intr_structs.set(si, s);
    }

    /// Configures which CPU interrupt lines fire when a bound channel's lock
    /// is released. Requires the critical-section token: the routing
    /// registers have no hardware interlock.
    pub fn configure_release(
        &mut self,
        regs: &mut IpcRegisters,
        intr_struct_mask: &InterruptMaskBits,
        _cs: &CriticalSection,
    )
        requires
            old(self).wf(),
            old(regs)@.wf(),
        ensures
            *final(self) == *old(self),
            final(regs)@.wf(),
            final(regs)@ == config_release_state(old(regs)@, old(self).id_spec(), intr_struct_mask.bits),
    {
        let si = self.id as usize;
        let mut s = regs.intr_structs[si];
        s.release_mask = intr_struct_mask.bits;
        regs.intr_structs.set(si, s);
    }

    /// Configures both routing masks of the structure from a channel
    /// configuration: the release routing first, then the notify routing.
    pub fn configure(
        &mut self,
        regs: &mut IpcRegisters,
        config: &ChannelConfig,
        cs: &CriticalSection,
    ) -> (r: Result<(), Error>)
        requires
            old(self).wf(),
            old(regs)@.wf(),
        ensures
            *final(self) == *old(self),
            final(regs)@.wf(),
            final(regs)@ == config_notify_state(
                config_release_state(old(regs)@, old(self).id_spec(), config.intr_release_mask.bits),
                old(self).id_spec(),
                config.intr_notify_mask.bits,
            ),
            r is Ok,
    {
        self.configure_release(regs, &config.intr_release_mask, cs);
        self.configure_notify(regs, &config.intr_notify_mask, cs);
        Ok(())
    }

    /// Acknowledges the pending release interrupts named by `release_mask`
    /// (write-one-to-clear). Called exactly once per observed event by the
    /// handler or polling loop; clearing an already-clear bit has no effect.
    pub fn clear_release_interrupts(&mut self, regs: &mut IpcRegisters, release_mask: &InterruptMaskBits)
        requires
            old(self).wf(),
            old(regs)@.wf(),
        ensures
            *final(self) == *old(self),
            final(regs)@.wf(),
            final(regs)@ == clear_release_state(old(regs)@, old(self).id_spec(), release_mask.bits),
    {
        let si = self.id as usize;
        let mut s = regs.intr_structs[si];
        s.release_pending = s.release_pending & !release_mask.bits;
        regs.intr_structs.set(si, s);
    }

    /// Acknowledges the pending notify interrupts named by `notify_mask`
    /// (write-one-to-clear).
    pub fn clear_notify_interrupts(&mut self, regs: &mut IpcRegisters, notify_mask: &InterruptMaskBits)
        requires
            old(self).wf(),
            old(regs)@.wf(),
        ensures
            *final(self) == *old(self),
            final(regs)@.wf(),
            final(regs)@ == clear_notify_state(old(regs)@, old(self).id_spec(), notify_mask.bits),
    {
        let si = self.id as usize;
        let mut s = regs.intr_structs[si];
        s.notify_pending = s.notify_pending & !notify_mask.bits;
        regs.intr_structs.set(si, s);
    }

    /// The latched pending notify interrupts of this structure.
    pub fn pending_notify_interrupts(&self, regs: &IpcRegisters) -> (r: InterruptMaskBits)
        requires
            self.wf(),
            regs@.wf(),
        ensures
            r.bits == regs@.intr_structs[self.id_spec()].notify_pending,
    {
        InterruptMaskBits { bits: regs.intr_notify_pending(self.id as usize) }
    }

    /// The latched pending release interrupts of this structure.
    pub fn pending_release_interrupts(&self, regs: &IpcRegisters) -> (r: InterruptMaskBits)
        requires
            self.wf(),
            regs@.wf(),
        ensures
            r.bits == regs@.intr_structs[self.id_spec()].release_pending,
    {
        InterruptMaskBits { bits: regs.intr_release_pending(self.id as usize) }
    }
}

/// The 16 channel handles under their fixed system roles. This assignment is
/// a wire contract with the peer core's firmware: channels 0-7 carry the
/// listed system roles, channels 8-15 are user-assignable.
pub struct Channels {
    pub syscall_cm0: Channel,
    pub syscall_cm4: Channel,
    pub syscall_dap: Channel,
    pub reserved: Channel,
    pub semaphores: Channel,
    pub pipe_ep0: Channel,
    pub pipe_ep1: Channel,
    pub ddft: Channel,
    pub channel8: Channel,
    pub channel9: Channel,
    pub channel10: Channel,
    pub channel11: Channel,
    pub channel12: Channel,
    pub channel13: Channel,
    pub channel14: Channel,
    pub channel15: Channel,
}

impl Channels {
    /// Each handle names the channel of its role.
    pub open spec fn wf(&self) -> bool {
        &&& self.syscall_cm0.id_spec() == 0
        &&& self.syscall_cm4.id_spec() == 1
        &&& self.syscall_dap.id_spec() == 2
        &&& self.reserved.id_spec() == 3
        &&& self.semaphores.id_spec() == 4
        &&& self.pipe_ep0.id_spec() == 5
        &&& self.pipe_ep1.id_spec() == 6
        &&& self.ddft.id_spec() == 7
        &&& self.channel8.id_spec() == 8
        &&& self.channel9.id_spec() == 9
        &&& self.channel10.id_spec() == 10
        &&& self.channel11.id_spec() == 11
        &&& self.channel12.id_spec() == 12
        &&& self.channel13.id_spec() == 13
        &&& self.channel14.id_spec() == 14
        &&& self.channel15.id_spec() == 15
    }

    /// The channel handles in their role assignment.
    pub fn new() -> (r: Channels)
        ensures
            r.wf(),
    {
        Channels {
            syscall_cm0: Channel { id: 0 },
            syscall_cm4: Channel { id: 1 },
            syscall_dap: Channel { id: 2 },
            reserved: Channel { id: 3 },
            semaphores: Channel { id: 4 },
            pipe_ep0: Channel { id: 5 },
            pipe_ep1: Channel { id: 6 },
            ddft: Channel { id: 7 },
            channel8: Channel { id: 8 },
            channel9: Channel { id: 9 },
            channel10: Channel { id: 10 },
            channel11: Channel { id: 11 },
            channel12: Channel { id: 12 },
            channel13: Channel { id: 13 },
            channel14: Channel { id: 14 },
            channel15: Channel { id: 15 },
        }
    }
}

/// The 16 interrupt-structure handles under their fixed system roles,
/// mirroring the channel role table.
pub struct IntrStructs {
    pub syscall: IntrStruct,
    pub intr_struct1: IntrStruct,
    pub intr_struct2: IntrStruct,
    pub intr_ep0: IntrStruct,
    pub intr_ep1: IntrStruct,
    pub intr_struct5: IntrStruct,
    pub intr_struct6: IntrStruct,
    pub intr_spare: IntrStruct,
    pub intr_struct8: IntrStruct,
    pub intr_struct9: IntrStruct,
    pub intr_struct10: IntrStruct,
    pub intr_struct11: IntrStruct,
    pub intr_struct12: IntrStruct,
    pub intr_struct13: IntrStruct,
    pub intr_struct14: IntrStruct,
    pub intr_struct15: IntrStruct,
}

impl IntrStructs {
    /// Each handle names the interrupt structure of its role.
    pub open spec fn wf(&self) -> bool {
        &&& self.syscall.id_spec() == 0
        &&& self.intr_struct1.id_spec() == 1
        &&& self.intr_struct2.id_spec() == 2
        &&& self.intr_ep0.id_spec() == 3
        &&& self.intr_ep1.id_spec() == 4
        &&& self.intr_struct5.id_spec() == 5
        &&& self.intr_struct6.id_spec() == 6
        &&& self.intr_spare.id_spec() == 7
        &&& self.intr_struct8.id_spec() == 8
        &&& self.intr_struct9.id_spec() == 9
        &&& self.intr_struct10.id_spec() == 10
        &&& self.intr_struct11.id_spec() == 11
        &&& self.intr_struct12.id_spec() == 12
        &&& self.intr_struct13.id_spec() == 13
        &&& self.intr_struct14.id_spec() == 14
        &&& self.intr_struct15.id_spec() == 15
    }

    /// The interrupt-structure handles in their role assignment.
    pub fn new() -> (r: IntrStructs)
        ensures
            r.wf(),
    {
        IntrStructs {
            syscall: IntrStruct { id: 0 },
            intr_struct1: IntrStruct { id: 1 },
            intr_struct2: IntrStruct { id: 2 },
            intr_ep0: IntrStruct { id: 3 },
            intr_ep1: IntrStruct { id: 4 },
            intr_struct5: IntrStruct { id: 5 },
            intr_struct6: IntrStruct { id: 6 },
            intr_spare: IntrStruct { id: 7 },
            intr_struct8: IntrStruct { id: 8 },
            intr_struct9: IntrStruct { id: 9 },
            intr_struct10: IntrStruct { id: 10 },
            intr_struct11: IntrStruct { id: 11 },
            intr_struct12: IntrStruct { id: 12 },
            intr_struct13: IntrStruct { id: 13 },
            intr_struct14: IntrStruct { id: 14 },
            intr_struct15: IntrStruct { id: 15 },
        }
    }
}

/// For every channel identifier and every release routing mask, acquiring a
/// free channel's lock and then releasing it leaves the channel unlocked,
/// with its mailbox untouched.
pub proof fn lemma_acquire_then_release_unlocks(s: IpcState, c: int, mask: u16)
    requires
        s.wf(),
        0 <= c < 16,
        !s.channels[c].lock_status,
    ensures
        !release_state(acquire_ok_state(s, c), c, mask).channels[c].lock_status,
        release_state(acquire_ok_state(s, c), c, mask).channels[c].data == s.channels[c].data,
{
}

/// For every channel identifier, a second acquisition while the lock is held
/// leaves the whole block unchanged except for the spent retry budget: the
/// lock stays held, the mailbox and every interrupt structure keep their
/// state, and exactly [`ACQUIRE_RETRY_COUNT`] polls were made.
pub proof fn lemma_acquire_busy_spends_full_budget(s: IpcState, c: int)
    requires
        s.wf(),
        0 <= c < 16,
        s.channels[c].lock_status,
    ensures
        acquire_busy_state(s, c).channels[c].lock_status,
        acquire_busy_state(s, c).channels[c].data == s.channels[c].data,
        acquire_busy_state(s, c).channels[c].acquire_attempts == ACQUIRE_RETRY_COUNT,
        acquire_busy_state(s, c).intr_structs == s.intr_structs,
        forall|d: int| 0 <= d < 16 && d != c ==> acquire_busy_state(s, c).channels[d] == s.channels[d],
{
}

/// Acknowledging release interrupts is a level-clear, not an edge-counted
/// decrement: clearing the same mask twice with no intervening event has
/// exactly the effect of clearing it once.
pub proof fn lemma_clear_release_interrupts_idempotent(s: IpcState, si: int, mask: u16)
    requires
        s.wf(),
        0 <= si < 16,
    ensures
        clear_release_state(clear_release_state(s, si, mask), si, mask) == clear_release_state(
            s,
            si,
            mask,
        ),
{
    let p = s.intr_structs[si].release_pending;
    assert((p & !mask) & !mask == p & !mask) by (bit_vector);
    assert(clear_release_state(clear_release_state(s, si, mask), si, mask).intr_structs
        =~= clear_release_state(s, si, mask).intr_structs);
    assert(clear_release_state(clear_release_state(s, si, mask), si, mask) =~= clear_release_state(
        s,
        si,
        mask,
    ));
}

/// Acknowledging notify interrupts is a level-clear in the same way.
pub proof fn lemma_clear_notify_interrupts_idempotent(s: IpcState, si: int, mask: u16)
    requires
        s.wf(),
        0 <= si < 16,
    ensures
        clear_notify_state(clear_notify_state(s, si, mask), si, mask) == clear_notify_state(
            s,
            si,
            mask,
        ),
{
    let p = s.intr_structs[si].notify_pending;
    assert((p & !mask) & !mask == p & !mask) by (bit_vector);
    assert(clear_notify_state(clear_notify_state(s, si, mask), si, mask).intr_structs
        =~= clear_notify_state(s, si, mask).intr_structs);
    assert(clear_notify_state(clear_notify_state(s, si, mask), si, mask) =~= clear_notify_state(
        s,
        si,
        mask,
    ));
}

/// Notify and release events coalesce: after a release and a notify both
/// reach an interrupt structure, the pending lines are exactly the
/// structure's configured routing masks joined onto what was already
/// pending — a burst of events yields one pending set, not a count.
pub proof fn lemma_release_then_notify_coalesce(s: IpcState, c: int, si: int, mask: u16)
    requires
        s.wf(),
        0 <= c < 16,
        0 <= si < 16,
        bit_set(mask, si),
    ensures
        notify_state(release_state(s, c, mask), mask).intr_structs[si].release_pending
            == s.intr_structs[si].release_pending | s.intr_structs[si].release_mask,
        notify_state(release_state(s, c, mask), mask).intr_structs[si].notify_pending
            == s.intr_structs[si].notify_pending | s.intr_structs[si].notify_mask,
{
}

} // verus!
