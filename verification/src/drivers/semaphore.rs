//! The cross-core semaphore: a 128-flag ownership bitset anchored to the
//! reserved semaphores IPC channel and its interrupt structure.
//!
//! Each flag is a one-shot ownership claim for one logical resource slot,
//! not a counting semaphore: setting a set flag fails, clearing a clear flag
//! fails. Flag numbers 0-126 are valid; bit 127 is reserved.
//!
//! The semaphore separates local logical state from cross-core transport:
//! `set` and `clear` are pure local bit operations, and propagating a change
//! to the peer core is a distinct acquire/write/notify sequence on the
//! semaphore channel (see the system-channel operations of `Psoc`). The
//! sharing model is copy-per-core: `start` announces the configured
//! semaphore over the channel, each core keeps its own copy, and every
//! cross-core mutation travels as an explicit flag message rather than
//! through shared memory, so no memory-ordering contract is needed.

use vstd::prelude::*;
use core::marker::PhantomData;
use crate::drivers::ipc::{
    acquire_busy_state,
    acquire_ok_state,
    release_state,
    write_data_state,
    Channel,
    ChannelConfig,
    config_notify_state,
    config_release_state,
    CriticalSection,
    IntrStruct,
    IntrStructMaskBits,
    IpcRegisters,
};
use crate::error::Error;

verus! {

/// Marker: a flag in the set state.
pub struct FlagSet {}

/// Marker: a flag in the cleared state.
pub struct Clear {}

/// Marker: a semaphore whose channel routing has been configured.
pub struct Configured {}

/// Marker: a semaphore not yet configured.
pub struct UnInit {}

/// The states a semaphore or one of its flags can be in.
pub trait State {}

impl State for FlagSet {}

impl State for Clear {}

impl State for Configured {}

impl State for UnInit {}

/// One semaphore flag number, tagged with the state it was observed in.
#[verifier::reject_recursive_types(STATE)]
pub struct SemaphoreFlag<STATE> {
    /// The flag number, 0-126.
    pub flag: u32,
    /// The state tag.
    pub _state: PhantomData<STATE>,
}

impl<STATE> SemaphoreFlag<STATE> {
    /// A tag for flag number `flag`.
    pub fn new(flag: u32) -> (r: SemaphoreFlag<STATE>)
        ensures
            r.flag == flag,
    {
        SemaphoreFlag { flag, _state: PhantomData }
    }
}

/// The mask with exactly flag `flag_number` set.
pub open spec fn flag_mask(flag_number: u32) -> u128 {
    1u128 << flag_number
}

/// Whether `flag_number` is set in the flag word.
pub open spec fn sem_flag_set(flags: u128, flag_number: u32) -> bool {
    flags & flag_mask(flag_number) != 0
}

/// The flag word with `flag_number` set.
pub open spec fn sem_with_flag(flags: u128, flag_number: u32) -> u128 {
    flags | flag_mask(flag_number)
}

/// The flag word with `flag_number` cleared.
pub open spec fn sem_without_flag(flags: u128, flag_number: u32) -> u128 {
    flags & !flag_mask(flag_number)
}

/// The 128-flag ownership bitset. Constructed unconfigured by [`Semaphore::new`];
/// [`Semaphore::configure`] binds the interrupt-structure routing and yields
/// the configured instance used for the rest of the system lifetime.
pub struct Semaphore {
    flags: u128,
    release_mask: IntrStructMaskBits,
    notify_mask: IntrStructMaskBits,
}

impl Semaphore {
    /// The flag word.
    pub closed spec fn flags_spec(&self) -> u128 {
        self.flags
    }

    /// The interrupt structures a release of the semaphore channel routes to.
    pub closed spec fn release_mask_spec(&self) -> IntrStructMaskBits {
        self.release_mask
    }

    /// The interrupt structures a notify of the semaphore channel routes to.
    pub closed spec fn notify_mask_spec(&self) -> IntrStructMaskBits {
        self.notify_mask
    }

    /// A fresh, unconfigured semaphore: no flags set, no routing bound.
    pub fn new() -> (r: Semaphore)
        ensures
            r.flags_spec() == 0u128,
            forall|f: u32| !sem_flag_set(r.flags_spec(), f),
            r.release_mask_spec().bits == 0u16,
            r.notify_mask_spec().bits == 0u16,
    {
        proof {
            assert forall|f: u32| !sem_flag_set(0u128, f) by {
                assert(0u128 & (1u128 << f) == 0) by (bit_vector);
            }
        }
        Semaphore {
            flags: 0,
            release_mask: IntrStructMaskBits::none(),
            notify_mask: IntrStructMaskBits::none(),
        }
    }

    /// Builds the configured semaphore: writes the given CPU-line routing
    /// masks into the bound interrupt structure (release first, then notify)
    /// and records which interrupt structures the semaphore channel's own
    /// events fan out to. Run on the core that boots first; the peer core
    /// builds its copy from the [`Semaphore::start`] announcement.
    pub fn configure(
        intr_struct: &mut IntrStruct,
        config: ChannelConfig,
        regs: &mut IpcRegisters,
        cs: &CriticalSection,
    ) -> (r: Result<Semaphore, Error>)
        requires
            old(intr_struct).wf(),
            old(regs)@.wf(),
        ensures
            *final(intr_struct) == *old(intr_struct),
            final(regs)@.wf(),
            final(regs)@ == config_notify_state(
                config_release_state(
                    old(regs)@,
                    old(intr_struct).id_spec(),
                    config.intr_release_mask.bits,
                ),
                old(intr_struct).id_spec(),
                config.intr_notify_mask.bits,
            ),
            r is Ok,
            r->Ok_0.flags_spec() == 0u128,
            r->Ok_0.release_mask_spec() == config.struct_release,
            r->Ok_0.notify_mask_spec() == config.struct_notify,
    {
        intr_struct.configure_release(regs, &config.intr_release_mask, cs);
        intr_struct.configure_notify(regs, &config.intr_notify_mask, cs);
        Ok(
            Semaphore {
                flags: 0,
                release_mask: config.struct_release,
                notify_mask: config.struct_notify,
            },
        )
    }

    /// Announces the configured semaphore to the peer core over the
    /// semaphore channel: acquires the channel lock, writes the announcement
    /// word (zero: no flags claimed yet), and releases without raising an
    /// event. Fails with [`Error::ChannelBusy`] exactly when the peer holds
    /// the channel lock, leaving the flags untouched.
    pub fn start(&mut self, channel: &mut Channel, regs: &mut IpcRegisters) -> (r: Result<
        (),
        Error,
    >)
        requires
            old(channel).wf(),
            old(regs)@.wf(),
        ensures
            *final(self) == *old(self),
            *final(channel) == *old(channel),
            final(regs)@.wf(),
            !old(regs)@.channels[old(channel).id_spec()].lock_status ==> {
                &&& r is Ok
                &&& final(regs)@ == release_state(
                    write_data_state(
                        acquire_ok_state(old(regs)@, old(channel).id_spec()),
                        old(channel).id_spec(),
                        0u32,
                    ),
                    old(channel).id_spec(),
                    0u16,
                )
            },
            old(regs)@.channels[old(channel).id_spec()].lock_status ==> {
                &&& r == Err::<(), Error>(Error::ChannelBusy)
                &&& final(regs)@ == acquire_busy_state(old(regs)@, old(channel).id_spec())
            },
    {
        match channel.acquire_lock(regs) {
            Ok(acquired_channel) => {
                acquired_channel.write_data_register(regs, 0);
                match acquired_channel.release_lock(regs, &IntrStructMaskBits::none()) {
                    Ok(_) => Ok(()),
                    Err(_) => Err(Error::ReleaseFailed),
                }
            },
            Err(_) => Err(Error::ChannelBusy),
        }
    }

    /// Whether flag `flag_number` is currently claimed. Pure local read.
    pub fn flag_is_set(&self, flag_number: u32) -> (r: bool)
        requires
            flag_number < 128,
        ensures
            r == sem_flag_set(self.flags_spec(), flag_number),
    {
        self.flags & (1u128 << flag_number) != 0
    }

    /// Claims flag `flag_number`. Fails with [`Error::FlagUnknown`] for flag
    /// numbers above 126, with [`Error::FlagLocked`] when the flag is
    /// already claimed (a claim is one-shot, never silently repeated);
    /// otherwise sets exactly that flag. Pure local bit operation:
    /// propagating the claim to the peer core is a separate channel message.
    pub fn set(&mut self, flag_number: u32) -> (r: Result<(), Error>)
        ensures
            final(self).release_mask_spec() == old(self).release_mask_spec(),
            final(self).notify_mask_spec() == old(self).notify_mask_spec(),
            flag_number >= 127 ==> r == Err::<(), Error>(Error::FlagUnknown) && final(self).flags_spec()
                == old(self).flags_spec(),
            flag_number < 127 && sem_flag_set(old(self).flags_spec(), flag_number) ==> r == Err::<
                (),
                Error,
            >(Error::FlagLocked) && final(self).flags_spec() == old(self).flags_spec(),
            flag_number < 127 && !sem_flag_set(old(self).flags_spec(), flag_number) ==> r is Ok
                && final(self).flags_spec() == sem_with_flag(old(self).flags_spec(), flag_number),
    {
        if flag_number < 127 {
            if self.flags & (1u128 << flag_number) != 0 {
                Err(Error::FlagLocked)
            } else {
                self.flags = self.flags | (1u128 << flag_number);
                Ok(())
            }
        } else {
            Err(Error::FlagUnknown)
        }
    }

    /// Releases flag `flag_number`. Fails with [`Error::FlagUnknown`] for
    /// flag numbers above 126, with [`Error::FlagCannotBeClearedIsNotSet`]
    /// when the flag is not claimed; otherwise clears exactly that flag.
    pub fn clear(&mut self, flag_number: u32) -> (r: Result<(), Error>)
        ensures
            final(self).release_mask_spec() == old(self).release_mask_spec(),
            final(self).notify_mask_spec() == old(self).notify_mask_spec(),
            flag_number >= 127 ==> r == Err::<(), Error>(Error::FlagUnknown) && final(self).flags_spec()
                == old(self).flags_spec(),
            flag_number < 127 && !sem_flag_set(old(self).flags_spec(), flag_number) ==> r == Err::<
                (),
                Error,
            >(Error::FlagCannotBeClearedIsNotSet) && final(self).flags_spec() == old(
                self,
            ).flags_spec(),
            flag_number < 127 && sem_flag_set(old(self).flags_spec(), flag_number) ==> r is Ok
                && final(self).flags_spec() == sem_without_flag(old(self).flags_spec(), flag_number),
    {
        if flag_number < 127 {
            if self.flags & (1u128 << flag_number) != 0 {
                self.flags = self.flags & !(1u128 << flag_number);
                Ok(())
            } else {
                Err(Error::FlagCannotBeClearedIsNotSet)
            }
        } else {
            Err(Error::FlagUnknown)
        }
    }
}

/// The zero flag word has no flag claimed: every claim on a fresh
/// semaphore starts from nothing.
pub proof fn lemma_no_flags_in_zero(flag_number: u32)
    ensures
        !sem_flag_set(0u128, flag_number),
{
    assert(0u128 & (1u128 << flag_number) == 0) by (bit_vector);
}

/// Setting a flag leaves it observably set, so a second `set` of the same
/// flag must take the [`Error::FlagLocked`] path: a claim never silently
/// repeats.
pub proof fn lemma_set_flag_is_set(flags: u128, flag_number: u32)
    requires
        flag_number < 127,
    ensures
        sem_flag_set(sem_with_flag(flags, flag_number), flag_number),
{
    assert((flags | (1u128 << flag_number)) & (1u128 << flag_number) != 0) by (bit_vector)
        requires
            flag_number < 127,
    ;
}

/// For every flag word and every valid flag number not yet claimed, claiming
/// and then releasing the flag restores the word exactly, and in particular
/// leaves the flag observably clear.
pub proof fn lemma_set_then_clear_restores(flags: u128, flag_number: u32)
    requires
        flag_number < 127,
        !sem_flag_set(flags, flag_number),
    ensures
        sem_without_flag(sem_with_flag(flags, flag_number), flag_number) == flags,
        !sem_flag_set(sem_without_flag(sem_with_flag(flags, flag_number), flag_number), flag_number),
{
    assert((flags & (1u128 << flag_number) == 0) ==> ((flags | (1u128 << flag_number)) & !(1u128
        << flag_number) == flags)) by (bit_vector)
        requires
            flag_number < 127,
    ;
    assert((flags & !(1u128 << flag_number)) & (1u128 << flag_number) == 0) by (bit_vector)
        requires
            flag_number < 127,
    ;
}

/// Clearing a flag leaves it observably clear, so a second `clear` of the
/// same flag must take the [`Error::FlagCannotBeClearedIsNotSet`] path.
pub proof fn lemma_cleared_flag_is_clear(flags: u128, flag_number: u32)
    requires
        flag_number < 127,
    ensures
        !sem_flag_set(sem_without_flag(flags, flag_number), flag_number),
{
    assert((flags & !(1u128 << flag_number)) & (1u128 << flag_number) == 0) by (bit_vector)
        requires
            flag_number < 127,
    ;
}

/// Setting one flag touches no other: distinct resource slots are claimed
/// independently.
pub proof fn lemma_set_flag_independent(flags: u128, flag_number: u32, other: u32)
    requires
        flag_number < 127,
        other < 128,
        other != flag_number,
    ensures
        sem_flag_set(sem_with_flag(flags, flag_number), other) == sem_flag_set(flags, other),
{
    assert(((flags | (1u128 << flag_number)) & (1u128 << other) != 0) == (flags & (1u128 << other)
        != 0)) by (bit_vector)
        requires
            flag_number < 127,
            other < 128,
            other != flag_number,
    ;
}

} // verus!
