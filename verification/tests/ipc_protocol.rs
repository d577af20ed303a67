//! The IPC channel lock protocol, the event fabric, the semaphore and the
//! pipes, exercised on the register image.

use psoc6_hal::drivers::ipc::Channel;
use psoc6_hal::drivers::ipc::ChannelConfig;
use psoc6_hal::drivers::ipc::ChannelMaskBits;
use psoc6_hal::drivers::ipc::Channels;
use psoc6_hal::drivers::ipc::CriticalSection;
use psoc6_hal::drivers::ipc::Error as IpcError;
use psoc6_hal::drivers::ipc::InterruptMaskBits;
use psoc6_hal::drivers::ipc::IntrStruct;
use psoc6_hal::drivers::ipc::IntrStructMaskBits;
use psoc6_hal::drivers::ipc::IntrStructs;
use psoc6_hal::drivers::ipc::IpcRegisters;
use psoc6_hal::drivers::ipc::ACQUIRE_RETRY_COUNT;
use psoc6_hal::drivers::nvic::Nvic;
use psoc6_hal::drivers::cpuss::InterruptSource;
use psoc6_hal::drivers::pipes::Error as PipeError;
use psoc6_hal::drivers::pipes::Pipe;
use psoc6_hal::drivers::semaphore::FlagSet;
use psoc6_hal::drivers::semaphore::Semaphore;
use psoc6_hal::drivers::semaphore::SemaphoreFlag;
use psoc6_hal::error::Error;
use psoc6_hal::psoc::Psoc;

#[test]
fn acquire_then_release_leaves_every_channel_unlocked() {
    for id in 0u8..16 {
        let mut regs = IpcRegisters::new();
        let mut channel = Channel::new(id);
        let locked = channel.acquire_lock(&mut regs).unwrap();
        assert!(locked.is_locked(&regs));
        let released = locked
            .release_lock(&mut regs, &IntrStructMaskBits::none())
            .unwrap();
        assert!(!released.is_locked(&regs));
        assert!(!regs.channel_locked(id as usize));
    }
}

#[test]
fn second_acquire_fails_busy_after_exactly_the_retry_budget() {
    for id in 0u8..16 {
        let mut regs = IpcRegisters::new();
        let mut channel = Channel::new(id);
        let _held = channel.acquire_lock(&mut regs).unwrap();
        assert_eq!(regs.channel_acquire_attempts(id as usize), 1);
        let mut second = Channel::new(id);
        match second.acquire_lock(&mut regs) {
            Err(IpcError::ChannelBusy) => {}
            _ => panic!("a held channel must report ChannelBusy"),
        }
        // The mock acquire register counts the polls: the full budget was
        // spent, not less and not more.
        assert_eq!(regs.channel_acquire_attempts(id as usize), ACQUIRE_RETRY_COUNT);
        assert!(regs.channel_locked(id as usize));
    }
}

#[test]
fn mailbox_write_then_read_returns_the_word() {
    let mut regs = IpcRegisters::new();
    let mut channel = Channel::new(9);
    let locked = channel.acquire_lock(&mut regs).unwrap();
    locked.write_data_register(&mut regs, 0x1234_5678);
    assert_eq!(locked.read_data_register(&regs), 0x1234_5678);
    let released = locked
        .release_lock(&mut regs, &IntrStructMaskBits::none())
        .unwrap();
    // Release leaves the mailbox untouched.
    assert_eq!(released.read_data_register(&regs), 0x1234_5678);
}

#[test]
fn release_and_notify_pend_as_one_event_on_the_configured_line() {
    // Core A acquires channel 5, writes a word, releases with a mask
    // routing to the interrupt structure for channel 6, and notifies; core
    // B observes a single coalesced event pending on the configured CPU
    // line and reads the word from the mailbox.
    let mut regs = IpcRegisters::new();
    let cs = CriticalSection::new();
    let mut struct6 = IntrStruct::new(6);
    struct6.configure_release(&mut regs, &InterruptMaskBits::single(2), &cs);
    struct6.configure_notify(&mut regs, &InterruptMaskBits::single(2), &cs);

    let mut channel5 = Channel::new(5);
    let locked = channel5.acquire_lock(&mut regs).unwrap();
    locked.write_data_register(&mut regs, 0xDEADBEEF);
    let released = locked
        .release_lock(&mut regs, &IntrStructMaskBits::single(6))
        .unwrap();
    released.notify(&mut regs, &IntrStructMaskBits::single(6));

    // One pending set per event kind, both on CPU line 2 and nowhere else.
    assert_eq!(struct6.pending_release_interrupts(&regs).bits(), 1 << 2);
    assert_eq!(struct6.pending_notify_interrupts(&regs).bits(), 1 << 2);
    for other in 0u8..16 {
        if other != 6 {
            let s = IntrStruct::new(other);
            assert_eq!(s.pending_release_interrupts(&regs).bits(), 0);
            assert_eq!(s.pending_notify_interrupts(&regs).bits(), 0);
        }
    }
    // A second notify before the acknowledgement coalesces: same pending set.
    released.notify(&mut regs, &IntrStructMaskBits::single(6));
    assert_eq!(struct6.pending_notify_interrupts(&regs).bits(), 1 << 2);
    // Core B reads the mailbox.
    assert_eq!(regs.channel_data(5), 0xDEADBEEF);
    assert!(!regs.channel_locked(5));
}

#[test]
fn unconfigured_interrupt_structure_latches_nothing() {
    let mut regs = IpcRegisters::new();
    let channel = Channel::new(8);
    channel.notify(&mut regs, &IntrStructMaskBits::single(8));
    // The routing mask is still empty, so no CPU line becomes pending.
    assert_eq!(regs.intr_notify_pending(8), 0);
}

#[test]
fn clear_release_interrupts_twice_is_a_level_clear() {
    let mut regs = IpcRegisters::new();
    let cs = CriticalSection::new();
    let mut struct3 = IntrStruct::new(3);
    struct3.configure_release(&mut regs, &InterruptMaskBits::from_bits(0b101), &cs);
    let mut channel = Channel::new(3);
    let locked = channel.acquire_lock(&mut regs).unwrap();
    locked
        .release_lock(&mut regs, &IntrStructMaskBits::single(3))
        .unwrap();
    assert_eq!(struct3.pending_release_interrupts(&regs).bits(), 0b101);
    // Acknowledge one of the two lines, twice: the second clear has no
    // further effect and raises no error.
    struct3.clear_release_interrupts(&mut regs, &InterruptMaskBits::single(0));
    let after_first = struct3.pending_release_interrupts(&regs).bits();
    struct3.clear_release_interrupts(&mut regs, &InterruptMaskBits::single(0));
    let after_second = struct3.pending_release_interrupts(&regs).bits();
    assert_eq!(after_first, 0b100);
    assert_eq!(after_second, after_first);
}

#[test]
fn channels_table_carries_the_role_assignment() {
    let channels = Channels::new();
    assert_eq!(channels.syscall_cm0.id(), 0);
    assert_eq!(channels.syscall_cm4.id(), 1);
    assert_eq!(channels.syscall_dap.id(), 2);
    assert_eq!(channels.reserved.id(), 3);
    assert_eq!(channels.semaphores.id(), 4);
    assert_eq!(channels.pipe_ep0.id(), 5);
    assert_eq!(channels.pipe_ep1.id(), 6);
    assert_eq!(channels.ddft.id(), 7);
    assert_eq!(channels.channel15.id(), 15);
}

#[test]
fn semaphore_set_twice_reports_flag_locked() {
    let mut sem = Semaphore::new();
    assert!(sem.set(12).is_ok());
    match sem.set(12) {
        Err(Error::FlagLocked) => {}
        _ => panic!("a claimed flag must report FlagLocked, never silently succeed"),
    }
    // The flag stays claimed.
    assert!(sem.flag_is_set(12));
}

#[test]
fn semaphore_clear_without_set_reports_not_set() {
    let mut sem = Semaphore::new();
    match sem.clear(40) {
        Err(Error::FlagCannotBeClearedIsNotSet) => {}
        _ => panic!("clearing an unclaimed flag must fail"),
    }
}

#[test]
fn semaphore_set_clear_roundtrip_over_all_valid_flags() {
    let mut sem = Semaphore::new();
    for f in 0u32..127 {
        assert!(sem.set(f).is_ok());
        assert!(sem.flag_is_set(f));
        assert!(sem.clear(f).is_ok());
        assert!(!sem.flag_is_set(f));
    }
}

#[test]
fn semaphore_rejects_flags_above_126() {
    let mut sem = Semaphore::new();
    for f in [127u32, 128, 200, u32::MAX] {
        match sem.set(f) {
            Err(Error::FlagUnknown) => {}
            _ => panic!("flag {} must be unknown", f),
        }
        match sem.clear(f) {
            Err(Error::FlagUnknown) => {}
            _ => panic!("flag {} must be unknown", f),
        }
    }
}

#[test]
fn semaphore_set_leaves_other_flags_alone() {
    let mut sem = Semaphore::new();
    sem.set(3).unwrap();
    sem.set(64).unwrap();
    assert!(sem.flag_is_set(3));
    assert!(sem.flag_is_set(64));
    assert!(!sem.flag_is_set(2));
    assert!(!sem.flag_is_set(65));
    sem.clear(3).unwrap();
    assert!(sem.flag_is_set(64));
}

#[test]
fn semaphore_configure_writes_the_routing_and_start_announces() {
    let mut regs = IpcRegisters::new();
    let cs = CriticalSection::new();
    let mut intr_structs = IntrStructs::new();
    let config = ChannelConfig {
        struct_release: IntrStructMaskBits::single(15),
        struct_notify: IntrStructMaskBits::single(15),
        intr_release_mask: InterruptMaskBits::single(15),
        intr_notify_mask: InterruptMaskBits::single(14),
    };
    let mut sem =
        Semaphore::configure(&mut intr_structs.syscall, config, &mut regs, &cs).unwrap();
    assert_eq!(regs.intr_release_mask(0), 1 << 15);
    assert_eq!(regs.intr_notify_mask(0), 1 << 14);

    let mut channels = Channels::new();
    // Fill the mailbox with stale traffic first: the announcement word
    // replaces it, so a wrapper handing its input back would be caught.
    let locked = channels.semaphores.acquire_lock(&mut regs).unwrap();
    locked.write_data_register(&mut regs, 0x5555_5555);
    locked
        .release_lock(&mut regs, &IntrStructMaskBits::none())
        .unwrap();
    sem.start(&mut channels.semaphores, &mut regs).unwrap();
    assert_eq!(regs.channel_data(4), 0);
    assert!(!regs.channel_locked(4));
}

#[test]
fn semaphore_start_on_a_held_channel_is_busy() {
    let mut regs = IpcRegisters::new();
    let mut channels = Channels::new();
    let _held = channels.semaphores.acquire_lock(&mut regs).unwrap();
    let mut sem = Semaphore::new();
    let mut again = Channel::new(4);
    match sem.start(&mut again, &mut regs) {
        Err(Error::ChannelBusy) => {}
        _ => panic!("start over a held semaphore channel must be busy"),
    }
}

#[test]
fn pipe_endpoints_must_be_distinct() {
    for bit in 0u16..16 {
        let pipe = Pipe::new();
        let same = ChannelMaskBits::single(bit);
        match pipe.configure_pipe_endpoints(same, same) {
            Err(PipeError::PipeEndpointsNotDistinct) => {}
            _ => panic!("identical endpoints must be rejected"),
        }
    }
}

#[test]
fn pipe_distinct_endpoints_are_accepted_and_reported() {
    let pipe = Pipe::new();
    let send = ChannelMaskBits::single(5);
    let receive = ChannelMaskBits::single(6);
    let pipe = pipe.configure_pipe_endpoints(send, receive).unwrap();
    assert_eq!(pipe.send_ep().bits(), 1 << 5);
    assert_eq!(pipe.receive_ep().bits(), 1 << 6);
}

#[test]
fn pipe_start_and_stop_bracket_client_traffic() {
    let mut pipe = Pipe::new();
    assert!(!pipe.is_running());
    pipe.start_system_pipes();
    assert!(pipe.is_running());
    pipe.stop_system_pipes();
    assert!(!pipe.is_running());
}

#[test]
fn system_pipe_channels_are_cross_wired() {
    let mut psoc = Psoc::new();
    let mut nvic = Nvic::new();
    let cs = CriticalSection::new();
    let pipe = Pipe::new()
        .configure_pipe_endpoints(ChannelMaskBits::single(5), ChannelMaskBits::single(6))
        .unwrap();
    let pipe = pipe
        .configure_system_pipe_channels(&mut psoc.ipc_intr, &mut nvic, &mut psoc.ipc_regs, &cs)
        .unwrap();
    // Endpoint 0's structure raises CPU line 1, endpoint 1's CPU line 0:
    // each side's outgoing event is the other side's incoming interrupt.
    assert_eq!(psoc.ipc_regs.intr_release_mask(3), 0b10);
    assert_eq!(psoc.ipc_regs.intr_notify_mask(3), 0b10);
    assert_eq!(psoc.ipc_regs.intr_release_mask(4), 0b01);
    assert_eq!(psoc.ipc_regs.intr_notify_mask(4), 0b01);
    // This core's own IPC interrupt line is enabled at priority 1.
    assert!(nvic.is_enabled(InterruptSource::CPUSS_INTERRUPTS_IPC_0));
    assert_eq!(nvic.priority_of(InterruptSource::CPUSS_INTERRUPTS_IPC_0), 1);
    assert!(!nvic.is_pending(InterruptSource::CPUSS_INTERRUPTS_IPC_0));
    // The wiring reassigns the endpoints to the system channels.
    assert_eq!(pipe.send_ep().bits(), 1 << 5);
    assert_eq!(pipe.receive_ep().bits(), 1 << 6);
}

#[test]
fn flag_sent_over_the_system_pipe_wiring_is_received_unchanged() {
    let mut psoc = Psoc::new();
    let mut nvic = Nvic::new();
    let cs = CriticalSection::new();
    let pipe = Pipe::new()
        .configure_pipe_endpoints(ChannelMaskBits::single(5), ChannelMaskBits::single(6))
        .unwrap();
    let mut pipe = pipe
        .configure_system_pipe_channels(&mut psoc.ipc_intr, &mut nvic, &mut psoc.ipc_regs, &cs)
        .unwrap();
    // Claim a client slot on the embedded semaphore and announce it.
    pipe.semaphore_mut().set(5).unwrap();
    let flag: SemaphoreFlag<FlagSet> = SemaphoreFlag::new(5);
    psoc.send_ipc_semaphore(&flag, &IntrStructMaskBits::single(4))
        .unwrap();
    // The peer core's mirror reads the same flag value back.
    let received = psoc
        .receive_ipc_semaphore(&flag, &IntrStructMaskBits::single(3))
        .unwrap();
    assert_eq!(received, 5);
}

#[test]
fn send_ipc_semaphore_on_a_held_channel_is_busy() {
    let mut psoc = Psoc::new();
    let _held = psoc.ipc.semaphores.acquire_lock(&mut psoc.ipc_regs).unwrap();
    let flag: SemaphoreFlag<FlagSet> = SemaphoreFlag::new(1);
    match psoc.send_ipc_semaphore(&flag, &IntrStructMaskBits::none()) {
        Err(Error::ChannelBusy) => {}
        _ => panic!("a held semaphores channel must be busy"),
    }
}

#[test]
fn receive_of_foreign_traffic_releases_the_channel() {
    let mut psoc = Psoc::new();
    let other: SemaphoreFlag<FlagSet> = SemaphoreFlag::new(9);
    psoc.send_ipc_semaphore(&other, &IntrStructMaskBits::none())
        .unwrap();
    assert!(psoc.ipc_regs.channel_locked(4));
    // Expecting flag 2, the word 9 is someone else's: hand it back and
    // release the channel for its owner.
    let expected: SemaphoreFlag<FlagSet> = SemaphoreFlag::new(2);
    let word = psoc
        .receive_ipc_semaphore(&expected, &IntrStructMaskBits::none())
        .unwrap();
    assert_eq!(word, 9);
    assert!(!psoc.ipc_regs.channel_locked(4));
}

#[test]
fn configure_ipc_semaphore_wires_the_named_structure() {
    let mut psoc = Psoc::new();
    let config = ChannelConfig {
        struct_release: IntrStructMaskBits::single(15),
        struct_notify: IntrStructMaskBits::single(15),
        intr_release_mask: InterruptMaskBits::single(15),
        intr_notify_mask: InterruptMaskBits::single(14),
    };
    psoc.configure_ipc_semaphore(&config).unwrap();
    assert_eq!(psoc.ipc_regs.intr_release_mask(15), 1 << 15);
    assert_eq!(psoc.ipc_regs.intr_notify_mask(15), 1 << 14);
    // The configuration lock was taken and given back.
    assert!(!psoc.ipc_regs.channel_locked(4));
    // The release of the configuration lock latched a release event on the
    // freshly configured structure.
    assert_eq!(psoc.ipc_regs.intr_release_pending(15), 1 << 15);
}

#[test]
fn configure_ipc_semaphore_on_a_held_channel_is_busy() {
    let mut psoc = Psoc::new();
    let _held = psoc.ipc.semaphores.acquire_lock(&mut psoc.ipc_regs).unwrap();
    let config = ChannelConfig {
        struct_release: IntrStructMaskBits::none(),
        struct_notify: IntrStructMaskBits::none(),
        intr_release_mask: InterruptMaskBits::none(),
        intr_notify_mask: InterruptMaskBits::none(),
    };
    match psoc.configure_ipc_semaphore(&config) {
        Err(Error::ChannelBusy) => {}
        _ => panic!("a held semaphores channel must be busy"),
    }
}
