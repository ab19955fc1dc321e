//! The board: one context that owns the layout table, the drivers and the
//! console of the selected profile, and the calls through which the kernel
//! reaches them.
//!
//! A [`Board`] is made once, at start-up, from the selected profile, and is
//! handed on by reference. The panic console alone is made without it: see
//! [`panic_console_out`].

use vstd::prelude::*;
use crate::console::{Console, ConsoleState, ConsoleStatistics, PanicConsole, PanicConsoleState};
use crate::driver::{
    accepts_all, brought_up, spec_driver_order, DeviceDriverHandle, DriverRegistry, InitError,
    InitOutcome, Stage, NUM_DRIVERS,
};
use crate::layout::{
    valid_layout, AccessPermission, Attributes, MemoryClass, MemoryRange,
    VirtualMemoryLayoutTable,
};
use crate::memory_map::{
    end_inclusive, region_base, region_end_inclusive, spec_end_inclusive, spec_region_base,
    spec_region_end_inclusive, BoardProfile, MmioRegion,
};

verus! {

/// Identifier of the core that runs the initialization.
pub const BOOT_CORE_ID: u64 = 0;

/// Address at which the boot core's stack starts. The stack grows downwards
/// from it.
pub const BOOT_CORE_STACK_START: u64 = 0x80_000;

/// Number of ranges in the layout table of a board.
pub const NUM_MEM_RANGES: usize = 2;

/// The name of a board.
pub open spec fn spec_board_name(profile: BoardProfile) -> Seq<char> {
    match profile {
        BoardProfile::Rpi3 => "Raspberry Pi 3"@,
        BoardProfile::Rpi4 => "Raspberry Pi 4"@,
    }
}

/// The attributes of a block of device registers: device memory, not
/// executable, readable and writable.
pub open spec fn spec_device_attributes() -> Attributes {
    Attributes {
        memory_class: MemoryClass::Device,
        executable: false,
        access: AccessPermission::ReadWrite,
    }
}

/// The range of addresses that the registers of `region` take on `profile`.
pub open spec fn spec_device_range(profile: BoardProfile, region: MmioRegion) -> MemoryRange {
    MemoryRange {
        start: spec_region_base(profile, region) as u64,
        end_inclusive: spec_region_end_inclusive(profile, region) as u64,
        attributes: spec_device_attributes(),
    }
}

/// The ranges of the layout table of `profile`, in table order.
pub open spec fn spec_board_ranges(profile: BoardProfile) -> Seq<MemoryRange> {
    seq![
        spec_device_range(profile, MmioRegion::Gpio),
        spec_device_range(profile, MmioRegion::Pl011Uart),
    ]
}

/// The size in bytes of the address space of `profile`.
pub open spec fn spec_addr_space_size(profile: BoardProfile) -> int {
    spec_end_inclusive(profile) + 1
}

/// The layout table of every board is sorted ascending by start address,
/// its ranges are pairwise disjoint, and the highest address of any range
/// lies below the size of the address space.
pub proof fn lemma_board_layout_valid(profile: BoardProfile)
    ensures
        valid_layout(spec_end_inclusive(profile), spec_board_ranges(profile)),
        forall|i: int, j: int|
            0 <= i < j < spec_board_ranges(profile).len() ==> {
                &&& spec_board_ranges(profile)[i].start < spec_board_ranges(profile)[j].start
                &&& spec_board_ranges(profile)[i].disjoint_from(spec_board_ranges(profile)[j])
            },
        forall|i: int|
            0 <= i < spec_board_ranges(profile).len() ==> spec_board_ranges(
                profile,
            )[i].end_inclusive < spec_addr_space_size(profile),
{
}

/// Two boards of one profile have the same drivers in the same order,
/// whatever else has happened to either: the order does not change within
/// a run.
pub proof fn lemma_driver_order_stable(before: Board, after: Board)
    requires
        before.spec_profile() == after.spec_profile(),
    ensures
        before.spec_drivers() == after.spec_drivers(),
{
}

/// Different boards have different names.
pub proof fn lemma_board_name_injective(a: BoardProfile, b: BoardProfile)
    requires
        spec_board_name(a) == spec_board_name(b),
    ensures
        a == b,
{
    reveal_strlit("Raspberry Pi 3");
    reveal_strlit("Raspberry Pi 4");
    if a != b {
        assert("Raspberry Pi 3"@[13] != "Raspberry Pi 4"@[13]);
    }
}

fn device_range(profile: BoardProfile, region: MmioRegion) -> (range: MemoryRange)
    ensures
        range == spec_device_range(profile, region),
{
    MemoryRange {
        start: region_base(profile, region),
        end_inclusive: region_end_inclusive(profile, region),
        attributes: Attributes {
            memory_class: MemoryClass::Device,
            executable: false,
            access: AccessPermission::ReadWrite,
        },
    }
}

/// What a board is made of and what of it never changes hands: the
/// profile, its layout table and its drivers.
#[derive(Debug)]
struct Inventory {
    profile: BoardProfile,
    layout: VirtualMemoryLayoutTable<NUM_MEM_RANGES>,
    registry: DriverRegistry,
}

impl Inventory {
    #[verifier::type_invariant]
    spec fn inv(&self) -> bool {
        &&& self.layout@ == spec_board_ranges(self.profile)
        &&& self.layout.spec_max_inclusive() == spec_end_inclusive(self.profile)
        &&& self.registry.spec_profile() == self.profile
    }

    fn new(profile: BoardProfile) -> (inventory: Self)
        ensures
            inventory.profile == profile,
            inventory.registry.spec_stage() == (Stage::Initializing { next: 0 }),
    {
        let ranges = [
            device_range(profile, MmioRegion::Gpio),
            device_range(profile, MmioRegion::Pl011Uart),
        ];
        proof {
            assert(ranges@ =~= spec_board_ranges(profile));
            lemma_board_layout_valid(profile);
        }
        match VirtualMemoryLayoutTable::new(end_inclusive(profile), ranges) {
            Ok(layout) => Inventory { profile, layout, registry: DriverRegistry::new(profile) },
            Err(_) => vstd::pervasive::unreached(),
        }
    }

    /// Hands the registry out for a change and leaves a fresh one of the
    /// same profile in its place until [`Self::return_registry`] puts the
    /// changed one back.
    fn lend_registry(&mut self) -> (registry: DriverRegistry)
        ensures
            registry.spec_profile() == old(self).profile,
            registry.spec_stage() == old(self).registry.spec_stage(),
            final(self).profile == old(self).profile,
    {
        proof {
            use_type_invariant(&*self);
        }
        let mut registry = DriverRegistry::new(self.profile);
        core::mem::swap(&mut registry, &mut self.registry);
        registry
    }

    /// Puts back a registry that [`Self::lend_registry`] handed out.
    fn return_registry(&mut self, registry: DriverRegistry)
        requires
            registry.spec_profile() == old(self).profile,
        ensures
            final(self).profile == old(self).profile,
            final(self).registry.spec_stage() == registry.spec_stage(),
    {
        proof {
            use_type_invariant(&*self);
        }
        let mut registry = registry;
        core::mem::swap(&mut registry, &mut self.registry);
    }
}

/// The board-support context. There is one for the life of the system.
#[derive(Debug)]
pub struct Board {
    inventory: Inventory,
    console: Console,
}

impl Board {
    /// The profile that the board was made from.
    pub closed spec fn spec_profile(&self) -> BoardProfile {
        self.inventory.profile
    }

    /// The stage of the bring-up of the drivers.
    pub closed spec fn spec_stage(&self) -> Stage {
        self.inventory.registry.spec_stage()
    }

    /// What the normal console holds.
    pub closed spec fn spec_console(&self) -> ConsoleState {
        self.console@
    }

    /// The drivers of the board, in the order of their initialization.
    pub open spec fn spec_drivers(&self) -> Seq<DeviceDriverHandle> {
        spec_driver_order(self.spec_profile())
    }

    /// The board of `profile`: no driver touched, the console unlocked and
    /// empty.
    pub fn new(profile: BoardProfile) -> (board: Self)
        ensures
            board.spec_profile() == profile,
            board.spec_stage() == (Stage::Initializing { next: 0 }),
            board.spec_console() == (ConsoleState {
                lock_held: false,
                pending: Seq::empty(),
                input: Seq::empty(),
                statistics: ConsoleStatistics { chars_written: 0, chars_read: 0 },
            }),
    {
        Board { inventory: Inventory::new(profile), console: Console::new() }
    }

    /// The profile that the board was made from.
    pub fn profile(&self) -> (profile: BoardProfile)
        ensures
            profile == self.spec_profile(),
    {
        self.inventory.profile
    }

    /// The stage of the bring-up of the drivers.
    pub fn stage(&self) -> (stage: Stage)
        ensures
            stage == self.spec_stage(),
    {
        self.inventory.registry.stage()
    }

    /// Brings the drivers up: calls `init` on each driver that is still to
    /// be initialized, strictly in order, and stops at the first that
    /// fails. See [`DriverRegistry::init_all`].
    pub fn init_all<F: Fn(DeviceDriverHandle) -> InitOutcome>(&mut self, init: F) -> (result:
        Result<(), InitError>)
        requires
            accepts_all(init, old(self).spec_drivers()),
        ensures
            final(self).spec_profile() == old(self).spec_profile(),
            final(self).spec_console() == old(self).spec_console(),
            brought_up(
                init,
                old(self).spec_drivers(),
                old(self).spec_stage(),
                final(self).spec_stage(),
                result,
            ),
    {
        let mut registry = self.inventory.lend_registry();
        let result = registry.init_all(init);
        self.inventory.return_registry(registry);
        result
    }

    /// The normal console, for writing and reading. The board is otherwise
    /// left as it is.
    pub fn console_mut(&mut self) -> (console: &mut Console)
        ensures
            console@ == old(self).spec_console(),
            final(self).spec_console() == final(console)@,
            final(self).spec_profile() == old(self).spec_profile(),
            final(self).spec_stage() == old(self).spec_stage(),
    {
        &mut self.console
    }
}

/// The name of the board.
pub fn board_name(board: &Board) -> (name: &'static str)
    ensures
        name@ == spec_board_name(board.spec_profile()),
{
    match board.inventory.profile {
        BoardProfile::Rpi3 => "Raspberry Pi 3",
        BoardProfile::Rpi4 => "Raspberry Pi 4",
    }
}

/// Identifier of the core that runs the initialization.
pub fn boot_core_id() -> (id: u64)
    ensures
        id == BOOT_CORE_ID,
{
    BOOT_CORE_ID
}

/// Address at which the boot core's stack starts.
pub fn boot_stack_start_address() -> (address: u64)
    ensures
        address == BOOT_CORE_STACK_START,
{
    BOOT_CORE_STACK_START
}

/// The normal console of the board.
pub fn console(board: &Board) -> (console: &Console)
    ensures
        console@ == board.spec_console(),
{
    &board.console
}

/// A fresh console for reporting a fault, for use by the panic handler
/// only. It speaks through the UART of `profile` and depends on nothing
/// else: not on the board, and so not on the state that the normal console
/// is in. The UART is to be programmed from scratch before the first
/// write, and the handle is not to be used for anything but the report.
pub fn panic_console_out(profile: BoardProfile) -> (console: PanicConsole)
    ensures
        console@ == (PanicConsoleState {
            mmio_base: spec_region_base(profile, MmioRegion::Pl011Uart) as u64,
            chars_written: 0,
        }),
{
    PanicConsole::new(region_base(profile, MmioRegion::Pl011Uart))
}

/// The drivers of the board, in the order in which they are initialized.
/// The order depends on the profile alone.
pub fn device_drivers(board: &Board) -> (drivers: [DeviceDriverHandle; NUM_DRIVERS])
    ensures
        drivers@ == spec_driver_order(board.spec_profile()),
{
    proof {
        use_type_invariant(&board.inventory);
    }
    board.inventory.registry.drivers()
}

/// Makes the configuration that needs more than one driver live: the
/// UART's signals are routed through the pins of the GPIO controller. It is
/// made once, after every driver has been initialized.
pub fn post_driver_init(board: &mut Board)
    requires
        old(board).spec_stage() == Stage::DriversLive,
    ensures
        final(board).spec_stage() == Stage::Ready,
        final(board).spec_profile() == old(board).spec_profile(),
        final(board).spec_console() == old(board).spec_console(),
{
    let mut registry = board.inventory.lend_registry();
    registry.post_driver_init();
    board.inventory.return_registry(registry);
}

/// The size of the address space in bytes: the highest mapped address of
/// the board plus one.
pub fn addr_space_size(board: &Board) -> (size: u128)
    ensures
        size == spec_addr_space_size(board.spec_profile()),
{
    proof {
        use_type_invariant(&board.inventory);
    }
    board.inventory.layout.address_space_size()
}

/// The virtual memory layout of the board.
pub fn virt_mem_layout(board: &Board) -> (layout: &VirtualMemoryLayoutTable<NUM_MEM_RANGES>)
    ensures
        layout@ == spec_board_ranges(board.spec_profile()),
        layout.spec_max_inclusive() == spec_end_inclusive(board.spec_profile()),
{
    proof {
        use_type_invariant(&board.inventory);
    }
    &board.inventory.layout
}

} // verus!
