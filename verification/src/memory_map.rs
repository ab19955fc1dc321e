//! Physical memory map of the supported boards.
//!
//! Every address in this module is a function of the [`BoardProfile`] alone:
//! there is no run-time state and no failure path.

use vstd::prelude::*;

verus! {

/// The supported boards. Exactly one profile is selected, once, where the
/// system is configured, and handed on as a value.
#[derive(Clone, Copy, PartialEq, Eq, Debug, Structural)]
pub enum BoardProfile {
    /// Raspberry Pi 3.
    Rpi3,
    /// Raspberry Pi 4.
    Rpi4,
}

/// The memory-mapped device blocks that this layer knows by name.
#[derive(Clone, Copy, PartialEq, Eq, Debug, Structural)]
pub enum MmioRegion {
    /// The GPIO controller.
    Gpio,
    /// The PL011 UART.
    Pl011Uart,
}

/// Offset of the GPIO block from the start of the peripheral window.
pub const GPIO_OFFSET: u64 = 0x0020_0000;

/// Offset of the PL011 UART block from the start of the peripheral window.
pub const PL011_UART_OFFSET: u64 = 0x0020_1000;

/// Size in bytes of the GPIO register block.
pub const GPIO_SIZE: u64 = 0x1000;

/// Size in bytes of the PL011 UART register block.
pub const PL011_UART_SIZE: u64 = 0x200;

/// Start of the peripheral window of a board.
pub open spec fn spec_mmio_base(profile: BoardProfile) -> u64 {
    match profile {
        BoardProfile::Rpi3 => 0x3F00_0000,
        BoardProfile::Rpi4 => 0xFE00_0000,
    }
}

/// Highest address that a board maps.
pub open spec fn spec_end_inclusive(profile: BoardProfile) -> u64 {
    match profile {
        BoardProfile::Rpi3 => 0x3FFF_FFFF,
        BoardProfile::Rpi4 => 0xFFFF_FFFF,
    }
}

/// Offset of a device block from the start of the peripheral window.
pub open spec fn spec_region_offset(region: MmioRegion) -> u64 {
    match region {
        MmioRegion::Gpio => GPIO_OFFSET,
        MmioRegion::Pl011Uart => PL011_UART_OFFSET,
    }
}

/// Size in bytes of a device block.
pub open spec fn spec_region_size(region: MmioRegion) -> u64 {
    match region {
        MmioRegion::Gpio => GPIO_SIZE,
        MmioRegion::Pl011Uart => PL011_UART_SIZE,
    }
}

/// First address of a device block on a board.
pub open spec fn spec_region_base(profile: BoardProfile, region: MmioRegion) -> int {
    spec_mmio_base(profile) + spec_region_offset(region)
}

/// Last address of a device block on a board.
pub open spec fn spec_region_end_inclusive(profile: BoardProfile, region: MmioRegion) -> int {
    spec_region_base(profile, region) + spec_region_size(region) - 1
}

/// Start of the peripheral window of `profile`.
pub fn mmio_base(profile: BoardProfile) -> (base: u64)
    ensures
        base == spec_mmio_base(profile),
{
    match profile {
        BoardProfile::Rpi3 => 0x3F00_0000,
        BoardProfile::Rpi4 => 0xFE00_0000,
    }
}

/// Highest address that `profile` maps.
pub fn end_inclusive(profile: BoardProfile) -> (end: u64)
    ensures
        end == spec_end_inclusive(profile),
{
    match profile {
        BoardProfile::Rpi3 => 0x3FFF_FFFF,
        BoardProfile::Rpi4 => 0xFFFF_FFFF,
    }
}

/// First address of `region` on `profile`.
pub fn region_base(profile: BoardProfile, region: MmioRegion) -> (base: u64)
    ensures
        base == spec_region_base(profile, region),
{
    let offset: u64 = match region {
        MmioRegion::Gpio => GPIO_OFFSET,
        MmioRegion::Pl011Uart => PL011_UART_OFFSET,
    };
    mmio_base(profile) + offset
}

/// Last address of `region` on `profile`.
pub fn region_end_inclusive(profile: BoardProfile, region: MmioRegion) -> (end: u64)
    ensures
        end == spec_region_end_inclusive(profile, region),
{
    let size: u64 = match region {
        MmioRegion::Gpio => GPIO_SIZE,
        MmioRegion::Pl011Uart => PL011_UART_SIZE,
    };
    region_base(profile, region) + (size - 1)
}

} // verus!
